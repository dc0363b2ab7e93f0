//! Latency Tolerance Reporting (LTR) extended capability.
use vstd::prelude::*;
use vstd::arithmetic::power2::pow2;
use crate::bits::{field, get_u16, get_u8, le_u16, read_u16};
use super::ExtendedCapabilityDataError;

verus! {

broadcast use crate::bits::lemma_field_le_mask;

/// Latency Tolerance Reporting capability
#[derive(Debug, Clone, PartialEq, Eq)]
pub struct LatencyToleranceReporting {
    /// Max Snoop Latency
    pub max_snoop_latency: MaxLatency,
    /// Max No-Snoop Latency
    pub max_no_snoop_latency: MaxLatency,
}

impl LatencyToleranceReporting {
    /// The capability that `bytes` (the data after the extended capability header) holds.
    pub open spec fn spec_parse(bytes: Seq<u8>) -> Result<Self, ExtendedCapabilityDataError> {
        if bytes.len() < 4 {
            Err(ExtendedCapabilityDataError { name: "Latency Tolerance Reporting", size: 8 })
        } else {
            Ok(LatencyToleranceReporting {
                max_snoop_latency: MaxLatency::spec_from(le_u16(bytes, 0)),
                max_no_snoop_latency: MaxLatency::spec_from(le_u16(bytes, 2)),
            })
        }
    }
}

impl vstd::std_specs::convert::TryFromSpecImpl<&[u8]> for LatencyToleranceReporting {
    open spec fn obeys_try_from_spec() -> bool {
        true
    }

    open spec fn try_from_spec(slice: &[u8]) -> Result<Self, Self::Error> {
        Self::spec_parse(slice@)
    }
}

impl TryFrom<&[u8]> for LatencyToleranceReporting {
    type Error = ExtendedCapabilityDataError;

    fn try_from(slice: &[u8]) -> (r: Result<Self, Self::Error>) {
        if slice.len() < 4 {
            return Err(ExtendedCapabilityDataError { name: "Latency Tolerance Reporting", size: 8 });
        }
        Ok(LatencyToleranceReporting {
            max_snoop_latency: MaxLatency::from(read_u16(slice, 0)),
            max_no_snoop_latency: MaxLatency::from(read_u16(slice, 2)),
        })
    }
}

/// Maximum latency that a device may request: a value and its scale
#[derive(Debug, Clone, PartialEq, Eq)]
pub struct MaxLatency {
    /// The latency in units that the scale gives
    pub value: u16,
    /// The scale: the value counts units of 32 to the power of the scale nanoseconds
    pub scale: u8,
}

impl MaxLatency {
    /// The fields of the register value `word`.
    pub open spec fn spec_from(word: u16) -> Self {
        MaxLatency {
            value: field(word as u32, 0, 0x3ff) as u16,
            scale: field(word as u32, 10, 0x7) as u8,
        }
    }
}

impl vstd::std_specs::convert::FromSpecImpl<u16> for MaxLatency {
    open spec fn obeys_from_spec() -> bool {
        true
    }

    open spec fn from_spec(word: u16) -> Self {
        Self::spec_from(word)
    }
}

impl From<u16> for MaxLatency {
    fn from(word: u16) -> (r: Self) {
        let w = word as u32;
        MaxLatency {
            value: get_u16(w, 0, 0x3ff),
            scale: get_u8(w, 10, 0x7),
        }
    }
}

impl MaxLatency {
    /// The latency in nanoseconds: the value times 32 to the power of the scale; zero for a
    /// scale above 5, which is not allowed.
    pub fn value(&self) -> (r: usize)
        ensures
            self.scale <= 5 ==> r == (self.value as usize) << ((5 * self.scale) as usize),
            self.scale <= 5 && self.value * pow2((5 * self.scale) as nat) <= usize::MAX ==> r
                == self.value * pow2((5 * self.scale) as nat),
            self.scale > 5 ==> r == 0,
    {
        if self.scale <= 5 {
            let shift: usize = 5 * self.scale as usize;
            proof {
                if self.value * pow2(shift as nat) <= usize::MAX {
                    vstd::bits::lemma_usize_shl_is_mul(self.value as usize, shift);
                }
            }
            (self.value as usize) << shift
        } else {
            0
        }
    }

    /// The register word that holds the value at bit 0 and the scale at bit 13, as the LTR
    /// threshold of L1 PM Substates Control 1 has them.
    pub open spec fn spec_to_bits(self) -> u16 {
        ((self.scale as u16) << 13u16) | self.value
    }
}

impl vstd::std_specs::convert::FromSpecImpl<MaxLatency> for u16 {
    open spec fn obeys_from_spec() -> bool {
        true
    }

    open spec fn from_spec(data: MaxLatency) -> Self {
        data.spec_to_bits()
    }
}

impl From<MaxLatency> for u16 {
    fn from(data: MaxLatency) -> (r: Self) {
        ((data.scale as u16) << 13u16) | data.value
    }
}


/// Reading the capability takes the Max Snoop Latency register from the first two bytes and
/// the Max No-Snoop Latency register from the next two, low byte first; in each, the value is
/// bits 9:0 and the scale bits 12:10.
pub proof fn lemma_parse_latencies(bytes: Seq<u8>)
    requires
        bytes.len() >= 4,
    ensures
        LatencyToleranceReporting::spec_parse(bytes) is Ok,
        ({
            let r = LatencyToleranceReporting::spec_parse(bytes)->Ok_0;
            let snoop = bytes[0] as int + bytes[1] as int * 256;
            let no_snoop = bytes[2] as int + bytes[3] as int * 256;
            &&& r.max_snoop_latency.value as int == snoop % 1024
            &&& r.max_snoop_latency.scale as int == (snoop / 1024) % 8
            &&& r.max_no_snoop_latency.value as int == no_snoop % 1024
            &&& r.max_no_snoop_latency.scale as int == (no_snoop / 1024) % 8
        }),
{
    vstd::bits::lemma_low_bits_mask_values();
    vstd::arithmetic::power2::lemma2_to64();
    let s = le_u16(bytes, 0) as u32;
    let n = le_u16(bytes, 2) as u32;
    crate::bits::lemma_field_div_mod(s, 0, 0x3ff, 10);
    crate::bits::lemma_field_div_mod(s, 10, 0x7, 3);
    crate::bits::lemma_field_div_mod(n, 0, 0x3ff, 10);
    crate::bits::lemma_field_div_mod(n, 10, 0x7, 3);
}

} // verus!
