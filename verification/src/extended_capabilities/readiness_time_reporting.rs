//! Readiness Time Reporting extended capability.
//!
//! The capability is read from data that starts with its extended capability header.
use vstd::prelude::*;
use vstd::arithmetic::power2::pow2;
use crate::bits::{field, flag, get_flag, get_u16, get_u8, le_u32, read_u32};
use super::ExtendedCapabilityDataError;

verus! {

broadcast use crate::bits::lemma_field_le_mask;

/// Readiness Time Reporting capability
#[derive(Debug, Clone, PartialEq, Eq)]
pub struct ReadinessTimeReporting {
    /// The time the Function needs to become Configuration-Ready after a Conventional Reset
    pub reset_time: ReadinessTime,
    /// The time the Function needs to become Configuration-Ready after the Downstream Port
    /// above it reports Data Link Layer Link Active
    pub dl_up_time: ReadinessTime,
    /// All the times of the capability are valid
    pub valid: bool,
    /// The time the Function needs to become Configuration-Ready after an FLR
    pub flr_time: ReadinessTime,
    /// The time the Function needs after it is moved from D3hot to D0 before it is
    /// Configuration-Ready
    pub d3hot_to_d0_time: ReadinessTime,
}

impl ReadinessTimeReporting {
    /// Size in bytes, with the extended capability header
    pub const SIZE: usize = 0x0c;

    /// The capability that `bytes` (data that starts with the extended capability header) holds.
    pub open spec fn spec_parse(bytes: Seq<u8>) -> Result<Self, ExtendedCapabilityDataError> {
        if bytes.len() < 12 {
            Err(ExtendedCapabilityDataError { name: "Readiness Time Reporting", size: 0x0c })
        } else {
            let r1 = le_u32(bytes, 4);
            let r2 = le_u32(bytes, 8);
            Ok(ReadinessTimeReporting {
                reset_time: ReadinessTime::spec_from(field(r1, 0, 0xfff) as u16),
                dl_up_time: ReadinessTime::spec_from(field(r1, 12, 0xfff) as u16),
                valid: flag(r1, 31),
                flr_time: ReadinessTime::spec_from(field(r2, 0, 0xfff) as u16),
                d3hot_to_d0_time: ReadinessTime::spec_from(field(r2, 12, 0xfff) as u16),
            })
        }
    }
}

impl vstd::std_specs::convert::TryFromSpecImpl<&[u8]> for ReadinessTimeReporting {
    open spec fn obeys_try_from_spec() -> bool {
        true
    }

    open spec fn try_from_spec(slice: &[u8]) -> Result<Self, Self::Error> {
        Self::spec_parse(slice@)
    }
}

impl TryFrom<&[u8]> for ReadinessTimeReporting {
    type Error = ExtendedCapabilityDataError;

    fn try_from(slice: &[u8]) -> (r: Result<Self, Self::Error>) {
        if slice.len() < Self::SIZE {
            return Err(ExtendedCapabilityDataError { name: "Readiness Time Reporting", size: Self::SIZE });
        }
        let r1 = read_u32(slice, 4);
        let r2 = read_u32(slice, 8);
        Ok(ReadinessTimeReporting {
            reset_time: ReadinessTime::from(get_u16(r1, 0, 0xfff)),
            dl_up_time: ReadinessTime::from(get_u16(r1, 12, 0xfff)),
            valid: get_flag(r1, 31),
            flr_time: ReadinessTime::from(get_u16(r2, 0, 0xfff)),
            d3hot_to_d0_time: ReadinessTime::from(get_u16(r2, 12, 0xfff)),
        })
    }
}

/// A readiness time: a value and its scale
#[derive(Debug, Clone, PartialEq, Eq)]
pub struct ReadinessTime {
    /// Value
    pub value: u16,
    /// Scale: the value counts units of 32 to the power of the scale nanoseconds
    pub scale: u8,
}

impl ReadinessTime {
    /// The fields of the register value `word`.
    pub open spec fn spec_from(word: u16) -> Self {
        ReadinessTime {
            value: field(word as u32, 0, 0x1ff) as u16,
            scale: field(word as u32, 9, 0x7) as u8,
        }
    }
}

impl vstd::std_specs::convert::FromSpecImpl<u16> for ReadinessTime {
    open spec fn obeys_from_spec() -> bool {
        true
    }

    open spec fn from_spec(word: u16) -> Self {
        Self::spec_from(word)
    }
}

impl From<u16> for ReadinessTime {
    fn from(word: u16) -> (r: Self) {
        let w = word as u32;
        ReadinessTime {
            value: get_u16(w, 0, 0x1ff),
            scale: get_u8(w, 9, 0x7),
        }
    }
}

impl ReadinessTime {
    /// The time: the value times 32 to the power of the scale, as a shift of the value.
    pub fn actual_time_value(&self) -> (r: u64)
        requires
            self.scale * 5 < 64,
        ensures
            r == (self.value as u64) << ((self.scale * 5) as u64),
            self.value * pow2((self.scale * 5) as nat) <= u64::MAX ==> r == self.value * pow2(
                (self.scale * 5) as nat,
            ),
    {
        let shift: u64 = (self.scale * 5) as u64;
        proof {
            if self.value * pow2(shift as nat) <= u64::MAX {
                vstd::bits::lemma_u64_shl_is_mul(self.value as u64, shift);
            }
        }
        (self.value as u64) << shift
    }
}

} // verus!
