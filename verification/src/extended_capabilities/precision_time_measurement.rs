//! Precision Time Measurement (PTM) extended capability.
use vstd::prelude::*;
use crate::bits::{field, flag, get_flag, get_u8, le_u32, read_u32};
use super::ExtendedCapabilityDataError;

verus! {

broadcast use crate::bits::lemma_field_le_mask;

/// Precision Time Measurement capability
#[derive(Debug, Clone, PartialEq, Eq)]
pub struct PrecisionTimeMeasurement {
    /// PTM Capability
    pub ptm_capability: PtmCapability,
    /// PTM Control
    pub ptm_control: PtmControl,
}

impl PrecisionTimeMeasurement {
    /// The capability that `bytes` (the data after the extended capability header) holds.
    pub open spec fn spec_parse(bytes: Seq<u8>) -> Result<Self, ExtendedCapabilityDataError> {
        if bytes.len() < 8 {
            Err(ExtendedCapabilityDataError { name: "Precision Time Measurement", size: 8 })
        } else {
            Ok(PrecisionTimeMeasurement {
                ptm_capability: PtmCapability::spec_from(le_u32(bytes, 0)),
                ptm_control: PtmControl::spec_from(le_u32(bytes, 4)),
            })
        }
    }
}

impl vstd::std_specs::convert::TryFromSpecImpl<&[u8]> for PrecisionTimeMeasurement {
    open spec fn obeys_try_from_spec() -> bool {
        true
    }

    open spec fn try_from_spec(slice: &[u8]) -> Result<Self, Self::Error> {
        Self::spec_parse(slice@)
    }
}

impl TryFrom<&[u8]> for PrecisionTimeMeasurement {
    type Error = ExtendedCapabilityDataError;

    fn try_from(slice: &[u8]) -> (r: Result<Self, Self::Error>) {
        if slice.len() < 8 {
            return Err(ExtendedCapabilityDataError { name: "Precision Time Measurement", size: 8 });
        }
        Ok(PrecisionTimeMeasurement {
            ptm_capability: PtmCapability::from(read_u32(slice, 0)),
            ptm_control: PtmControl::from(read_u32(slice, 4)),
        })
    }
}

/// PTM Capability register: the Function's support of Precision Time Measurement
#[derive(Debug, Clone, PartialEq, Eq)]
pub struct PtmCapability {
    /// PTM Requester Capable
    pub ptm_requester_capable: bool,
    /// PTM Responder Capable
    pub ptm_responder_capable: bool,
    /// PTM Root Capable
    pub ptm_root_capable: bool,
    /// Local Clock Granularity
    pub local_clock_granularity: u8,
}

impl PtmCapability {
    /// The fields of the register value `dword`.
    pub open spec fn spec_from(dword: u32) -> Self {
        PtmCapability {
            ptm_requester_capable: flag(dword, 0),
            ptm_responder_capable: flag(dword, 1),
            ptm_root_capable: flag(dword, 2),
            local_clock_granularity: field(dword, 8, 0xff) as u8,
        }
    }
}

impl vstd::std_specs::convert::FromSpecImpl<u32> for PtmCapability {
    open spec fn obeys_from_spec() -> bool {
        true
    }

    open spec fn from_spec(dword: u32) -> Self {
        Self::spec_from(dword)
    }
}

impl From<u32> for PtmCapability {
    fn from(dword: u32) -> (r: Self) {
        PtmCapability {
            ptm_requester_capable: get_flag(dword, 0),
            ptm_responder_capable: get_flag(dword, 1),
            ptm_root_capable: get_flag(dword, 2),
            local_clock_granularity: get_u8(dword, 8, 0xff),
        }
    }
}

/// PTM Control register
#[derive(Debug, Clone, PartialEq, Eq)]
pub struct PtmControl {
    /// PTM Enable
    pub ptm_enable: bool,
    /// Root Select
    pub root_select: bool,
    /// Effective Granularity
    pub effective_granularity: u8,
}

impl PtmControl {
    /// The fields of the register value `dword`.
    pub open spec fn spec_from(dword: u32) -> Self {
        PtmControl {
            ptm_enable: flag(dword, 0),
            root_select: flag(dword, 1),
            effective_granularity: field(dword, 8, 0xff) as u8,
        }
    }
}

impl vstd::std_specs::convert::FromSpecImpl<u32> for PtmControl {
    open spec fn obeys_from_spec() -> bool {
        true
    }

    open spec fn from_spec(dword: u32) -> Self {
        Self::spec_from(dword)
    }
}

impl From<u32> for PtmControl {
    fn from(dword: u32) -> (r: Self) {
        PtmControl {
            ptm_enable: get_flag(dword, 0),
            root_select: get_flag(dword, 1),
            effective_granularity: get_u8(dword, 8, 0xff),
        }
    }
}

} // verus!
