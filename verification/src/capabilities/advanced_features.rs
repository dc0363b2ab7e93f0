//! Advanced Features (AF) capability.
use vstd::prelude::*;
use crate::bits::{flag, get_flag};
use super::CapabilityDataError;

verus! {

/// Advanced Features capability
#[derive(Debug, Clone, PartialEq, Eq)]
pub struct AdvancedFeatures {
    /// AF Structure Length (Bytes)
    pub length: u8,
    pub capabilities: Capabilities,
    pub control: Control,
    pub status: Status,
}

impl AdvancedFeatures {
    /// The capability that `bytes` (the data after the capability header) holds.
    pub open spec fn spec_parse(bytes: Seq<u8>) -> Result<Self, CapabilityDataError> {
        if bytes.len() < 4 {
            Err(CapabilityDataError { name: "Advanced Features", size: 4 })
        } else {
            Ok(AdvancedFeatures {
                length: bytes[0],
                capabilities: Capabilities {
                    transactions_pending: flag(bytes[1] as u32, 0),
                    function_level_reset: flag(bytes[1] as u32, 1),
                },
                control: Control { initiate_flr: flag(bytes[2] as u32, 0) },
                status: Status { transactions_pending: flag(bytes[3] as u32, 0) },
            })
        }
    }
}

impl vstd::std_specs::convert::TryFromSpecImpl<&[u8]> for AdvancedFeatures {
    open spec fn obeys_try_from_spec() -> bool {
        true
    }

    open spec fn try_from_spec(slice: &[u8]) -> Result<Self, Self::Error> {
        Self::spec_parse(slice@)
    }
}

impl TryFrom<&[u8]> for AdvancedFeatures {
    type Error = CapabilityDataError;

    fn try_from(slice: &[u8]) -> (r: Result<Self, Self::Error>) {
        if slice.len() < 4 {
            return Err(CapabilityDataError { name: "Advanced Features", size: 4 });
        }
        Ok(AdvancedFeatures {
            length: slice[0],
            capabilities: Capabilities {
                transactions_pending: get_flag(slice[1] as u32, 0),
                function_level_reset: get_flag(slice[1] as u32, 1),
            },
            control: Control { initiate_flr: get_flag(slice[2] as u32, 0) },
            status: Status { transactions_pending: get_flag(slice[3] as u32, 0) },
        })
    }
}

/// AF Capabilities
#[derive(Debug, Clone, PartialEq, Eq)]
pub struct Capabilities {
    /// Transactions Pending (TP) capable
    pub transactions_pending: bool,
    /// Function Level Reset (FLR) capable
    pub function_level_reset: bool,
}

/// AF Control
#[derive(Debug, Clone, PartialEq, Eq)]
pub struct Control {
    /// Initiate Function Level Reset
    pub initiate_flr: bool,
}

/// AF Status
#[derive(Debug, Clone, PartialEq, Eq)]
pub struct Status {
    /// Transactions Pending
    pub transactions_pending: bool,
}

} // verus!
