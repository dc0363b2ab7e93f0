//! Configuration Access Correlation (CAC) extended capability.
//!
//! The capability is read from data that starts with its extended capability header.
use vstd::prelude::*;
use crate::bits::{le_u32, read_u32};
use super::ExtendedCapabilityDataError;

verus! {

/// Configuration Access Correlation capability
#[derive(Debug, Clone, PartialEq, Eq)]
pub struct ConfigurationAccessCorrelation {
    pub device_correlation: u32,
}

impl ConfigurationAccessCorrelation {
    /// Size in bytes, with the extended capability header
    pub const SIZE: usize = 0x8;

    /// The capability that `bytes` (data that starts with the extended capability header) holds.
    pub open spec fn spec_parse(bytes: Seq<u8>) -> Result<Self, ExtendedCapabilityDataError> {
        if bytes.len() < 8 {
            Err(ExtendedCapabilityDataError { name: "Configuration Access Correlation", size: 8 })
        } else {
            Ok(ConfigurationAccessCorrelation { device_correlation: le_u32(bytes, 4) })
        }
    }
}

impl vstd::std_specs::convert::FromSpecImpl<[u8; 8]> for ConfigurationAccessCorrelation {
    open spec fn obeys_from_spec() -> bool {
        true
    }

    open spec fn from_spec(bytes: [u8; 8]) -> Self {
        ConfigurationAccessCorrelation { device_correlation: le_u32(bytes@, 4) }
    }
}

impl From<[u8; 8]> for ConfigurationAccessCorrelation {
    fn from(bytes: [u8; 8]) -> (r: Self) {
        ConfigurationAccessCorrelation { device_correlation: read_u32(bytes.as_slice(), 4) }
    }
}

impl vstd::std_specs::convert::TryFromSpecImpl<&[u8]> for ConfigurationAccessCorrelation {
    open spec fn obeys_try_from_spec() -> bool {
        true
    }

    open spec fn try_from_spec(slice: &[u8]) -> Result<Self, Self::Error> {
        Self::spec_parse(slice@)
    }
}

impl TryFrom<&[u8]> for ConfigurationAccessCorrelation {
    type Error = ExtendedCapabilityDataError;

    fn try_from(slice: &[u8]) -> (r: Result<Self, Self::Error>) {
        if slice.len() < Self::SIZE {
            return Err(
                ExtendedCapabilityDataError { name: "Configuration Access Correlation", size: Self::SIZE },
            );
        }
        Ok(ConfigurationAccessCorrelation { device_correlation: read_u32(slice, 4) })
    }
}

} // verus!
