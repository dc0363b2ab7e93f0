//! Root Complex Event Collector Endpoint Association extended capability.
use vstd::prelude::*;
use crate::bits::{le_u32, read_u32};
use super::ExtendedCapabilityDataError;

verus! {

/// Root Complex Event Collector Endpoint Association capability
#[derive(Debug, Clone, PartialEq, Eq)]
pub struct RootComplexEventCollectorEndpointAssociation {
    /// The RCiEPs that the Root Complex Event Collector is associated with, one bit each
    pub association_bitmap_for_rcieps: u32,
}

impl RootComplexEventCollectorEndpointAssociation {
    /// Size of the register in bytes
    pub const SIZE: usize = 4;

    /// The capability that `bytes` (the data after the extended capability header) holds.
    pub open spec fn spec_parse(bytes: Seq<u8>) -> Result<Self, ExtendedCapabilityDataError> {
        if bytes.len() < 4 {
            Err(
                ExtendedCapabilityDataError {
                    name: "Root Complex Event Collector Endpoint Association",
                    size: 4,
                },
            )
        } else {
            Ok(RootComplexEventCollectorEndpointAssociation {
                association_bitmap_for_rcieps: le_u32(bytes, 0),
            })
        }
    }
}

impl vstd::std_specs::convert::FromSpecImpl<[u8; 4]> for RootComplexEventCollectorEndpointAssociation {
    open spec fn obeys_from_spec() -> bool {
        true
    }

    open spec fn from_spec(bytes: [u8; 4]) -> Self {
        RootComplexEventCollectorEndpointAssociation { association_bitmap_for_rcieps: le_u32(bytes@, 0) }
    }
}

impl From<[u8; 4]> for RootComplexEventCollectorEndpointAssociation {
    fn from(bytes: [u8; 4]) -> (r: Self) {
        RootComplexEventCollectorEndpointAssociation {
            association_bitmap_for_rcieps: read_u32(bytes.as_slice(), 0),
        }
    }
}

impl vstd::std_specs::convert::TryFromSpecImpl<&[u8]> for RootComplexEventCollectorEndpointAssociation {
    open spec fn obeys_try_from_spec() -> bool {
        true
    }

    open spec fn try_from_spec(slice: &[u8]) -> Result<Self, Self::Error> {
        Self::spec_parse(slice@)
    }
}

impl TryFrom<&[u8]> for RootComplexEventCollectorEndpointAssociation {
    type Error = ExtendedCapabilityDataError;

    fn try_from(slice: &[u8]) -> (r: Result<Self, Self::Error>) {
        if slice.len() < Self::SIZE {
            return Err(
                ExtendedCapabilityDataError {
                    name: "Root Complex Event Collector Endpoint Association",
                    size: Self::SIZE,
                },
            );
        }
        Ok(RootComplexEventCollectorEndpointAssociation {
            association_bitmap_for_rcieps: read_u32(slice, 0),
        })
    }
}

} // verus!
