//! PCI Bridge Subsystem Vendor ID capability.
use vstd::prelude::*;
use crate::bits::{le_u16, read_u16};
use super::CapabilityDataError;

verus! {

/// PCI Bridge Subsystem Vendor ID capability
#[derive(Debug, Clone, PartialEq, Eq)]
pub struct BridgeSubsystemVendorId {
    pub reserved: u16,
    pub subsystem_vendor_id: u16,
    pub subsystem_id: u16,
}

impl BridgeSubsystemVendorId {
    /// Size of the capability data
    pub const SIZE: usize = 6;

    /// The capability that the first six bytes of `bytes` hold.
    pub open spec fn spec_from_bytes(bytes: Seq<u8>) -> Self {
        BridgeSubsystemVendorId {
            reserved: le_u16(bytes, 0),
            subsystem_vendor_id: le_u16(bytes, 2),
            subsystem_id: le_u16(bytes, 4),
        }
    }

    /// The capability that `bytes` (the data after the capability header) holds.
    pub open spec fn spec_parse(bytes: Seq<u8>) -> Result<Self, CapabilityDataError> {
        if bytes.len() < 6 {
            Err(CapabilityDataError { name: "Bridge Subsystem Vendor ID", size: 6 })
        } else {
            Ok(Self::spec_from_bytes(bytes))
        }
    }

    fn from_bytes(bytes: &[u8]) -> (r: Self)
        requires
            bytes@.len() >= 6,
        ensures
            r == Self::spec_from_bytes(bytes@),
    {
        BridgeSubsystemVendorId {
            reserved: read_u16(bytes, 0),
            subsystem_vendor_id: read_u16(bytes, 2),
            subsystem_id: read_u16(bytes, 4),
        }
    }
}

impl vstd::std_specs::convert::FromSpecImpl<[u8; 6]> for BridgeSubsystemVendorId {
    open spec fn obeys_from_spec() -> bool {
        true
    }

    open spec fn from_spec(bytes: [u8; 6]) -> Self {
        Self::spec_from_bytes(bytes@)
    }
}

impl From<[u8; 6]> for BridgeSubsystemVendorId {
    fn from(bytes: [u8; 6]) -> (r: Self) {
        Self::from_bytes(bytes.as_slice())
    }
}

impl vstd::std_specs::convert::TryFromSpecImpl<&[u8]> for BridgeSubsystemVendorId {
    open spec fn obeys_try_from_spec() -> bool {
        true
    }

    open spec fn try_from_spec(slice: &[u8]) -> Result<Self, Self::Error> {
        Self::spec_parse(slice@)
    }
}

impl TryFrom<&[u8]> for BridgeSubsystemVendorId {
    type Error = CapabilityDataError;

    fn try_from(slice: &[u8]) -> (r: Result<Self, Self::Error>) {
        if slice.len() < 6 {
            return Err(CapabilityDataError { name: "Bridge Subsystem Vendor ID", size: 6 });
        }
        Ok(Self::from_bytes(slice))
    }
}

} // verus!
