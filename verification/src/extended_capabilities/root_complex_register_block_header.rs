//! Root Complex Register Block (RCRB) Header extended capability.
//!
//! The capability is read from data that starts with its extended capability header.
use vstd::prelude::*;
use crate::bits::{flag, get_flag, le_u16, le_u32, read_u16, read_u32};
use super::ExtendedCapabilityDataError;

verus! {

/// RCRB Header capability
#[derive(Debug, Clone, PartialEq, Eq)]
pub struct RootComplexRegisterBlockHeader {
    /// Vendor ID, assigned by the PCI-SIG: associates the RCRB with a vendor
    pub vendor_id: u16,
    /// Device ID, assigned by the vendor: classifies the RCRB
    pub device_id: u16,
    pub rcrb_capabilities: RcrbCapabilities,
    pub rcrb_control: RcrbControl,
}

impl RootComplexRegisterBlockHeader {
    /// Size in bytes, with the extended capability header
    pub const SIZE: usize = 0x14;

    /// The capability that `bytes` (at least 20 bytes from the extended capability header on)
    /// holds.
    pub open spec fn spec_from_bytes(bytes: Seq<u8>) -> Self {
        RootComplexRegisterBlockHeader {
            vendor_id: le_u16(bytes, 4),
            device_id: le_u16(bytes, 6),
            rcrb_capabilities: RcrbCapabilities::spec_from(le_u32(bytes, 8)),
            rcrb_control: RcrbControl::spec_from(le_u32(bytes, 12)),
        }
    }

    /// The capability that `bytes` (data that starts with the extended capability header) holds.
    pub open spec fn spec_parse(bytes: Seq<u8>) -> Result<Self, ExtendedCapabilityDataError> {
        if bytes.len() < 20 {
            Err(ExtendedCapabilityDataError { name: "RCRB Header", size: 0x14 })
        } else {
            Ok(Self::spec_from_bytes(bytes))
        }
    }

    fn read(slice: &[u8]) -> (r: Self)
        requires
            slice.len() >= 20,
        ensures
            r == Self::spec_from_bytes(slice@),
    {
        RootComplexRegisterBlockHeader {
            vendor_id: read_u16(slice, 4),
            device_id: read_u16(slice, 6),
            rcrb_capabilities: RcrbCapabilities::from(read_u32(slice, 8)),
            rcrb_control: RcrbControl::from(read_u32(slice, 12)),
        }
    }
}

impl vstd::std_specs::convert::FromSpecImpl<[u8; 20]> for RootComplexRegisterBlockHeader {
    open spec fn obeys_from_spec() -> bool {
        true
    }

    open spec fn from_spec(bytes: [u8; 20]) -> Self {
        Self::spec_from_bytes(bytes@)
    }
}

impl From<[u8; 20]> for RootComplexRegisterBlockHeader {
    fn from(bytes: [u8; 20]) -> (r: Self) {
        Self::read(bytes.as_slice())
    }
}

impl vstd::std_specs::convert::TryFromSpecImpl<&[u8]> for RootComplexRegisterBlockHeader {
    open spec fn obeys_try_from_spec() -> bool {
        true
    }

    open spec fn try_from_spec(slice: &[u8]) -> Result<Self, Self::Error> {
        Self::spec_parse(slice@)
    }
}

impl TryFrom<&[u8]> for RootComplexRegisterBlockHeader {
    type Error = ExtendedCapabilityDataError;

    fn try_from(slice: &[u8]) -> (r: Result<Self, Self::Error>) {
        if slice.len() < Self::SIZE {
            return Err(ExtendedCapabilityDataError { name: "RCRB Header", size: Self::SIZE });
        }
        Ok(Self::read(slice))
    }
}

/// RCRB Capabilities register
#[derive(Debug, Clone, PartialEq, Eq)]
pub struct RcrbCapabilities {
    /// CRS Software Visibility: the Root Complex can return Configuration Request Retry Status to software
    pub crs_software_visibility: bool,
}

impl RcrbCapabilities {
    /// The fields of the register value `dword`.
    pub open spec fn spec_from(dword: u32) -> Self {
        RcrbCapabilities {
            crs_software_visibility: flag(dword, 0),
        }
    }
}

impl vstd::std_specs::convert::FromSpecImpl<u32> for RcrbCapabilities {
    open spec fn obeys_from_spec() -> bool {
        true
    }

    open spec fn from_spec(dword: u32) -> Self {
        Self::spec_from(dword)
    }
}

impl From<u32> for RcrbCapabilities {
    fn from(dword: u32) -> (r: Self) {
        RcrbCapabilities {
            crs_software_visibility: get_flag(dword, 0),
        }
    }
}

/// RCRB Control register
#[derive(Debug, Clone, PartialEq, Eq)]
pub struct RcrbControl {
    /// CRS Software Visibility Enable
    pub crs_software_visibility_enable: bool,
}

impl RcrbControl {
    /// The fields of the register value `dword`.
    pub open spec fn spec_from(dword: u32) -> Self {
        RcrbControl {
            crs_software_visibility_enable: flag(dword, 0),
        }
    }
}

impl vstd::std_specs::convert::FromSpecImpl<u32> for RcrbControl {
    open spec fn obeys_from_spec() -> bool {
        true
    }

    open spec fn from_spec(dword: u32) -> Self {
        Self::spec_from(dword)
    }
}

impl From<u32> for RcrbControl {
    fn from(dword: u32) -> (r: Self) {
        RcrbControl {
            crs_software_visibility_enable: get_flag(dword, 0),
        }
    }
}

} // verus!
