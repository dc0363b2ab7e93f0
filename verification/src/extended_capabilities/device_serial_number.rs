//! Device Serial Number extended capability.
use vstd::prelude::*;
use crate::bits::{le_u32, read_u32};
use super::ExtendedCapabilityDataError;

verus! {

/// The IEEE defined 64-bit extended unique identifier (EUI-64) of the device
#[derive(Debug, Clone, PartialEq, Eq)]
pub struct DeviceSerialNumber {
    /// First double word of the serial number
    pub lower_dword: u32,
    /// Second double word of the serial number
    pub upper_dword: u32,
}

impl DeviceSerialNumber {
    /// The capability that `bytes` (the data after the extended capability header) holds.
    pub open spec fn spec_parse(bytes: Seq<u8>) -> Result<Self, ExtendedCapabilityDataError> {
        if bytes.len() < 8 {
            Err(ExtendedCapabilityDataError { name: "Device Serial Number", size: 8 })
        } else {
            Ok(DeviceSerialNumber { lower_dword: le_u32(bytes, 0), upper_dword: le_u32(bytes, 4) })
        }
    }
}

impl vstd::std_specs::convert::TryFromSpecImpl<&[u8]> for DeviceSerialNumber {
    open spec fn obeys_try_from_spec() -> bool {
        true
    }

    open spec fn try_from_spec(slice: &[u8]) -> Result<Self, Self::Error> {
        Self::spec_parse(slice@)
    }
}

impl TryFrom<&[u8]> for DeviceSerialNumber {
    type Error = ExtendedCapabilityDataError;

    fn try_from(slice: &[u8]) -> (r: Result<Self, Self::Error>) {
        if slice.len() < 8 {
            return Err(ExtendedCapabilityDataError { name: "Device Serial Number", size: 8 });
        }
        Ok(DeviceSerialNumber { lower_dword: read_u32(slice, 0), upper_dword: read_u32(slice, 4) })
    }
}

} // verus!
