//! Vital Product Data (VPD) capability.
use vstd::prelude::*;
use crate::bits::{field, flag, get_flag, get_u16, le_u16, le_u32, read_u16, read_u32};
use super::CapabilityDataError;

verus! {

broadcast use crate::bits::lemma_field_le_mask;

/// Vital Product Data capability
#[derive(Debug, Clone, PartialEq, Eq)]
pub struct VitalProductData {
    /// DWORD-aligned byte address of the VPD to be accessed
    pub vpd_address: u16,
    /// Indicates when the transfer of data between the VPD Data register and the storage
    /// component is completed
    pub transfer_completed: bool,
    /// VPD Data
    pub vpd_data: u32,
}

impl VitalProductData {
    /// The capability that `bytes` (the data after the capability header) holds.
    pub open spec fn spec_parse(bytes: Seq<u8>) -> Result<Self, CapabilityDataError> {
        if bytes.len() < 6 {
            Err(CapabilityDataError { name: "Vital Product Data", size: 6 })
        } else {
            let word = le_u16(bytes, 0);
            Ok(VitalProductData {
                vpd_address: field(word as u32, 0, 0x7fff) as u16,
                transfer_completed: flag(word as u32, 15),
                vpd_data: le_u32(bytes, 2),
            })
        }
    }
}

impl vstd::std_specs::convert::TryFromSpecImpl<&[u8]> for VitalProductData {
    open spec fn obeys_try_from_spec() -> bool {
        true
    }

    open spec fn try_from_spec(slice: &[u8]) -> Result<Self, Self::Error> {
        Self::spec_parse(slice@)
    }
}

impl TryFrom<&[u8]> for VitalProductData {
    type Error = CapabilityDataError;

    fn try_from(slice: &[u8]) -> (r: Result<Self, Self::Error>) {
        if slice.len() < 6 {
            return Err(CapabilityDataError { name: "Vital Product Data", size: 6 });
        }
        let word = read_u16(slice, 0) as u32;
        Ok(VitalProductData {
            vpd_address: get_u16(word, 0, 0x7fff),
            transfer_completed: get_flag(word, 15),
            vpd_data: read_u32(slice, 2),
        })
    }
}

} // verus!
