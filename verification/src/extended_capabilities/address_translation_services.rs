//! Address Translation Services (ATS) extended capability.
use vstd::prelude::*;
use crate::bits::{field, flag, get_flag, get_u8, le_u16, read_u16};
use super::ExtendedCapabilityDataError;

verus! {

broadcast use crate::bits::lemma_field_le_mask;

/// Address Translation Services capability
#[derive(Debug, Clone, PartialEq, Eq)]
pub struct AddressTranslationServices {
    /// ATS Capability
    pub ats_capability: AtsCapability,
    /// ATS Control
    pub ats_control: AtsControl,
}

impl AddressTranslationServices {
    /// The capability that `bytes` (the data after the extended capability header) holds.
    pub open spec fn spec_parse(bytes: Seq<u8>) -> Result<Self, ExtendedCapabilityDataError> {
        if bytes.len() < 4 {
            Err(ExtendedCapabilityDataError { name: "Address Translation Services", size: 4 })
        } else {
            Ok(AddressTranslationServices {
                ats_capability: AtsCapability::spec_from(le_u16(bytes, 0)),
                ats_control: AtsControl::spec_from(le_u16(bytes, 2)),
            })
        }
    }
}

impl vstd::std_specs::convert::TryFromSpecImpl<&[u8]> for AddressTranslationServices {
    open spec fn obeys_try_from_spec() -> bool {
        true
    }

    open spec fn try_from_spec(slice: &[u8]) -> Result<Self, Self::Error> {
        Self::spec_parse(slice@)
    }
}

impl TryFrom<&[u8]> for AddressTranslationServices {
    type Error = ExtendedCapabilityDataError;

    fn try_from(slice: &[u8]) -> (r: Result<Self, Self::Error>) {
        if slice.len() < 4 {
            return Err(ExtendedCapabilityDataError { name: "Address Translation Services", size: 4 });
        }
        Ok(AddressTranslationServices {
            ats_capability: AtsCapability::from(read_u16(slice, 0)),
            ats_control: AtsControl::from(read_u16(slice, 2)),
        })
    }
}

/// ATS Capability register
#[derive(Debug, Clone, PartialEq, Eq)]
pub struct AtsCapability {
    /// Invalidate Queue Depth
    pub invalidate_queue_depth: u8,
    /// Page Aligned Request
    pub page_aligned_request: bool,
    /// Global Invalidate Supported
    pub global_invalidate_supported: bool,
}

impl AtsCapability {
    /// The fields of the register value `word`.
    pub open spec fn spec_from(word: u16) -> Self {
        AtsCapability {
            invalidate_queue_depth: field(word as u32, 0, 0x1f) as u8,
            page_aligned_request: flag(word as u32, 5),
            global_invalidate_supported: flag(word as u32, 6),
        }
    }
}

impl vstd::std_specs::convert::FromSpecImpl<u16> for AtsCapability {
    open spec fn obeys_from_spec() -> bool {
        true
    }

    open spec fn from_spec(word: u16) -> Self {
        Self::spec_from(word)
    }
}

impl From<u16> for AtsCapability {
    fn from(word: u16) -> (r: Self) {
        let w = word as u32;
        AtsCapability {
            invalidate_queue_depth: get_u8(w, 0, 0x1f),
            page_aligned_request: get_flag(w, 5),
            global_invalidate_supported: get_flag(w, 6),
        }
    }
}

/// ATS Control register
#[derive(Debug, Clone, PartialEq, Eq)]
pub struct AtsControl {
    /// Smallest Translation Unit (STU)
    pub smallest_translation_unit: u8,
    /// Enable (E)
    pub enable: bool,
}

impl AtsControl {
    /// The fields of the register value `word`.
    pub open spec fn spec_from(word: u16) -> Self {
        AtsControl {
            smallest_translation_unit: field(word as u32, 0, 0x1f) as u8,
            enable: flag(word as u32, 15),
        }
    }
}

impl vstd::std_specs::convert::FromSpecImpl<u16> for AtsControl {
    open spec fn obeys_from_spec() -> bool {
        true
    }

    open spec fn from_spec(word: u16) -> Self {
        Self::spec_from(word)
    }
}

impl From<u16> for AtsControl {
    fn from(word: u16) -> (r: Self) {
        let w = word as u32;
        AtsControl {
            smallest_translation_unit: get_u8(w, 0, 0x1f),
            enable: get_flag(w, 15),
        }
    }
}

} // verus!
