//! Debug port capability.
use vstd::prelude::*;
use crate::bits::{field, get_u8, get_u16, le_u16, read_u16};
use super::CapabilityDataError;

verus! {

broadcast use crate::bits::lemma_field_le_mask;

/// Debug port capability
#[derive(Debug, Clone, PartialEq, Eq)]
pub struct DebugPort {
    /// Offset of the debug port registers in the BAR
    pub offset: u16,
    /// BAR number of the debug port registers
    pub bar_number: u8,
}

impl DebugPort {
    /// The capability that `bytes` (the data after the capability header) holds.
    pub open spec fn spec_parse(bytes: Seq<u8>) -> Result<Self, CapabilityDataError> {
        if bytes.len() < 2 {
            Err(CapabilityDataError { name: "Debug port", size: 2 })
        } else {
            let word = le_u16(bytes, 0) as u32;
            Ok(DebugPort {
                offset: field(word, 0, 0x1fff) as u16,
                bar_number: field(word, 13, 0x7) as u8,
            })
        }
    }
}

impl vstd::std_specs::convert::TryFromSpecImpl<&[u8]> for DebugPort {
    open spec fn obeys_try_from_spec() -> bool {
        true
    }

    open spec fn try_from_spec(slice: &[u8]) -> Result<Self, Self::Error> {
        Self::spec_parse(slice@)
    }
}

impl TryFrom<&[u8]> for DebugPort {
    type Error = CapabilityDataError;

    fn try_from(slice: &[u8]) -> (r: Result<Self, Self::Error>) {
        if slice.len() < 2 {
            return Err(CapabilityDataError { name: "Debug port", size: 2 });
        }
        let word = read_u16(slice, 0) as u32;
        Ok(DebugPort { offset: get_u16(word, 0, 0x1fff), bar_number: get_u8(word, 13, 0x7) })
    }
}

} // verus!
