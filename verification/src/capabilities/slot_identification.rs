//! Slot Identification capability.
use vstd::prelude::*;
use crate::bits::{field, flag, get_flag, get_u8};
use super::CapabilityDataError;

verus! {

broadcast use crate::bits::lemma_field_le_mask;

/// Slot Identification capability
#[derive(Debug, Clone, PartialEq, Eq)]
pub struct SlotIdentification {
    pub expansion_slot: ExpansionSlot,
    /// Chassis Number
    pub chassis_number: u8,
}

impl SlotIdentification {
    /// The capability that `bytes` (the data after the capability header) holds.
    pub open spec fn spec_parse(bytes: Seq<u8>) -> Result<Self, CapabilityDataError> {
        if bytes.len() < 2 {
            Err(CapabilityDataError { name: "Slot Identification", size: 2 })
        } else {
            Ok(SlotIdentification {
                expansion_slot: ExpansionSlot::spec_from(bytes[0]),
                chassis_number: bytes[1],
            })
        }
    }
}

impl vstd::std_specs::convert::TryFromSpecImpl<&[u8]> for SlotIdentification {
    open spec fn obeys_try_from_spec() -> bool {
        true
    }

    open spec fn try_from_spec(slice: &[u8]) -> Result<Self, Self::Error> {
        Self::spec_parse(slice@)
    }
}

impl TryFrom<&[u8]> for SlotIdentification {
    type Error = CapabilityDataError;

    fn try_from(slice: &[u8]) -> (r: Result<Self, Self::Error>) {
        if slice.len() < 2 {
            return Err(CapabilityDataError { name: "Slot Identification", size: 2 });
        }
        Ok(SlotIdentification {
            expansion_slot: ExpansionSlot::from(slice[0]),
            chassis_number: slice[1],
        })
    }
}

/// Expansion Slot register
#[derive(Debug, Clone, PartialEq, Eq)]
pub struct ExpansionSlot {
    /// Number of PCI expansion slots located directly on the secondary interface of this bridge
    pub expansion_slots_provided: u8,
    /// This bridge is the first in an expansion chassis
    pub first_in_chassis: bool,
}

impl ExpansionSlot {
    /// The fields of the register value `byte`.
    pub open spec fn spec_from(byte: u8) -> Self {
        ExpansionSlot {
            expansion_slots_provided: field(byte as u32, 0, 0x1f) as u8,
            first_in_chassis: flag(byte as u32, 5),
        }
    }
}

impl vstd::std_specs::convert::FromSpecImpl<u8> for ExpansionSlot {
    open spec fn obeys_from_spec() -> bool {
        true
    }

    open spec fn from_spec(byte: u8) -> Self {
        Self::spec_from(byte)
    }
}

impl From<u8> for ExpansionSlot {
    fn from(byte: u8) -> (r: Self) {
        let w = byte as u32;
        ExpansionSlot {
            expansion_slots_provided: get_u8(w, 0, 0x1f),
            first_in_chassis: get_flag(w, 5),
        }
    }
}

} // verus!
