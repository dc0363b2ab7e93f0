//! Process Address Space ID (PASID) extended capability.
use vstd::prelude::*;
use crate::bits::{field, flag, get_flag, get_u8, le_u16, read_u16};
use super::ExtendedCapabilityDataError;

verus! {

broadcast use crate::bits::lemma_field_le_mask;

/// Process Address Space ID capability
#[derive(Debug, Clone, PartialEq, Eq)]
pub struct ProcessAddressSpaceId {
    pub pacid_capability: PacidCapability,
    pub pacid_control: PacidControl,
}

impl ProcessAddressSpaceId {
    /// The capability that `bytes` (the data after the extended capability header) holds.
    pub open spec fn spec_parse(bytes: Seq<u8>) -> Result<Self, ExtendedCapabilityDataError> {
        if bytes.len() < 4 {
            Err(ExtendedCapabilityDataError { name: "Process Address Space ID", size: 4 })
        } else {
            Ok(ProcessAddressSpaceId {
                pacid_capability: PacidCapability::spec_from(le_u16(bytes, 0)),
                pacid_control: PacidControl::spec_from(le_u16(bytes, 2)),
            })
        }
    }
}

impl vstd::std_specs::convert::TryFromSpecImpl<&[u8]> for ProcessAddressSpaceId {
    open spec fn obeys_try_from_spec() -> bool {
        true
    }

    open spec fn try_from_spec(slice: &[u8]) -> Result<Self, Self::Error> {
        Self::spec_parse(slice@)
    }
}

impl TryFrom<&[u8]> for ProcessAddressSpaceId {
    type Error = ExtendedCapabilityDataError;

    fn try_from(slice: &[u8]) -> (r: Result<Self, Self::Error>) {
        if slice.len() < 4 {
            return Err(ExtendedCapabilityDataError { name: "Process Address Space ID", size: 4 });
        }
        Ok(ProcessAddressSpaceId {
            pacid_capability: PacidCapability::from(read_u16(slice, 0)),
            pacid_control: PacidControl::from(read_u16(slice, 2)),
        })
    }
}

/// PASID Capability register
#[derive(Debug, Clone, PartialEq, Eq)]
pub struct PacidCapability {
    /// Execute Permission Supported
    pub execute_permission_supported: bool,
    /// Privileged Mode Supported
    pub privileged_mode_supported: bool,
    /// Max PASID Width
    pub max_pasid_width: u8,
}

impl PacidCapability {
    /// The fields of the register value `word`.
    pub open spec fn spec_from(word: u16) -> Self {
        PacidCapability {
            execute_permission_supported: flag(word as u32, 1),
            privileged_mode_supported: flag(word as u32, 2),
            max_pasid_width: field(word as u32, 8, 0x1f) as u8,
        }
    }
}

impl vstd::std_specs::convert::FromSpecImpl<u16> for PacidCapability {
    open spec fn obeys_from_spec() -> bool {
        true
    }

    open spec fn from_spec(word: u16) -> Self {
        Self::spec_from(word)
    }
}

impl From<u16> for PacidCapability {
    fn from(word: u16) -> (r: Self) {
        let w = word as u32;
        PacidCapability {
            execute_permission_supported: get_flag(w, 1),
            privileged_mode_supported: get_flag(w, 2),
            max_pasid_width: get_u8(w, 8, 0x1f),
        }
    }
}

/// PASID Control register
#[derive(Debug, Clone, PartialEq, Eq)]
pub struct PacidControl {
    /// PASID Enable
    pub pasid_enable: bool,
    /// Execute Permission Enable
    pub execute_permission_enable: bool,
    /// Privileged Mode Enable
    pub privileged_mode_enable: bool,
}

impl PacidControl {
    /// The fields of the register value `word`.
    pub open spec fn spec_from(word: u16) -> Self {
        PacidControl {
            pasid_enable: flag(word as u32, 0),
            execute_permission_enable: flag(word as u32, 1),
            privileged_mode_enable: flag(word as u32, 2),
        }
    }
}

impl vstd::std_specs::convert::FromSpecImpl<u16> for PacidControl {
    open spec fn obeys_from_spec() -> bool {
        true
    }

    open spec fn from_spec(word: u16) -> Self {
        Self::spec_from(word)
    }
}

impl From<u16> for PacidControl {
    fn from(word: u16) -> (r: Self) {
        let w = word as u32;
        PacidControl {
            pasid_enable: get_flag(w, 0),
            execute_permission_enable: get_flag(w, 1),
            privileged_mode_enable: get_flag(w, 2),
        }
    }
}

} // verus!
