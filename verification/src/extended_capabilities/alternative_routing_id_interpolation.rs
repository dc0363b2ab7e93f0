//! Alternative Routing-ID Interpretation (ARI) extended capability.
use vstd::prelude::*;
use crate::bits::{field, flag, get_flag, get_u8, le_u16, read_u16};
use super::ExtendedCapabilityDataError;

verus! {

broadcast use crate::bits::lemma_field_le_mask;

/// Alternative Routing-ID Interpretation capability
#[derive(Debug, Clone, PartialEq, Eq)]
pub struct AlternativeRoutingIdInterpretation {
    pub ari_capability: AriCapability,
    pub ari_control: AriControl,
}

impl AlternativeRoutingIdInterpretation {
    /// The capability that `bytes` (the data after the extended capability header) holds.
    pub open spec fn spec_parse(bytes: Seq<u8>) -> Result<Self, ExtendedCapabilityDataError> {
        if bytes.len() < 4 {
            Err(ExtendedCapabilityDataError { name: "Alternative Routing-ID Interpretation", size: 4 })
        } else {
            Ok(AlternativeRoutingIdInterpretation {
                ari_capability: AriCapability::spec_from(le_u16(bytes, 0)),
                ari_control: AriControl::spec_from(le_u16(bytes, 2)),
            })
        }
    }
}

impl vstd::std_specs::convert::TryFromSpecImpl<&[u8]> for AlternativeRoutingIdInterpretation {
    open spec fn obeys_try_from_spec() -> bool {
        true
    }

    open spec fn try_from_spec(slice: &[u8]) -> Result<Self, Self::Error> {
        Self::spec_parse(slice@)
    }
}

impl TryFrom<&[u8]> for AlternativeRoutingIdInterpretation {
    type Error = ExtendedCapabilityDataError;

    fn try_from(slice: &[u8]) -> (r: Result<Self, Self::Error>) {
        if slice.len() < 4 {
            return Err(ExtendedCapabilityDataError { name: "Alternative Routing-ID Interpretation", size: 4 });
        }
        Ok(AlternativeRoutingIdInterpretation {
            ari_capability: AriCapability::from(read_u16(slice, 0)),
            ari_control: AriControl::from(read_u16(slice, 2)),
        })
    }
}

/// ARI Capability register
#[derive(Debug, Clone, PartialEq, Eq)]
pub struct AriCapability {
    /// MFVC Function Groups Capability (M)
    pub mfvc_function_groups_capability: bool,
    /// ACS Function Groups Capability (A)
    pub acs_function_groups_capability: bool,
    /// Next Function Number
    pub next_function_number: u8,
}

impl AriCapability {
    /// The fields of the register value `word`.
    pub open spec fn spec_from(word: u16) -> Self {
        AriCapability {
            mfvc_function_groups_capability: flag(word as u32, 0),
            acs_function_groups_capability: flag(word as u32, 1),
            next_function_number: field(word as u32, 8, 0xff) as u8,
        }
    }
}

impl vstd::std_specs::convert::FromSpecImpl<u16> for AriCapability {
    open spec fn obeys_from_spec() -> bool {
        true
    }

    open spec fn from_spec(word: u16) -> Self {
        Self::spec_from(word)
    }
}

impl From<u16> for AriCapability {
    fn from(word: u16) -> (r: Self) {
        let w = word as u32;
        AriCapability {
            mfvc_function_groups_capability: get_flag(w, 0),
            acs_function_groups_capability: get_flag(w, 1),
            next_function_number: get_u8(w, 8, 0xff),
        }
    }
}

/// ARI Control register
#[derive(Debug, Clone, PartialEq, Eq)]
pub struct AriControl {
    /// MFVC Function Groups Enable (M)
    pub mfvc_function_groups_enable: bool,
    /// ACS Function Groups Enable (A)
    pub acs_function_groups_enable: bool,
    /// Function Group
    pub function_group: u8,
}

impl AriControl {
    /// The fields of the register value `word`.
    pub open spec fn spec_from(word: u16) -> Self {
        AriControl {
            mfvc_function_groups_enable: flag(word as u32, 0),
            acs_function_groups_enable: flag(word as u32, 1),
            function_group: field(word as u32, 4, 0x7) as u8,
        }
    }
}

impl vstd::std_specs::convert::FromSpecImpl<u16> for AriControl {
    open spec fn obeys_from_spec() -> bool {
        true
    }

    open spec fn from_spec(word: u16) -> Self {
        Self::spec_from(word)
    }
}

impl From<u16> for AriControl {
    fn from(word: u16) -> (r: Self) {
        let w = word as u32;
        AriControl {
            mfvc_function_groups_enable: get_flag(w, 0),
            acs_function_groups_enable: get_flag(w, 1),
            function_group: get_u8(w, 4, 0x7),
        }
    }
}

} // verus!
