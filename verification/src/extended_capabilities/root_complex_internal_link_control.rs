//! Root Complex Internal Link Control extended capability.
use vstd::prelude::*;
use crate::bits::{field, flag, get_flag, get_u8, le_u16, le_u32, read_u16, read_u32};
use crate::capabilities::pci_express::{
    ActiveStatePowerManagement, L0sExitLatency, L1ExitLatency, LinkSpeed, LinkWidth,
    SupportedLinkSpeedsVector,
};
use super::ExtendedCapabilityDataError;

verus! {

broadcast use crate::bits::lemma_field_le_mask;

/// Root Complex Internal Link Control capability
#[derive(Debug, Clone, PartialEq, Eq)]
pub struct RootComplexInternalLinkControl {
    /// Root Complex Link Capabilities
    pub root_complex_link_capabilities: RootComplexLinkCapabilities,
    /// Root Complex Link Control
    pub root_complex_link_control: RootComplexLinkControl,
    /// Root Complex Link Status
    pub root_complex_link_status: RootComplexLinkStatus,
}

impl RootComplexInternalLinkControl {
    /// Size of the registers in bytes
    pub const SIZE: usize = 4 + 2 + 2;

    /// The capability that `bytes` (at least 8 bytes after the extended capability header)
    /// holds.
    pub open spec fn spec_from_bytes(bytes: Seq<u8>) -> Self {
        RootComplexInternalLinkControl {
            root_complex_link_capabilities: RootComplexLinkCapabilities::spec_from(le_u32(bytes, 0)),
            root_complex_link_control: RootComplexLinkControl::spec_from(le_u16(bytes, 4)),
            root_complex_link_status: RootComplexLinkStatus::spec_from(le_u16(bytes, 6)),
        }
    }

    /// The capability that `bytes` (the data after the extended capability header) holds.
    pub open spec fn spec_parse(bytes: Seq<u8>) -> Result<Self, ExtendedCapabilityDataError> {
        if bytes.len() < 8 {
            Err(ExtendedCapabilityDataError { name: "Root Complex Internal Link Control", size: 8 })
        } else {
            Ok(Self::spec_from_bytes(bytes))
        }
    }

    fn read(slice: &[u8]) -> (r: Self)
        requires
            slice.len() >= 8,
        ensures
            r == Self::spec_from_bytes(slice@),
    {
        RootComplexInternalLinkControl {
            root_complex_link_capabilities: RootComplexLinkCapabilities::from(read_u32(slice, 0)),
            root_complex_link_control: RootComplexLinkControl::from(read_u16(slice, 4)),
            root_complex_link_status: RootComplexLinkStatus::from(read_u16(slice, 6)),
        }
    }
}

impl vstd::std_specs::convert::FromSpecImpl<[u8; 8]> for RootComplexInternalLinkControl {
    open spec fn obeys_from_spec() -> bool {
        true
    }

    open spec fn from_spec(bytes: [u8; 8]) -> Self {
        Self::spec_from_bytes(bytes@)
    }
}

impl From<[u8; 8]> for RootComplexInternalLinkControl {
    fn from(bytes: [u8; 8]) -> (r: Self) {
        Self::read(bytes.as_slice())
    }
}

impl vstd::std_specs::convert::TryFromSpecImpl<&[u8]> for RootComplexInternalLinkControl {
    open spec fn obeys_try_from_spec() -> bool {
        true
    }

    open spec fn try_from_spec(slice: &[u8]) -> Result<Self, Self::Error> {
        Self::spec_parse(slice@)
    }
}

impl TryFrom<&[u8]> for RootComplexInternalLinkControl {
    type Error = ExtendedCapabilityDataError;

    fn try_from(slice: &[u8]) -> (r: Result<Self, Self::Error>) {
        if slice.len() < Self::SIZE {
            return Err(
                ExtendedCapabilityDataError { name: "Root Complex Internal Link Control", size: Self::SIZE },
            );
        }
        Ok(Self::read(slice))
    }
}

/// Root Complex Link Capabilities register
#[derive(Debug, Clone, PartialEq, Eq)]
pub struct RootComplexLinkCapabilities {
    /// Max Link Speed
    pub max_link_speed: LinkSpeed,
    /// Maximum Link Width
    pub maximum_link_width: LinkWidth,
    /// ASPM Support
    pub active_state_power_management_support: ActiveStatePowerManagement,
    /// L0s Exit Latency
    pub l0s_exit_latency: L0sExitLatency,
    /// L1 Exit Latency
    pub l1_exit_latency: L1ExitLatency,
    /// Supported Link Speeds Vector
    pub supported_link_speeds_vector: SupportedLinkSpeedsVector,
}

impl RootComplexLinkCapabilities {
    /// The fields of the register value `dword`.
    pub open spec fn spec_from(dword: u32) -> Self {
        RootComplexLinkCapabilities {
            max_link_speed: LinkSpeed::spec_from(field(dword, 0, 0xf) as u8),
            maximum_link_width: LinkWidth::spec_from(field(dword, 4, 0x3f) as u8),
            active_state_power_management_support: ActiveStatePowerManagement::spec_from_bits(field(dword, 10, 0x3) as u8),
            l0s_exit_latency: L0sExitLatency::spec_from_bits(field(dword, 12, 0x7) as u8),
            l1_exit_latency: L1ExitLatency::spec_from_bits(field(dword, 15, 0x7) as u8),
            supported_link_speeds_vector: SupportedLinkSpeedsVector::spec_from(field(dword, 18, 0x7f) as u8),
        }
    }
}

impl vstd::std_specs::convert::FromSpecImpl<u32> for RootComplexLinkCapabilities {
    open spec fn obeys_from_spec() -> bool {
        true
    }

    open spec fn from_spec(dword: u32) -> Self {
        Self::spec_from(dword)
    }
}

impl From<u32> for RootComplexLinkCapabilities {
    fn from(dword: u32) -> (r: Self) {
        RootComplexLinkCapabilities {
            max_link_speed: LinkSpeed::from(get_u8(dword, 0, 0xf)),
            maximum_link_width: LinkWidth::from(get_u8(dword, 4, 0x3f)),
            active_state_power_management_support: ActiveStatePowerManagement::from_bits(get_u8(dword, 10, 0x3)),
            l0s_exit_latency: L0sExitLatency::from_bits(get_u8(dword, 12, 0x7)),
            l1_exit_latency: L1ExitLatency::from_bits(get_u8(dword, 15, 0x7)),
            supported_link_speeds_vector: SupportedLinkSpeedsVector::from(get_u8(dword, 18, 0x7f)),
        }
    }
}

/// Root Complex Link Control register
#[derive(Debug, Clone, PartialEq, Eq)]
pub struct RootComplexLinkControl {
    /// ASPM Control
    pub active_state_power_management_control: ActiveStatePowerManagement,
    /// Extended Synch: more Ordered Sets are sent on exit from L0s and in Recovery
    pub extended_synch: bool,
}

impl RootComplexLinkControl {
    /// The fields of the register value `word`.
    pub open spec fn spec_from(word: u16) -> Self {
        RootComplexLinkControl {
            active_state_power_management_control: ActiveStatePowerManagement::spec_from_bits(field(word as u32, 0, 0x3) as u8),
            extended_synch: flag(word as u32, 7),
        }
    }
}

impl vstd::std_specs::convert::FromSpecImpl<u16> for RootComplexLinkControl {
    open spec fn obeys_from_spec() -> bool {
        true
    }

    open spec fn from_spec(word: u16) -> Self {
        Self::spec_from(word)
    }
}

impl From<u16> for RootComplexLinkControl {
    fn from(word: u16) -> (r: Self) {
        let w = word as u32;
        RootComplexLinkControl {
            active_state_power_management_control: ActiveStatePowerManagement::from_bits(get_u8(w, 0, 0x3)),
            extended_synch: get_flag(w, 7),
        }
    }
}

/// Root Complex Link Status register
#[derive(Debug, Clone, PartialEq, Eq)]
pub struct RootComplexLinkStatus {
    /// Current Link Speed
    pub current_link_speed: LinkSpeed,
    /// Negotiated Link Width
    pub negotiated_link_width: LinkWidth,
}

impl RootComplexLinkStatus {
    /// The fields of the register value `word`.
    pub open spec fn spec_from(word: u16) -> Self {
        RootComplexLinkStatus {
            current_link_speed: LinkSpeed::spec_from(field(word as u32, 0, 0xf) as u8),
            negotiated_link_width: LinkWidth::spec_from(field(word as u32, 4, 0x3f) as u8),
        }
    }
}

impl vstd::std_specs::convert::FromSpecImpl<u16> for RootComplexLinkStatus {
    open spec fn obeys_from_spec() -> bool {
        true
    }

    open spec fn from_spec(word: u16) -> Self {
        Self::spec_from(word)
    }
}

impl From<u16> for RootComplexLinkStatus {
    fn from(word: u16) -> (r: Self) {
        let w = word as u32;
        RootComplexLinkStatus {
            current_link_speed: LinkSpeed::from(get_u8(w, 0, 0xf)),
            negotiated_link_width: LinkWidth::from(get_u8(w, 4, 0x3f)),
        }
    }
}

} // verus!
