//! Multicast extended capability.
//!
//! The capability is read from data that starts with its extended capability header.
use vstd::prelude::*;
use crate::bits::{field, field64, flag, get_bits64, get_flag, get_u8, le_u16, le_u32, le_u64, qword_of, read_u16, read_u32, read_u64};
use super::ExtendedCapabilityDataError;

verus! {

broadcast use crate::bits::lemma_field_le_mask;

/// Multicast capability
#[derive(Debug, Clone, PartialEq, Eq)]
pub struct Multicast {
    pub multicast_capability: MulticastCapability,
    pub multicast_control: MulticastControl,
    pub mc_base_address: McBaseAddress,
    /// The Multicast groups whose TLPs the Function accepts, or a Port forwards
    pub mc_receive: u64,
    /// The Multicast groups whose TLPs the Function blocks
    pub mc_block_all: u64,
    /// The Multicast groups whose TLPs with an Untranslated Address are blocked
    pub mc_block_untranslated: u64,
    pub mc_overlay_bar: Option<McOverlayBar>,
}

impl Multicast {
    /// Size of the capability in bytes
    pub const SIZE: usize = 0x30;

    /// The capability that `bytes` (data that starts with the extended capability header)
    /// holds: the registers up to MC_Block_Untranslated are needed, the MC_Overlay_BAR is read
    /// where the data holds it.
    pub open spec fn spec_parse(bytes: Seq<u8>) -> Result<Self, ExtendedCapabilityDataError> {
        if bytes.len() < 40 {
            Err(ExtendedCapabilityDataError { name: "Multicast", size: 0x30 })
        } else {
            Ok(Multicast {
                multicast_capability: MulticastCapability::spec_from(le_u16(bytes, 4)),
                multicast_control: MulticastControl::spec_from(le_u16(bytes, 6)),
                mc_base_address: McBaseAddress::spec_from(le_u64(bytes, 8)),
                mc_receive: le_u64(bytes, 16),
                mc_block_all: le_u64(bytes, 24),
                mc_block_untranslated: le_u64(bytes, 32),
                mc_overlay_bar: if bytes.len() >= 48 {
                    Some(McOverlayBar::spec_from(le_u64(bytes, 40)))
                } else {
                    None
                },
            })
        }
    }
}

impl vstd::std_specs::convert::TryFromSpecImpl<&[u8]> for Multicast {
    open spec fn obeys_try_from_spec() -> bool {
        true
    }

    open spec fn try_from_spec(slice: &[u8]) -> Result<Self, Self::Error> {
        Self::spec_parse(slice@)
    }
}

impl TryFrom<&[u8]> for Multicast {
    type Error = ExtendedCapabilityDataError;

    fn try_from(slice: &[u8]) -> (r: Result<Self, Self::Error>) {
        if slice.len() < 40 {
            return Err(ExtendedCapabilityDataError { name: "Multicast", size: Self::SIZE });
        }
        let mc_overlay_bar = if slice.len() >= 48 {
            Some(McOverlayBar::from(read_u64(slice, 40)))
        } else {
            None
        };
        Ok(Multicast {
            multicast_capability: MulticastCapability::from(read_u16(slice, 4)),
            multicast_control: MulticastControl::from(read_u16(slice, 6)),
            mc_base_address: McBaseAddress::from(read_u64(slice, 8)),
            mc_receive: read_u64(slice, 16),
            mc_block_all: read_u64(slice, 24),
            mc_block_untranslated: read_u64(slice, 32),
            mc_overlay_bar,
        })
    }
}

/// Multicast Capability register
#[derive(Debug, Clone, PartialEq, Eq)]
pub struct MulticastCapability {
    /// Number of Multicast Groups that the component supports, minus 1
    pub mc_max_group: u8,
    /// Multicast Window size that an Endpoint requests
    pub mc_window_size_requested: u8,
    /// ECRC regeneration is supported
    pub mc_ecrc_regeneration_supported: bool,
}

impl MulticastCapability {
    /// The fields of the register value `word`.
    pub open spec fn spec_from(word: u16) -> Self {
        MulticastCapability {
            mc_max_group: field(word as u32, 0, 0x3f) as u8,
            mc_window_size_requested: field(word as u32, 8, 0x3f) as u8,
            mc_ecrc_regeneration_supported: flag(word as u32, 15),
        }
    }
}

impl vstd::std_specs::convert::FromSpecImpl<u16> for MulticastCapability {
    open spec fn obeys_from_spec() -> bool {
        true
    }

    open spec fn from_spec(word: u16) -> Self {
        Self::spec_from(word)
    }
}

impl From<u16> for MulticastCapability {
    fn from(word: u16) -> (r: Self) {
        let w = word as u32;
        MulticastCapability {
            mc_max_group: get_u8(w, 0, 0x3f),
            mc_window_size_requested: get_u8(w, 8, 0x3f),
            mc_ecrc_regeneration_supported: get_flag(w, 15),
        }
    }
}

/// Multicast Control register
#[derive(Debug, Clone, PartialEq, Eq)]
pub struct MulticastControl {
    /// Number of Multicast Groups configured for use, minus 1
    pub mc_num_group: u8,
    /// The Multicast mechanism is enabled
    pub mc_enable: bool,
}

impl MulticastControl {
    /// The fields of the register value `word`.
    pub open spec fn spec_from(word: u16) -> Self {
        MulticastControl {
            mc_num_group: field(word as u32, 0, 0x3f) as u8,
            mc_enable: flag(word as u32, 15),
        }
    }
}

impl vstd::std_specs::convert::FromSpecImpl<u16> for MulticastControl {
    open spec fn obeys_from_spec() -> bool {
        true
    }

    open spec fn from_spec(word: u16) -> Self {
        Self::spec_from(word)
    }
}

impl From<u16> for MulticastControl {
    fn from(word: u16) -> (r: Self) {
        let w = word as u32;
        MulticastControl {
            mc_num_group: get_u8(w, 0, 0x3f),
            mc_enable: get_flag(w, 15),
        }
    }
}

/// MC_Base_Address register
#[derive(Debug, Clone, PartialEq, Eq)]
pub struct McBaseAddress {
    /// Position of the least significant bit of the Multicast Group number in the address
    pub mc_index_position: u8,
    /// Base address of the Multicast address range
    pub mc_base_address: u64,
}

impl McBaseAddress {
    /// The fields of the register value `qword`: the base address is its bits 12 to 63.
    pub open spec fn spec_from(qword: u64) -> Self {
        McBaseAddress {
            mc_index_position: field64(qword, 0, 0x3f) as u8,
            mc_base_address: field64(qword, 12, 0xf_ffff_ffff_ffff) << 12u64,
        }
    }
}

impl vstd::std_specs::convert::FromSpecImpl<u64> for McBaseAddress {
    open spec fn obeys_from_spec() -> bool {
        true
    }

    open spec fn from_spec(qword: u64) -> Self {
        Self::spec_from(qword)
    }
}

impl From<u64> for McBaseAddress {
    fn from(qword: u64) -> (r: Self) {
        let index = get_bits64(qword, 0, 0x3f);
        assert(index <= 0x3f) by (bit_vector)
            requires
                index == (qword >> 0u64) & 0x3f,
        ;
        McBaseAddress {
            mc_index_position: index as u8,
            mc_base_address: get_bits64(qword, 12, 0xf_ffff_ffff_ffff) << 12u64,
        }
    }
}

/// MC_Overlay_BAR register, of Switch and Root Complex Ports
#[derive(Debug, Clone, PartialEq, Eq)]
pub struct McOverlayBar {
    pub mc_overlay_size: u8,
    pub mc_overlay_bar: u64,
}

impl McOverlayBar {
    /// The fields of the register value `qword`: the BAR is its bits 6 to 63.
    pub open spec fn spec_from(qword: u64) -> Self {
        McOverlayBar {
            mc_overlay_size: field64(qword, 0, 0x3f) as u8,
            mc_overlay_bar: field64(qword, 6, 0x3ff_ffff_ffff_ffff) << 6u64,
        }
    }
}

impl vstd::std_specs::convert::FromSpecImpl<u64> for McOverlayBar {
    open spec fn obeys_from_spec() -> bool {
        true
    }

    open spec fn from_spec(qword: u64) -> Self {
        Self::spec_from(qword)
    }
}

impl From<u64> for McOverlayBar {
    fn from(qword: u64) -> (r: Self) {
        let size = get_bits64(qword, 0, 0x3f);
        assert(size <= 0x3f) by (bit_vector)
            requires
                size == (qword >> 0u64) & 0x3f,
        ;
        McOverlayBar {
            mc_overlay_size: size as u8,
            mc_overlay_bar: get_bits64(qword, 6, 0x3ff_ffff_ffff_ffff) << 6u64,
        }
    }
}

} // verus!
