//! TPH Requester extended capability.
use vstd::prelude::*;
use crate::bits::{field, flag, get_flag, get_u16, get_u8, le_u32, read_u32};
use super::ExtendedCapabilityDataError;

verus! {

broadcast use crate::bits::lemma_field_le_mask;

/// TPH Requester capability
#[derive(Debug, Clone, PartialEq, Eq)]
pub struct TphRequester<'a> {
    /// TPH Requester Capability
    pub tph_requester_capability: TphRequesterCapability<'a>,
    /// TPH Requester Control
    pub tph_requester_control: TphRequesterControl,
}

/// Whether `t` is the ST Table that the ST Table Location `location` and ST Table Size `size`
/// give, where `tail` is the data after the two registers: a table in the capability is
/// valid where it has at most 64 entries and `tail` holds its `2 * size + 2` bytes.
pub open spec fn spec_st_table<'a>(t: StTable<'a>, location: u8, size: u16, tail: Seq<u8>) -> bool {
    if location == 0 {
        t == StTable::NotPresent
    } else if location == 1 {
        if size <= 63 && size * 2 + 2 <= tail.len() {
            t matches StTable::Valid { size: s, data } && s == size && data@ == tail.subrange(
                0,
                size * 2 + 2,
            )
        } else {
            t matches StTable::Invalid { size: s, data } && s == size && data@ == tail
        }
    } else if location == 2 {
        t == (StTable::MsiXTable { size })
    } else {
        t == StTable::Reserved
    }
}

impl<'a> TphRequester<'a> {
    /// Whether `r` is what reading the capability from `bytes` (the data after the extended
    /// capability header) gives.
    pub open spec fn spec_parse(bytes: Seq<u8>, r: Result<Self, ExtendedCapabilityDataError>) -> bool {
        if bytes.len() < 8 {
            r == Err::<Self, ExtendedCapabilityDataError>(
                ExtendedCapabilityDataError { name: "TPH Requester", size: 8 },
            )
        } else {
            let cap = le_u32(bytes, 0);
            &&& r is Ok
            &&& r->Ok_0.tph_requester_capability.no_st_mode_supported == flag(cap, 0)
            &&& r->Ok_0.tph_requester_capability.interrupt_vector_mode_supported == flag(cap, 1)
            &&& r->Ok_0.tph_requester_capability.device_specific_mode_supported == flag(cap, 2)
            &&& r->Ok_0.tph_requester_capability.extended_tph_requester_supported == flag(cap, 8)
            &&& spec_st_table(
                r->Ok_0.tph_requester_capability.st_table,
                field(cap, 9, 0x3) as u8,
                field(cap, 16, 0x7ff) as u16,
                bytes.skip(8),
            )
            &&& r->Ok_0.tph_requester_control == TphRequesterControl::spec_from(le_u32(bytes, 4))
        }
    }

    /// Reads the capability from `slice`, the data after the extended capability header.
    pub fn parse(slice: &'a [u8]) -> (r: Result<Self, ExtendedCapabilityDataError>)
        ensures
            Self::spec_parse(slice@, r),
    {
        if slice.len() < 8 {
            return Err(ExtendedCapabilityDataError { name: "TPH Requester", size: 8 });
        }
        let cap = read_u32(slice, 0);
        let tail = &slice[8..slice.len()];
        assert(tail@ == slice@.skip(8));
        let location = get_u8(cap, 9, 0x3);
        let size = get_u16(cap, 16, 0x7ff);
        let end = size as usize * 2 + 2;
        let st_table = if location == 0 {
            StTable::NotPresent
        } else if location == 1 {
            if size <= 63 && end <= tail.len() {
                StTable::Valid { size, data: &tail[0..end] }
            } else {
                StTable::Invalid { size, data: tail }
            }
        } else if location == 2 {
            StTable::MsiXTable { size }
        } else {
            StTable::Reserved
        };
        Ok(TphRequester {
            tph_requester_capability: TphRequesterCapability {
                no_st_mode_supported: get_flag(cap, 0),
                interrupt_vector_mode_supported: get_flag(cap, 1),
                device_specific_mode_supported: get_flag(cap, 2),
                extended_tph_requester_supported: get_flag(cap, 8),
                st_table,
            },
            tph_requester_control: TphRequesterControl::from(read_u32(slice, 4)),
        })
    }
}

impl<'a> vstd::std_specs::convert::TryFromSpecImpl<&'a [u8]> for TphRequester<'a> {
    open spec fn obeys_try_from_spec() -> bool {
        false
    }

    open spec fn try_from_spec(slice: &'a [u8]) -> Result<Self, Self::Error> {
        arbitrary()
    }
}

impl<'a> TryFrom<&'a [u8]> for TphRequester<'a> {
    type Error = ExtendedCapabilityDataError;

    fn try_from(slice: &'a [u8]) -> (r: Result<Self, Self::Error>)
        ensures
            Self::spec_parse(slice@, r),
    {
        Self::parse(slice)
    }
}

/// TPH Requester Capability register
#[derive(Debug, Clone, PartialEq, Eq)]
pub struct TphRequesterCapability<'a> {
    /// No ST Mode Supported
    pub no_st_mode_supported: bool,
    /// Interrupt Vector Mode Supported
    pub interrupt_vector_mode_supported: bool,
    /// Device Specific Mode Supported
    pub device_specific_mode_supported: bool,
    /// Extended TPH Requester Supported
    pub extended_tph_requester_supported: bool,
    /// ST Table
    pub st_table: StTable<'a>,
}

/// Whether and where the ST Table is
#[derive(Debug, Clone, PartialEq, Eq)]
pub enum StTable<'a> {
    /// There is no ST Table
    NotPresent,
    /// The table is in the capability and all its bytes are there
    Valid { size: u16, data: &'a [u8] },
    /// The table is in the capability but its size is wrong: the data is shorter or the
    /// table has more than 64 entries
    Invalid { size: u16, data: &'a [u8] },
    /// The table is in the MSI-X Table
    MsiXTable { size: u16 },
    /// Reserved
    Reserved,
}

/// An ST Table entry of 16 bits
#[derive(Debug, Clone, PartialEq, Eq)]
pub struct TphStTableEntry {
    pub st_lower: u8,
    pub st_upper: u8,
}

/// TPH Requester Control register
#[derive(Debug, Clone, PartialEq, Eq)]
pub struct TphRequesterControl {
    /// ST Mode Select
    pub st_mode_select: StModeSelect,
    /// TPH Requester Enable
    pub tph_requester_enable: TphRequesterEnable,
}

impl TphRequesterControl {
    /// The fields of the register value `dword`.
    pub open spec fn spec_from(dword: u32) -> Self {
        TphRequesterControl {
            st_mode_select: StModeSelect::spec_from(field(dword, 0, 0x7) as u8),
            tph_requester_enable: TphRequesterEnable::spec_from_bits(field(dword, 8, 0x3) as u8),
        }
    }
}

impl vstd::std_specs::convert::FromSpecImpl<u32> for TphRequesterControl {
    open spec fn obeys_from_spec() -> bool {
        true
    }

    open spec fn from_spec(dword: u32) -> Self {
        Self::spec_from(dword)
    }
}

impl From<u32> for TphRequesterControl {
    fn from(dword: u32) -> (r: Self) {
        TphRequesterControl {
            st_mode_select: StModeSelect::from(get_u8(dword, 0, 0x7)),
            tph_requester_enable: TphRequesterEnable::from_bits(get_u8(dword, 8, 0x3)),
        }
    }
}

/// ST Mode of operation
#[derive(Debug, Clone, Copy, PartialEq, Eq)]
pub enum StModeSelect {
    /// No ST Mode
    NoStMode,
    /// Interrupt Vector Mode
    InterruptVectorMode,
    /// Device Specific Mode
    DeviceSpecificMode,
    Reserved(u8),
}

impl StModeSelect {
    /// The value that `byte` encodes.
    pub open spec fn spec_from(byte: u8) -> Self {
        match byte {
            0b00 => Self::NoStMode,
            0b01 => Self::InterruptVectorMode,
            0b10 => Self::DeviceSpecificMode,
            _ => Self::Reserved(byte),
        }
    }
}

impl vstd::std_specs::convert::FromSpecImpl<u8> for StModeSelect {
    open spec fn obeys_from_spec() -> bool {
        true
    }

    open spec fn from_spec(byte: u8) -> Self {
        Self::spec_from(byte)
    }
}

impl From<u8> for StModeSelect {
    fn from(byte: u8) -> (r: Self) {
        match byte {
            0b00 => Self::NoStMode,
            0b01 => Self::InterruptVectorMode,
            0b10 => Self::DeviceSpecificMode,
            _ => Self::Reserved(byte),
        }
    }
}

/// Whether Requests may carry TPH or Extended TPH
#[derive(Debug, Clone, Copy, PartialEq, Eq)]
pub enum TphRequesterEnable {
    /// Requests with TPH or Extended TPH are not permitted
    NotPermitted,
    /// Requests with TPH are permitted, with Extended TPH not
    TphPermitted,
    /// Reserved
    Reserved,
    /// Requests with TPH and Extended TPH are permitted
    TphAndExtendedTphPermitted,
}

impl TphRequesterEnable {
    /// The value that the field `byte` encodes; a field holds less than 4.
    pub open spec fn spec_from_bits(byte: u8) -> Self {
        match byte {
            0b00 => Self::NotPermitted,
            0b01 => Self::TphPermitted,
            0b10 => Self::Reserved,
            _ => Self::TphAndExtendedTphPermitted,
        }
    }

    /// Decodes the field `byte`.
    pub fn from_bits(byte: u8) -> (r: Self)
        requires
            byte < 4,
        ensures
            r == Self::spec_from_bits(byte),
    {
        match byte {
            0b00 => Self::NotPermitted,
            0b01 => Self::TphPermitted,
            0b10 => Self::Reserved,
            _ => Self::TphAndExtendedTphPermitted,
        }
    }
}

} // verus!
