//! PCI Power Management Interface capability.
use vstd::prelude::*;
use crate::bits::{field, flag, get_flag, get_u8, le_u16, read_u16};
use super::CapabilityDataError;

verus! {

broadcast use crate::bits::lemma_field_le_mask;

/// PCI Power Management Interface capability
#[derive(Debug, PartialEq, Eq)]
pub struct PowerManagementInterface {
    pub capabilities: Capabilities,
    pub control: Control,
    pub bridge: Bridge,
    pub data: Option<Data>,
}

impl PowerManagementInterface {
    /// Size of the capability data
    pub const SIZE: usize = 6;

    /// Whether `bytes` holds a nonzero Data register while the Data Select field holds one of
    /// the patterns that no DataSelect stands for, which the capability cannot be read with.
    pub open spec fn spec_invalid_data_select(bytes: Seq<u8>) -> bool {
        bytes.len() >= 6 && bytes[5] != 0 && field(le_u16(bytes, 2) as u32, 9, 0xf) >= 10
    }

    /// Whether the capability cannot be read from `bytes` (the data after the capability
    /// header): its Data register is nonzero while its Data Select field holds a pattern that no
    /// DataSelect stands for.
    pub fn is_invalid_data_select(bytes: &[u8]) -> (r: bool)
        ensures
            r == Self::spec_invalid_data_select(bytes@),
    {
        bytes.len() >= 6 && bytes[5] != 0 && get_u8(read_u16(bytes, 2) as u32, 9, 0xf) >= 10
    }

    /// The capability that `bytes` (the data after the capability header) holds, with the
    /// number of bytes read.
    pub open spec fn spec_parse(bytes: Seq<u8>) -> Result<(Self, usize), CapabilityDataError> {
        if bytes.len() < 6 {
            Err(CapabilityDataError { name: "Power Management Interface", size: 6 })
        } else {
            let control = le_u16(bytes, 2) as u32;
            Ok(
                (
                    PowerManagementInterface {
                        capabilities: Capabilities::spec_from(le_u16(bytes, 0)),
                        control: Control::spec_from(le_u16(bytes, 2)),
                        bridge: Bridge::spec_from(bytes[4]),
                        data: if bytes[5] != 0 {
                            Some(
                                Data {
                                    value: bytes[5],
                                    select: DataSelect::spec_from_bits(field(control, 9, 0xf) as u8),
                                    scale: DataScale::spec_from_bits(field(control, 13, 0x3) as u8),
                                },
                            )
                        } else {
                            None
                        },
                    },
                    6,
                ),
            )
        }
    }

    /// Reads the capability from `bytes` (the data after the capability header); gives back the
    /// number of bytes read too.
    pub fn try_read(bytes: &[u8]) -> (r: Result<(Self, usize), CapabilityDataError>)
        requires
            !Self::spec_invalid_data_select(bytes@),
        ensures
            r == Self::spec_parse(bytes@),
    {
        if bytes.len() < 6 {
            return Err(CapabilityDataError { name: "Power Management Interface", size: 6 });
        }
        let control = read_u16(bytes, 2);
        let data = if bytes[5] != 0 {
            Some(
                Data {
                    value: bytes[5],
                    select: DataSelect::from_bits(get_u8(control as u32, 9, 0xf)),
                    scale: DataScale::from_bits(get_u8(control as u32, 13, 0x3)),
                },
            )
        } else {
            None
        };
        Ok(
            (
                PowerManagementInterface {
                    capabilities: Capabilities::from(read_u16(bytes, 0)),
                    control: Control::from(control),
                    bridge: Bridge::from(bytes[4]),
                    data,
                },
                6,
            ),
        )
    }
}

/// Power Management Capabilities register
#[derive(Debug, PartialEq, Eq)]
pub struct Capabilities {
    pub version: u8,
    pub pme_clock: bool,
    pub reserved: bool,
    pub device_specific_initialization: bool,
    pub aux_current: AuxCurrent,
    pub d1_support: bool,
    pub d2_support: bool,
    pub pme_support: PmeSupport,
}

impl Capabilities {
    /// The fields of the register value `word`.
    pub open spec fn spec_from(word: u16) -> Self {
        let w = word as u32;
        Capabilities {
            version: field(w, 0, 0x7) as u8,
            pme_clock: flag(w, 3),
            reserved: flag(w, 4),
            device_specific_initialization: flag(w, 5),
            aux_current: AuxCurrent::spec_from_bits(field(w, 6, 0x7) as u8),
            d1_support: flag(w, 9),
            d2_support: flag(w, 10),
            pme_support: PmeSupport {
                d0: flag(w, 11),
                d1: flag(w, 12),
                d2: flag(w, 13),
                d3_hot: flag(w, 14),
                d3_cold: flag(w, 15),
            },
        }
    }
}

impl vstd::std_specs::convert::FromSpecImpl<u16> for Capabilities {
    open spec fn obeys_from_spec() -> bool {
        true
    }

    open spec fn from_spec(word: u16) -> Self {
        Self::spec_from(word)
    }
}

impl From<u16> for Capabilities {
    fn from(word: u16) -> (r: Self) {
        let w = word as u32;
        Capabilities {
            version: get_u8(w, 0, 0x7),
            pme_clock: get_flag(w, 3),
            reserved: get_flag(w, 4),
            device_specific_initialization: get_flag(w, 5),
            aux_current: AuxCurrent::from_bits(get_u8(w, 6, 0x7)),
            d1_support: get_flag(w, 9),
            d2_support: get_flag(w, 10),
            pme_support: PmeSupport {
                d0: get_flag(w, 11),
                d1: get_flag(w, 12),
                d2: get_flag(w, 13),
                d3_hot: get_flag(w, 14),
                d3_cold: get_flag(w, 15),
            },
        }
    }
}

/// 3.3 Vaux auxiliary current requirements
#[derive(Debug, PartialEq, Eq)]
pub enum AuxCurrent {
    SelfPowered,
    MaxCurrent55mA,
    MaxCurrent100mA,
    MaxCurrent160mA,
    MaxCurrent220mA,
    MaxCurrent270mA,
    MaxCurrent320mA,
    MaxCurrent375mA,
}

impl AuxCurrent {
    /// The value that the field `byte` encodes; a field holds less than 8.
    pub open spec fn spec_from_bits(byte: u8) -> Self {
        match byte {
            0 => Self::SelfPowered,
            1 => Self::MaxCurrent55mA,
            2 => Self::MaxCurrent100mA,
            3 => Self::MaxCurrent160mA,
            4 => Self::MaxCurrent220mA,
            5 => Self::MaxCurrent270mA,
            6 => Self::MaxCurrent320mA,
            _ => Self::MaxCurrent375mA,
        }
    }

    /// Decodes the field `byte`.
    pub fn from_bits(byte: u8) -> (r: Self)
        requires
            byte < 8,
        ensures
            r == Self::spec_from_bits(byte),
    {
        match byte {
            0 => Self::SelfPowered,
            1 => Self::MaxCurrent55mA,
            2 => Self::MaxCurrent100mA,
            3 => Self::MaxCurrent160mA,
            4 => Self::MaxCurrent220mA,
            5 => Self::MaxCurrent270mA,
            6 => Self::MaxCurrent320mA,
            _ => Self::MaxCurrent375mA,
        }
    }
}

/// PME# support in the power states
#[derive(Debug, PartialEq, Eq)]
pub struct PmeSupport {
    pub d0: bool,
    pub d1: bool,
    pub d2: bool,
    pub d3_hot: bool,
    pub d3_cold: bool,
}

/// Power Management Control/Status register
#[derive(Debug, PartialEq, Eq)]
pub struct Control {
    pub power_state: PowerState,
    pub reserved: u8,
    pub no_soft_reset: bool,
    pub pme_enabled: bool,
    pub pme_status: bool,
}

impl Control {
    /// The fields of the register value `word`.
    pub open spec fn spec_from(word: u16) -> Self {
        Control {
            power_state: PowerState::spec_from_bits(field(word as u32, 0, 0x3) as u8),
            reserved: field(word as u32, 2, 0x3f) as u8,
            no_soft_reset: flag(word as u32, 3),
            pme_enabled: flag(word as u32, 8),
            pme_status: flag(word as u32, 15),
        }
    }
}

impl vstd::std_specs::convert::FromSpecImpl<u16> for Control {
    open spec fn obeys_from_spec() -> bool {
        true
    }

    open spec fn from_spec(word: u16) -> Self {
        Self::spec_from(word)
    }
}

impl From<u16> for Control {
    fn from(word: u16) -> (r: Self) {
        let w = word as u32;
        Control {
            power_state: PowerState::from_bits(get_u8(w, 0, 0x3)),
            reserved: get_u8(w, 2, 0x3f),
            no_soft_reset: get_flag(w, 3),
            pme_enabled: get_flag(w, 8),
            pme_status: get_flag(w, 15),
        }
    }
}

/// Power state of the function
#[derive(Debug, Clone, Copy, PartialEq, Eq)]
pub enum PowerState {
    D0,
    D1,
    D2,
    D3Hot,
}

impl PowerState {
    /// The value that the field `byte` encodes; a field holds less than 4.
    pub open spec fn spec_from_bits(byte: u8) -> Self {
        match byte {
            0 => Self::D0,
            1 => Self::D1,
            2 => Self::D2,
            _ => Self::D3Hot,
        }
    }

    /// Decodes the field `byte`.
    pub fn from_bits(byte: u8) -> (r: Self)
        requires
            byte < 4,
        ensures
            r == Self::spec_from_bits(byte),
    {
        match byte {
            0 => Self::D0,
            1 => Self::D1,
            2 => Self::D2,
            _ => Self::D3Hot,
        }
    }
}

/// PMCSR PCI-to-PCI Bridge Support Extensions
#[derive(Debug, PartialEq, Eq)]
pub struct Bridge {
    pub reserved: u8,
    pub b2_b3: bool,
    pub bpcc_enabled: bool,
}

impl Bridge {
    /// The fields of the register value `byte`.
    pub open spec fn spec_from(byte: u8) -> Self {
        Bridge {
            reserved: field(byte as u32, 0, 0x3f) as u8,
            b2_b3: flag(byte as u32, 6),
            bpcc_enabled: flag(byte as u32, 7),
        }
    }
}

impl vstd::std_specs::convert::FromSpecImpl<u8> for Bridge {
    open spec fn obeys_from_spec() -> bool {
        true
    }

    open spec fn from_spec(byte: u8) -> Self {
        Self::spec_from(byte)
    }
}

impl From<u8> for Bridge {
    fn from(byte: u8) -> (r: Self) {
        let w = byte as u32;
        Bridge {
            reserved: get_u8(w, 0, 0x3f),
            b2_b3: get_flag(w, 6),
            bpcc_enabled: get_flag(w, 7),
        }
    }
}

/// Data register with the selection and the scale that it is reported in
#[derive(Debug, Clone, Copy, PartialEq, Eq)]
pub struct Data {
    pub value: u8,
    pub select: DataSelect,
    pub scale: DataScale,
}

/// Data reported through the Data register
#[derive(Debug, Clone, Copy, PartialEq, Eq)]
pub enum DataSelect {
    PowerConsumedD0,
    PowerConsumedD1,
    PowerConsumedD2,
    PowerConsumedD3,
    PowerDissipatedD0,
    PowerDissipatedD1,
    PowerDissipatedD2,
    PowerDissipatedD3,
    CommonLogic,
    Reserved,
}

impl DataSelect {
    /// The value that the field `byte` encodes; a field holds less than 10.
    pub open spec fn spec_from_bits(byte: u8) -> Self {
        match byte {
            0 => Self::PowerConsumedD0,
            1 => Self::PowerConsumedD1,
            2 => Self::PowerConsumedD2,
            3 => Self::PowerConsumedD3,
            4 => Self::PowerDissipatedD0,
            5 => Self::PowerDissipatedD1,
            6 => Self::PowerDissipatedD2,
            7 => Self::PowerDissipatedD3,
            8 => Self::CommonLogic,
            _ => Self::Reserved,
        }
    }

    /// Decodes the field `byte`.
    pub fn from_bits(byte: u8) -> (r: Self)
        requires
            byte < 10,
        ensures
            r == Self::spec_from_bits(byte),
    {
        match byte {
            0 => Self::PowerConsumedD0,
            1 => Self::PowerConsumedD1,
            2 => Self::PowerConsumedD2,
            3 => Self::PowerConsumedD3,
            4 => Self::PowerDissipatedD0,
            5 => Self::PowerDissipatedD1,
            6 => Self::PowerDissipatedD2,
            7 => Self::PowerDissipatedD3,
            8 => Self::CommonLogic,
            _ => Self::Reserved,
        }
    }
}

/// Scale factor of the Data register
#[derive(Debug, Clone, Copy, PartialEq, Eq)]
pub enum DataScale {
    Unknown,
    Tenth,
    Hundredth,
    Thousandth,
}

impl DataScale {
    /// The value that the field `byte` encodes; a field holds less than 4.
    pub open spec fn spec_from_bits(byte: u8) -> Self {
        match byte {
            0 => Self::Unknown,
            1 => Self::Tenth,
            2 => Self::Hundredth,
            _ => Self::Thousandth,
        }
    }

    /// Decodes the field `byte`.
    pub fn from_bits(byte: u8) -> (r: Self)
        requires
            byte < 4,
        ensures
            r == Self::spec_from_bits(byte),
    {
        match byte {
            0 => Self::Unknown,
            1 => Self::Tenth,
            2 => Self::Hundredth,
            _ => Self::Thousandth,
        }
    }
}


/// The power states by the value of the PowerState field (bits 1:0 of the PMCSR): 0 is D0, 1 is
/// D1, 2 is D2 and 3 is D3hot.
pub proof fn lemma_power_state_values(byte: u8)
    requires
        byte < 4,
    ensures
        byte == 0 ==> PowerState::spec_from_bits(byte) == PowerState::D0,
        byte == 1 ==> PowerState::spec_from_bits(byte) == PowerState::D1,
        byte == 2 ==> PowerState::spec_from_bits(byte) == PowerState::D2,
        byte == 3 ==> PowerState::spec_from_bits(byte) == PowerState::D3Hot,
{
}

/// The fields of a PMCSR word `w`: the PowerState is bits 1:0 (D0, D1, D2, D3hot in turn),
/// No_Soft_Reset bit 3, PME_En bit 8 and PME_Status bit 15.
pub proof fn lemma_control_fields(w: u16)
    ensures
        ({
            let c = Control::spec_from(w);
            let v = w as int;
            &&& v % 4 == 0 ==> c.power_state == PowerState::D0
            &&& v % 4 == 1 ==> c.power_state == PowerState::D1
            &&& v % 4 == 2 ==> c.power_state == PowerState::D2
            &&& v % 4 == 3 ==> c.power_state == PowerState::D3Hot
            &&& c.no_soft_reset == ((v / 8) % 2 == 1)
            &&& c.pme_enabled == ((v / 256) % 2 == 1)
            &&& c.pme_status == ((v / 32768) % 2 == 1)
        }),
{
    let x = w as u32;
    vstd::bits::lemma_low_bits_mask_values();
    vstd::arithmetic::power2::lemma2_to64();
    crate::bits::lemma_field_div_mod(x, 0, 0x3, 2);
    crate::bits::lemma_flag_div_mod(x, 3);
    crate::bits::lemma_flag_div_mod(x, 8);
    crate::bits::lemma_flag_div_mod(x, 15);
}

/// Reading the capability takes the power state from bits 1:0 of the third byte (the low byte
/// of the PMCSR): 0 is D0, 1 is D1, 2 is D2 and 3 is D3hot.
pub proof fn lemma_parse_power_state(bytes: Seq<u8>)
    requires
        bytes.len() >= 6,
    ensures
        PowerManagementInterface::spec_parse(bytes) is Ok,
        ({
            let s = PowerManagementInterface::spec_parse(bytes)->Ok_0.0.control.power_state;
            &&& bytes[2] % 4 == 0 ==> s == PowerState::D0
            &&& bytes[2] % 4 == 1 ==> s == PowerState::D1
            &&& bytes[2] % 4 == 2 ==> s == PowerState::D2
            &&& bytes[2] % 4 == 3 ==> s == PowerState::D3Hot
        }),
{
    lemma_control_fields(le_u16(bytes, 2));
}

} // verus!
