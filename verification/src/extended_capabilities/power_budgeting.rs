//! Power Budgeting extended capability.
use vstd::prelude::*;
use crate::bits::{field, flag, get_flag, get_u8, le_u32, read_u32};
use super::ExtendedCapabilityDataError;

verus! {

broadcast use crate::bits::lemma_field_le_mask;

/// Power Budgeting capability
#[derive(Debug, Clone, PartialEq, Eq)]
pub struct PowerBudgeting {
    /// Data Select
    pub data_select: u8,
    pub data: Data,
    pub power_budget_capability: PowerBudgetCapability,
}

impl PowerBudgeting {
    /// The capability that `bytes` (the data after the extended capability header) holds.
    pub open spec fn spec_parse(bytes: Seq<u8>) -> Result<Self, ExtendedCapabilityDataError> {
        if bytes.len() < 12 {
            Err(ExtendedCapabilityDataError { name: "Power Budgeting", size: 12 })
        } else {
            Ok(PowerBudgeting {
                data_select: bytes[0],
                data: Data::spec_from(le_u32(bytes, 4)),
                power_budget_capability: PowerBudgetCapability {
                    system_allocated: flag(bytes[8] as u32, 0),
                },
            })
        }
    }
}

impl vstd::std_specs::convert::TryFromSpecImpl<&[u8]> for PowerBudgeting {
    open spec fn obeys_try_from_spec() -> bool {
        true
    }

    open spec fn try_from_spec(slice: &[u8]) -> Result<Self, Self::Error> {
        Self::spec_parse(slice@)
    }
}

impl TryFrom<&[u8]> for PowerBudgeting {
    type Error = ExtendedCapabilityDataError;

    fn try_from(slice: &[u8]) -> (r: Result<Self, Self::Error>) {
        if slice.len() < 12 {
            return Err(ExtendedCapabilityDataError { name: "Power Budgeting", size: 12 });
        }
        Ok(PowerBudgeting {
            data_select: slice[0],
            data: Data::from(read_u32(slice, 4)),
            power_budget_capability: PowerBudgetCapability {
                system_allocated: get_flag(slice[8] as u32, 0),
            },
        })
    }
}

/// Power Budgeting Data register
#[derive(Debug, Clone, PartialEq, Eq)]
pub struct Data {
    /// Base power in watts in the operating condition
    pub base_power: BasePower,
    /// Scale of the Base Power value
    pub data_scale: DataScale,
    /// Power management sub state of the operating condition
    pub pm_sub_state: PmSubState,
    /// Power management state of the operating condition
    pub pm_state: PmState,
    /// Type of the operating condition
    pub operation_condition_type: OperationConditionType,
    /// Thermal load or power rail of the operating condition
    pub power_rail: PowerRail,
}

impl Data {
    /// The fields of the register value `dword`.
    pub open spec fn spec_from(dword: u32) -> Self {
        Data {
            base_power: BasePower::spec_from(field(dword, 0, 0xff) as u8),
            data_scale: DataScale::spec_from_bits(field(dword, 8, 0x3) as u8),
            pm_sub_state: PmSubState::spec_from(field(dword, 10, 0x7) as u8),
            pm_state: PmState::spec_from_bits(field(dword, 13, 0x3) as u8),
            operation_condition_type: OperationConditionType::spec_from(field(dword, 15, 0x7) as u8),
            power_rail: PowerRail::spec_from(field(dword, 18, 0x7) as u8),
        }
    }
}

impl vstd::std_specs::convert::FromSpecImpl<u32> for Data {
    open spec fn obeys_from_spec() -> bool {
        true
    }

    open spec fn from_spec(dword: u32) -> Self {
        Self::spec_from(dword)
    }
}

impl From<u32> for Data {
    fn from(dword: u32) -> (r: Self) {
        Data {
            base_power: BasePower::from(get_u8(dword, 0, 0xff)),
            data_scale: DataScale::from_bits(get_u8(dword, 8, 0x3)),
            pm_sub_state: PmSubState::from(get_u8(dword, 10, 0x7)),
            pm_state: PmState::from_bits(get_u8(dword, 13, 0x3)),
            operation_condition_type: OperationConditionType::from(get_u8(dword, 15, 0x7)),
            power_rail: PowerRail::from(get_u8(dword, 18, 0x7)),
        }
    }
}

/// Base power in watts
#[derive(Debug, Clone, Copy, PartialEq, Eq)]
pub enum BasePower {
    /// The value in watts
    Value(u8),
    /// More than 239 W and at most 250 W
    Gt239Le250,
    /// More than 250 W and at most 275 W
    Gt250Le275,
    /// More than 275 W and at most 300 W
    Gt275Le300,
    /// More than 300 W
    Gt300,
}

impl BasePower {
    /// The value that `byte` encodes.
    pub open spec fn spec_from(byte: u8) -> Self {
        match byte {
            byte if 0x00 <= byte && byte <= 0xEF => Self::Value(byte),
            0xF0 => Self::Gt239Le250,
            0xF1 => Self::Gt250Le275,
            0xF2 => Self::Gt275Le300,
            _ => Self::Gt300,
        }
    }
}

impl vstd::std_specs::convert::FromSpecImpl<u8> for BasePower {
    open spec fn obeys_from_spec() -> bool {
        true
    }

    open spec fn from_spec(byte: u8) -> Self {
        Self::spec_from(byte)
    }
}

impl From<u8> for BasePower {
    fn from(byte: u8) -> (r: Self) {
        match byte {
            byte if 0x00 <= byte && byte <= 0xEF => Self::Value(byte),
            0xF0 => Self::Gt239Le250,
            0xF1 => Self::Gt250Le275,
            0xF2 => Self::Gt275Le300,
            _ => Self::Gt300,
        }
    }
}

/// Scale of the Base Power value
#[derive(Debug, Clone, Copy, PartialEq, Eq)]
pub enum DataScale {
    /// 1.0x
    One,
    /// 0.1x
    Deci,
    /// 0.01x
    Centi,
    /// 0.001x
    Milli,
}

impl DataScale {
    /// The value that the field `byte` encodes; a field holds less than 4.
    pub open spec fn spec_from_bits(byte: u8) -> Self {
        match byte {
            0b00 => Self::One,
            0b01 => Self::Deci,
            0b10 => Self::Centi,
            _ => Self::Milli,
        }
    }

    /// Decodes the field `byte`.
    pub fn from_bits(byte: u8) -> (r: Self)
        requires
            byte < 4,
        ensures
            r == Self::spec_from_bits(byte),
    {
        match byte {
            0b00 => Self::One,
            0b01 => Self::Deci,
            0b10 => Self::Centi,
            _ => Self::Milli,
        }
    }
}

/// Power management sub state
#[derive(Debug, Clone, Copy, PartialEq, Eq)]
pub enum PmSubState {
    /// Default Sub State
    Default,
    /// Device Specific Sub State
    Specific(u8),
}

impl PmSubState {
    /// The value that `byte` encodes.
    pub open spec fn spec_from(byte: u8) -> Self {
        match byte {
            0b00 => Self::Default,
            _ => Self::Specific(byte),
        }
    }
}

impl vstd::std_specs::convert::FromSpecImpl<u8> for PmSubState {
    open spec fn obeys_from_spec() -> bool {
        true
    }

    open spec fn from_spec(byte: u8) -> Self {
        Self::spec_from(byte)
    }
}

impl From<u8> for PmSubState {
    fn from(byte: u8) -> (r: Self) {
        match byte {
            0b00 => Self::Default,
            _ => Self::Specific(byte),
        }
    }
}

/// Power management state
#[derive(Debug, Clone, Copy, PartialEq, Eq)]
pub enum PmState {
    D0,
    D1,
    D2,
    D3,
}

impl PmState {
    /// The value that the field `byte` encodes; a field holds less than 4.
    pub open spec fn spec_from_bits(byte: u8) -> Self {
        match byte {
            0b00 => Self::D0,
            0b01 => Self::D1,
            0b10 => Self::D2,
            _ => Self::D3,
        }
    }

    /// Decodes the field `byte`.
    pub fn from_bits(byte: u8) -> (r: Self)
        requires
            byte < 4,
        ensures
            r == Self::spec_from_bits(byte),
    {
        match byte {
            0b00 => Self::D0,
            0b01 => Self::D1,
            0b10 => Self::D2,
            _ => Self::D3,
        }
    }
}

/// Type of an operating condition
#[derive(Debug, Clone, Copy, PartialEq, Eq)]
pub enum OperationConditionType {
    /// PME Aux
    PmeAux,
    /// Auxiliary
    Auxiliary,
    /// Idle
    Idle,
    /// Sustained
    Sustained,
    /// Sustained, Emergency Power Reduction State
    SustainedEmergencyPowerReductionState,
    /// Maximum, Emergency Power Reduction State
    MaximumEmergencyPowerReductionState,
    /// Maximum
    Maximum,
    /// Reserved
    Reserved(u8),
}

impl OperationConditionType {
    /// The value that `byte` encodes.
    pub open spec fn spec_from(byte: u8) -> Self {
        match byte {
            0b000 => Self::PmeAux,
            0b001 => Self::Auxiliary,
            0b010 => Self::Idle,
            0b011 => Self::Sustained,
            0b100 => Self::SustainedEmergencyPowerReductionState,
            0b101 => Self::MaximumEmergencyPowerReductionState,
            0b111 => Self::Maximum,
            _ => Self::Reserved(byte),
        }
    }
}

impl vstd::std_specs::convert::FromSpecImpl<u8> for OperationConditionType {
    open spec fn obeys_from_spec() -> bool {
        true
    }

    open spec fn from_spec(byte: u8) -> Self {
        Self::spec_from(byte)
    }
}

impl From<u8> for OperationConditionType {
    fn from(byte: u8) -> (r: Self) {
        match byte {
            0b000 => Self::PmeAux,
            0b001 => Self::Auxiliary,
            0b010 => Self::Idle,
            0b011 => Self::Sustained,
            0b100 => Self::SustainedEmergencyPowerReductionState,
            0b101 => Self::MaximumEmergencyPowerReductionState,
            0b111 => Self::Maximum,
            _ => Self::Reserved(byte),
        }
    }
}

/// Thermal load or power rail
#[derive(Debug, Clone, Copy, PartialEq, Eq)]
pub enum PowerRail {
    /// Power (12V)
    Power12v,
    /// Power (3.3V)
    Power3_3v,
    /// Power (1.5V or 1.8V)
    Power1_5vOr1_8v,
    /// Thermal
    Thermal,
    /// Reserved
    Reserved(u8),
}

impl PowerRail {
    /// The value that `byte` encodes.
    pub open spec fn spec_from(byte: u8) -> Self {
        match byte {
            0b00 => Self::Power12v,
            0b01 => Self::Power3_3v,
            0b10 => Self::Power1_5vOr1_8v,
            0b11 => Self::Thermal,
            _ => Self::Reserved(byte),
        }
    }
}

impl vstd::std_specs::convert::FromSpecImpl<u8> for PowerRail {
    open spec fn obeys_from_spec() -> bool {
        true
    }

    open spec fn from_spec(byte: u8) -> Self {
        Self::spec_from(byte)
    }
}

impl From<u8> for PowerRail {
    fn from(byte: u8) -> (r: Self) {
        match byte {
            0b00 => Self::Power12v,
            0b01 => Self::Power3_3v,
            0b10 => Self::Power1_5vOr1_8v,
            0b11 => Self::Thermal,
            _ => Self::Reserved(byte),
        }
    }
}

/// Power Budget Capability register
#[derive(Debug, Clone, PartialEq, Eq)]
pub struct PowerBudgetCapability {
    /// System Allocated
    pub system_allocated: bool,
}

} // verus!
