//! Dynamic Power Allocation (DPA) extended capability.
//!
//! The capability is read from data that starts with its extended capability header.
use vstd::prelude::*;
use crate::bits::{field, flag, get_flag, get_u8, le_u16, le_u32, read_u16, read_u32};

verus! {

broadcast use crate::bits::lemma_field_le_mask;

/// Dynamic Power Allocation errors
#[derive(Debug, Clone, PartialEq, Eq)]
pub enum DynamicPowerAllocationError {
    /// The Capability, Latency Indicator, Status and Control registers are not there
    Mandatory,
    /// The Power Allocation Array is shorter than Substate_Max plus one entries
    DpaAllocationArray { expected: usize, found: usize },
}

/// Dynamic Power Allocation capability
#[derive(Debug, Clone, PartialEq, Eq)]
pub struct DynamicPowerAllocation<'a> {
    pub dpa_capability: DpaCapability,
    /// Which Transition Latency Value each substate uses, one bit per substate
    pub dpa_latency_indicator: u32,
    pub dpa_status: DpaStatus,
    pub dpa_control: DpaControl,
    pub dpa_power_allocation_array: DpaPowerAllocationArray<'a>,
}

impl<'a> DynamicPowerAllocation<'a> {
    /// Whether `r` is what reading the capability from `bytes` (data that starts with the
    /// extended capability header) gives: the Power Allocation Array has Substate_Max plus
    /// one bytes after the registers.
    pub open spec fn spec_parse(bytes: Seq<u8>, r: Result<Self, DynamicPowerAllocationError>) -> bool {
        if bytes.len() < 16 {
            r == Err::<Self, DynamicPowerAllocationError>(DynamicPowerAllocationError::Mandatory)
        } else {
            let cap = DpaCapability::spec_from(le_u32(bytes, 4));
            let n = cap.substate_max + 1;
            if 16 + n > bytes.len() {
                r == Err::<Self, DynamicPowerAllocationError>(
                    DynamicPowerAllocationError::DpaAllocationArray {
                        expected: cap.substate_max as usize,
                        found: (bytes.len() - 16) as usize,
                    },
                )
            } else {
                &&& r is Ok
                &&& r->Ok_0.dpa_capability == cap
                &&& r->Ok_0.dpa_latency_indicator == le_u32(bytes, 8)
                &&& r->Ok_0.dpa_status == DpaStatus::spec_from(le_u16(bytes, 12))
                &&& r->Ok_0.dpa_control == DpaControl::spec_from(le_u16(bytes, 14))
                &&& r->Ok_0.dpa_power_allocation_array.0@ == bytes.subrange(16, 16 + n)
            }
        }
    }

    /// Reads the capability from `slice`, data that starts with the extended capability header.
    pub fn parse(slice: &'a [u8]) -> (r: Result<Self, DynamicPowerAllocationError>)
        ensures
            Self::spec_parse(slice@, r),
    {
        if slice.len() < 16 {
            return Err(DynamicPowerAllocationError::Mandatory);
        }
        let dpa_capability = DpaCapability::from(read_u32(slice, 4));
        let substate_max = dpa_capability.substate_max as usize;
        if 16 + substate_max + 1 > slice.len() {
            return Err(
                DynamicPowerAllocationError::DpaAllocationArray {
                    expected: substate_max,
                    found: slice.len() - 16,
                },
            );
        }
        Ok(DynamicPowerAllocation {
            dpa_capability,
            dpa_latency_indicator: read_u32(slice, 8),
            dpa_status: DpaStatus::from(read_u16(slice, 12)),
            dpa_control: DpaControl::from(read_u16(slice, 14)),
            dpa_power_allocation_array: DpaPowerAllocationArray(&slice[16..16 + substate_max + 1]),
        })
    }
}

impl<'a> vstd::std_specs::convert::TryFromSpecImpl<&'a [u8]> for DynamicPowerAllocation<'a> {
    open spec fn obeys_try_from_spec() -> bool {
        false
    }

    open spec fn try_from_spec(slice: &'a [u8]) -> Result<Self, Self::Error> {
        arbitrary()
    }
}

impl<'a> TryFrom<&'a [u8]> for DynamicPowerAllocation<'a> {
    type Error = DynamicPowerAllocationError;

    fn try_from(slice: &'a [u8]) -> (r: Result<Self, Self::Error>)
        ensures
            Self::spec_parse(slice@, r),
    {
        Self::parse(slice)
    }
}

/// DPA Capability register
#[derive(Debug, Clone, PartialEq, Eq)]
pub struct DpaCapability {
    /// The highest substate number: the number of substates minus one
    pub substate_max: u8,
    /// Unit of the Transition Latency Values
    pub transition_latency_unit: TransitionLatencyUnit,
    /// Scale of the power allocation of a substate
    pub power_allocation_scale: PowerAllocationScale,
    /// Transition Latency Value 0, in Transition Latency Units
    pub transition_latency_value_0: u8,
    /// Transition Latency Value 1, in Transition Latency Units
    pub transition_latency_value_1: u8,
}

impl DpaCapability {
    /// The fields of the register value `dword`.
    pub open spec fn spec_from(dword: u32) -> Self {
        DpaCapability {
            substate_max: field(dword, 0, 0x1f) as u8,
            transition_latency_unit: TransitionLatencyUnit::spec_from_bits(field(dword, 8, 0x3) as u8),
            power_allocation_scale: PowerAllocationScale::spec_from_bits(field(dword, 12, 0x3) as u8),
            transition_latency_value_0: field(dword, 16, 0xff) as u8,
            transition_latency_value_1: field(dword, 24, 0xff) as u8,
        }
    }
}

impl vstd::std_specs::convert::FromSpecImpl<u32> for DpaCapability {
    open spec fn obeys_from_spec() -> bool {
        true
    }

    open spec fn from_spec(dword: u32) -> Self {
        Self::spec_from(dword)
    }
}

impl From<u32> for DpaCapability {
    fn from(dword: u32) -> (r: Self) {
        DpaCapability {
            substate_max: get_u8(dword, 0, 0x1f),
            transition_latency_unit: TransitionLatencyUnit::from_bits(get_u8(dword, 8, 0x3)),
            power_allocation_scale: PowerAllocationScale::from_bits(get_u8(dword, 12, 0x3)),
            transition_latency_value_0: get_u8(dword, 16, 0xff),
            transition_latency_value_1: get_u8(dword, 24, 0xff),
        }
    }
}

/// Unit of a Transition Latency Value
#[derive(Debug, Clone, Copy, PartialEq, Eq)]
pub enum TransitionLatencyUnit {
    /// 1 ms
    Unit1ms,
    /// 10 ms
    Unit10ms,
    /// 100 ms
    Unit100ms,
    /// Reserved
    Reserved,
}

impl TransitionLatencyUnit {
    /// The value that the field `byte` encodes; a field holds less than 4.
    pub open spec fn spec_from_bits(byte: u8) -> Self {
        match byte {
            0b00 => Self::Unit1ms,
            0b01 => Self::Unit10ms,
            0b10 => Self::Unit100ms,
            _ => Self::Reserved,
        }
    }

    /// Decodes the field `byte`.
    pub fn from_bits(byte: u8) -> (r: Self)
        requires
            byte < 4,
        ensures
            r == Self::spec_from_bits(byte),
    {
        match byte {
            0b00 => Self::Unit1ms,
            0b01 => Self::Unit10ms,
            0b10 => Self::Unit100ms,
            _ => Self::Reserved,
        }
    }
}

/// Scale of the power allocation of a substate, in watts
#[derive(Debug, Clone, Copy, PartialEq, Eq)]
pub enum PowerAllocationScale {
    /// 10.0x
    Mul10,
    /// 1.0x
    Mul1_0,
    /// 0.1x
    Mul0_1,
    /// 0.01x
    Mul0_01,
}

impl PowerAllocationScale {
    /// The value that the field `byte` encodes; a field holds less than 4.
    pub open spec fn spec_from_bits(byte: u8) -> Self {
        match byte {
            0b00 => Self::Mul10,
            0b01 => Self::Mul1_0,
            0b10 => Self::Mul0_1,
            _ => Self::Mul0_01,
        }
    }

    /// Decodes the field `byte`.
    pub fn from_bits(byte: u8) -> (r: Self)
        requires
            byte < 4,
        ensures
            r == Self::spec_from_bits(byte),
    {
        match byte {
            0b00 => Self::Mul10,
            0b01 => Self::Mul1_0,
            0b10 => Self::Mul0_1,
            _ => Self::Mul0_01,
        }
    }
}

/// DPA Status register
#[derive(Debug, Clone, PartialEq, Eq)]
pub struct DpaStatus {
    /// The current substate of the Function
    pub substate_status: u8,
    /// The Substate Control field decides the current substate
    pub substate_control_enabled: bool,
}

impl DpaStatus {
    /// The fields of the register value `word`.
    pub open spec fn spec_from(word: u16) -> Self {
        DpaStatus {
            substate_status: field(word as u32, 0, 0x1f) as u8,
            substate_control_enabled: flag(word as u32, 8),
        }
    }
}

impl vstd::std_specs::convert::FromSpecImpl<u16> for DpaStatus {
    open spec fn obeys_from_spec() -> bool {
        true
    }

    open spec fn from_spec(word: u16) -> Self {
        Self::spec_from(word)
    }
}

impl From<u16> for DpaStatus {
    fn from(word: u16) -> (r: Self) {
        let w = word as u32;
        DpaStatus {
            substate_status: get_u8(w, 0, 0x1f),
            substate_control_enabled: get_flag(w, 8),
        }
    }
}

/// DPA Control register
#[derive(Debug, Clone, PartialEq, Eq)]
pub struct DpaControl {
    /// Substate Control
    pub substate_control: u8,
}

impl DpaControl {
    /// The fields of the register value `word`.
    pub open spec fn spec_from(word: u16) -> Self {
        DpaControl {
            substate_control: field(word as u32, 0, 0x1f) as u8,
        }
    }
}

impl vstd::std_specs::convert::FromSpecImpl<u16> for DpaControl {
    open spec fn obeys_from_spec() -> bool {
        true
    }

    open spec fn from_spec(word: u16) -> Self {
        Self::spec_from(word)
    }
}

impl From<u16> for DpaControl {
    fn from(word: u16) -> (r: Self) {
        let w = word as u32;
        DpaControl {
            substate_control: get_u8(w, 0, 0x1f),
        }
    }
}

/// DPA Power Allocation Array: the power allocation of each substate, one byte each
#[derive(Debug, Clone, PartialEq, Eq)]
pub struct DpaPowerAllocationArray<'a>(pub &'a [u8]);

} // verus!
