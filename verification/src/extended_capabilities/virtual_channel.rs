//! Virtual Channel (VC) extended capability.
//!
//! The Port VC registers that this capability shares with the Multi-Function Virtual Channel
//! capability, and the VC Arbitration Table.
use vstd::prelude::*;
use crate::bits::{field, flag, get_flag, get_u8, le_u16, le_u32, read_u16, read_u32};
use super::ExtendedCapabilityDataError;

verus! {

broadcast use crate::bits::lemma_field_le_mask;

/// Virtual Channel capability: the Port VC registers, and the VC resources that follow them
#[derive(Debug, Clone, PartialEq, Eq)]
pub struct VirtualChannel<'a> {
    pub port_vc_capability_1: PortVcCapability1,
    pub port_vc_capability_2: PortVcCapability2,
    pub port_vc_control: PortVcControl,
    pub port_vc_status: PortVcStatus,
    /// The data after the Port VC registers: the VC resource registers and the arbitration
    /// tables
    pub data: &'a [u8],
}

impl<'a> VirtualChannel<'a> {
    /// Whether `r` is what reading the capability from `bytes` (the data after the extended
    /// capability header) gives.
    pub open spec fn spec_parse(
        bytes: Seq<u8>,
        r: Result<Self, ExtendedCapabilityDataError>,
    ) -> bool {
        if bytes.len() < 12 {
            r == Err::<Self, ExtendedCapabilityDataError>(
                ExtendedCapabilityDataError { name: "Virtual Channel", size: 12 },
            )
        } else {
            &&& r is Ok
            &&& r->Ok_0.port_vc_capability_1 == PortVcCapability1::spec_from(le_u32(bytes, 0))
            &&& r->Ok_0.port_vc_capability_2 == PortVcCapability2::spec_from(le_u32(bytes, 4))
            &&& r->Ok_0.port_vc_control == PortVcControl::spec_from(le_u16(bytes, 8))
            &&& r->Ok_0.port_vc_status == PortVcStatus::spec_from(le_u16(bytes, 10))
            &&& r->Ok_0.data@ == bytes.skip(12)
        }
    }

    /// Reads the capability from `slice`, the data after the extended capability header.
    pub fn parse(slice: &'a [u8]) -> (r: Result<Self, ExtendedCapabilityDataError>)
        ensures
            Self::spec_parse(slice@, r),
    {
        if slice.len() < 12 {
            return Err(ExtendedCapabilityDataError { name: "Virtual Channel", size: 12 });
        }
        let data = &slice[12..slice.len()];
        assert(data@ == slice@.skip(12));
        Ok(VirtualChannel {
            port_vc_capability_1: PortVcCapability1::from(read_u32(slice, 0)),
            port_vc_capability_2: PortVcCapability2::from(read_u32(slice, 4)),
            port_vc_control: PortVcControl::from(read_u16(slice, 8)),
            port_vc_status: PortVcStatus::from(read_u16(slice, 10)),
            data,
        })
    }
}

impl<'a> vstd::std_specs::convert::TryFromSpecImpl<&'a [u8]> for VirtualChannel<'a> {
    open spec fn obeys_try_from_spec() -> bool {
        false
    }

    open spec fn try_from_spec(slice: &'a [u8]) -> Result<Self, Self::Error> {
        arbitrary()
    }
}

impl<'a> TryFrom<&'a [u8]> for VirtualChannel<'a> {
    type Error = ExtendedCapabilityDataError;

    fn try_from(slice: &'a [u8]) -> (r: Result<Self, Self::Error>)
        ensures
            Self::spec_parse(slice@, r),
    {
        Self::parse(slice)
    }
}

/// Port VC Capability 1 register of a Virtual Channel capability
#[derive(Debug, Clone, PartialEq, Eq)]
pub struct PortVcCapability1 {
    /// Number of Virtual Channels besides the default one
    pub extended_vc_count: u8,
    /// Number of those that belong to the low-priority VC group
    pub low_priority_extended_vc_count: u8,
    /// Reference clock of time-based WRR Port Arbitration
    pub reference_clock: ReferenceClock,
    /// Size of a Port Arbitration Table entry: 2 to the power of the field bits
    pub port_arbitration_table_entry_size: u8,
}

impl PortVcCapability1 {
    /// The fields of the register value `dword`.
    pub open spec fn spec_from(dword: u32) -> Self {
        PortVcCapability1 {
            extended_vc_count: field(dword, 0, 0x7) as u8,
            low_priority_extended_vc_count: field(dword, 4, 0x7) as u8,
            reference_clock: ReferenceClock::spec_from(field(dword, 8, 0x3) as u8),
            port_arbitration_table_entry_size: field(dword, 10, 0x3) as u8,
        }
    }
}

impl vstd::std_specs::convert::FromSpecImpl<u32> for PortVcCapability1 {
    open spec fn obeys_from_spec() -> bool {
        true
    }

    open spec fn from_spec(dword: u32) -> Self {
        Self::spec_from(dword)
    }
}

impl From<u32> for PortVcCapability1 {
    fn from(dword: u32) -> (r: Self) {
        PortVcCapability1 {
            extended_vc_count: get_u8(dword, 0, 0x7),
            low_priority_extended_vc_count: get_u8(dword, 4, 0x7),
            reference_clock: ReferenceClock::from(get_u8(dword, 8, 0x3)),
            port_arbitration_table_entry_size: get_u8(dword, 10, 0x3),
        }
    }
}

/// Port VC Capability 2 register
#[derive(Debug, Clone, PartialEq, Eq)]
pub struct PortVcCapability2 {
    /// VC Arbitration schemes that the Port supports
    pub vc_arbitration_capability: VcArbitrationCapability,
    /// Offset of the VC Arbitration Table in units of 16 bytes
    pub vc_arbitration_table_offset: u8,
}

impl PortVcCapability2 {
    /// The fields of the register value `dword`.
    pub open spec fn spec_from(dword: u32) -> Self {
        PortVcCapability2 {
            vc_arbitration_capability: VcArbitrationCapability::spec_from(field(dword, 0, 0xff) as u8),
            vc_arbitration_table_offset: field(dword, 24, 0xff) as u8,
        }
    }
}

impl vstd::std_specs::convert::FromSpecImpl<u32> for PortVcCapability2 {
    open spec fn obeys_from_spec() -> bool {
        true
    }

    open spec fn from_spec(dword: u32) -> Self {
        Self::spec_from(dword)
    }
}

impl From<u32> for PortVcCapability2 {
    fn from(dword: u32) -> (r: Self) {
        PortVcCapability2 {
            vc_arbitration_capability: VcArbitrationCapability::from(get_u8(dword, 0, 0xff)),
            vc_arbitration_table_offset: get_u8(dword, 24, 0xff),
        }
    }
}

/// VC Arbitration Capability field
#[derive(Debug, Clone, PartialEq, Eq)]
pub struct VcArbitrationCapability {
    /// Non-configurable hardware-fixed arbitration
    pub hardware_fixed_arbitration: bool,
    /// Weighted Round Robin arbitration with 32 phases
    pub wrr_32_phases: bool,
    /// WRR arbitration with 64 phases
    pub wrr_64_phases: bool,
    /// WRR arbitration with 128 phases
    pub wrr_128_phases: bool,
    /// Reserved bits 4 to 7
    pub reserved: u8,
}

impl VcArbitrationCapability {
    /// The fields of the register value `byte`.
    pub open spec fn spec_from(byte: u8) -> Self {
        VcArbitrationCapability {
            hardware_fixed_arbitration: flag(byte as u32, 0),
            wrr_32_phases: flag(byte as u32, 1),
            wrr_64_phases: flag(byte as u32, 2),
            wrr_128_phases: flag(byte as u32, 3),
            reserved: field(byte as u32, 4, 0xf) as u8,
        }
    }
}

impl vstd::std_specs::convert::FromSpecImpl<u8> for VcArbitrationCapability {
    open spec fn obeys_from_spec() -> bool {
        true
    }

    open spec fn from_spec(byte: u8) -> Self {
        Self::spec_from(byte)
    }
}

impl From<u8> for VcArbitrationCapability {
    fn from(byte: u8) -> (r: Self) {
        let w = byte as u32;
        VcArbitrationCapability {
            hardware_fixed_arbitration: get_flag(w, 0),
            wrr_32_phases: get_flag(w, 1),
            wrr_64_phases: get_flag(w, 2),
            wrr_128_phases: get_flag(w, 3),
            reserved: get_u8(w, 4, 0xf),
        }
    }
}

/// Port VC Control register
#[derive(Debug, Clone, PartialEq, Eq)]
pub struct PortVcControl {
    /// Load VC Arbitration Table
    pub load_vc_arbitration_table: bool,
    /// VC Arbitration Select
    pub vc_arbitration_select: VcArbitrationSelect,
}

impl PortVcControl {
    /// The fields of the register value `word`.
    pub open spec fn spec_from(word: u16) -> Self {
        PortVcControl {
            load_vc_arbitration_table: flag(word as u32, 0),
            vc_arbitration_select: VcArbitrationSelect::spec_from(field(word as u32, 1, 0x7) as u8),
        }
    }
}

impl vstd::std_specs::convert::FromSpecImpl<u16> for PortVcControl {
    open spec fn obeys_from_spec() -> bool {
        true
    }

    open spec fn from_spec(word: u16) -> Self {
        Self::spec_from(word)
    }
}

impl From<u16> for PortVcControl {
    fn from(word: u16) -> (r: Self) {
        let w = word as u32;
        PortVcControl {
            load_vc_arbitration_table: get_flag(w, 0),
            vc_arbitration_select: VcArbitrationSelect::from(get_u8(w, 1, 0x7)),
        }
    }
}

/// The VC Arbitration scheme in use
#[derive(Debug, Clone, Copy, PartialEq, Eq)]
pub enum VcArbitrationSelect {
    /// Non-configurable hardware-fixed arbitration
    HardwareFixedArbitration,
    /// WRR arbitration with 32 phases
    Wrr32phases,
    /// WRR arbitration with 64 phases
    Wrr64phases,
    /// WRR arbitration with 128 phases
    Wrr128phases,
    Reserved(u8),
}

impl VcArbitrationSelect {
    /// The value that `byte` encodes.
    pub open spec fn spec_from(byte: u8) -> Self {
        match byte {
            0b000 => Self::HardwareFixedArbitration,
            0b001 => Self::Wrr32phases,
            0b010 => Self::Wrr64phases,
            0b011 => Self::Wrr128phases,
            _ => Self::Reserved(byte),
        }
    }
}

impl vstd::std_specs::convert::FromSpecImpl<u8> for VcArbitrationSelect {
    open spec fn obeys_from_spec() -> bool {
        true
    }

    open spec fn from_spec(byte: u8) -> Self {
        Self::spec_from(byte)
    }
}

impl From<u8> for VcArbitrationSelect {
    fn from(byte: u8) -> (r: Self) {
        match byte {
            0b000 => Self::HardwareFixedArbitration,
            0b001 => Self::Wrr32phases,
            0b010 => Self::Wrr64phases,
            0b011 => Self::Wrr128phases,
            _ => Self::Reserved(byte),
        }
    }
}

impl VcArbitrationSelect {
    /// The number of entries of the VC Arbitration Table for the scheme.
    pub open spec fn spec_vc_arbitration_table_length(&self) -> usize {
        match self {
            Self::Wrr32phases => 32,
            Self::Wrr64phases => 64,
            Self::Wrr128phases => 128,
            _ => 0,
        }
    }

    /// The number of entries of the VC Arbitration Table for the scheme.
    pub fn vc_arbitration_table_length(&self) -> (r: usize)
        ensures
            r == self.spec_vc_arbitration_table_length(),
    {
        match self {
            Self::Wrr32phases => 32,
            Self::Wrr64phases => 64,
            Self::Wrr128phases => 128,
            _ => 0,
        }
    }
}

/// Port VC Status register
#[derive(Debug, Clone, PartialEq, Eq)]
pub struct PortVcStatus {
    /// VC Arbitration Table Status
    pub vc_arbitration_table_status: bool,
}

impl PortVcStatus {
    /// The fields of the register value `word`.
    pub open spec fn spec_from(word: u16) -> Self {
        PortVcStatus {
            vc_arbitration_table_status: flag(word as u32, 0),
        }
    }
}

impl vstd::std_specs::convert::FromSpecImpl<u16> for PortVcStatus {
    open spec fn obeys_from_spec() -> bool {
        true
    }

    open spec fn from_spec(word: u16) -> Self {
        Self::spec_from(word)
    }
}

impl From<u16> for PortVcStatus {
    fn from(word: u16) -> (r: Self) {
        let w = word as u32;
        PortVcStatus {
            vc_arbitration_table_status: get_flag(w, 0),
        }
    }
}

/// Reference clock of time-based WRR arbitration
#[derive(Debug, Clone, Copy, PartialEq, Eq)]
pub enum ReferenceClock {
    /// 100 ns
    Rc100ns,
    Reserved(u8),
}

impl ReferenceClock {
    /// The value that `byte` encodes.
    pub open spec fn spec_from(byte: u8) -> Self {
        match byte {
            0b00 => Self::Rc100ns,
            _ => Self::Reserved(byte),
        }
    }
}

impl vstd::std_specs::convert::FromSpecImpl<u8> for ReferenceClock {
    open spec fn obeys_from_spec() -> bool {
        true
    }

    open spec fn from_spec(byte: u8) -> Self {
        Self::spec_from(byte)
    }
}

impl From<u8> for ReferenceClock {
    fn from(byte: u8) -> (r: Self) {
        match byte {
            0b00 => Self::Rc100ns,
            _ => Self::Reserved(byte),
        }
    }
}

/// The VC Arbitration Table: 4-bit entries, two to a byte, the lower half first
#[derive(Debug, Clone, PartialEq, Eq)]
pub struct VcArbitrationTable<'a> {
    data: &'a [u8],
}

/// An entry of the VC Arbitration Table: the VC ID that a phase serves
#[derive(Debug, Clone, Copy, PartialEq, Eq)]
pub struct VcArbitrationTableEntry(pub u8);

impl<'a> VcArbitrationTable<'a> {
    /// The bytes of the table.
    pub closed spec fn spec_data(&self) -> Seq<u8> {
        self.data@
    }

    /// The table that `data` holds.
    pub fn new(data: &'a [u8]) -> (r: Self)
        ensures
            r.spec_data() == data@,
    {
        VcArbitrationTable { data }
    }

    /// The entries of the table: entry `i` is the lower half of byte `i / 2` for an even `i`
    /// and its upper half for an odd one.
    pub fn entries(&self) -> (r: Vec<VcArbitrationTableEntry>)
        requires
            self.spec_data().len() * 2 <= usize::MAX,
        ensures
            r.len() == 2 * self.spec_data().len(),
            forall|i: int|
                0 <= i < r.len() ==> #[trigger] r[i] == VcArbitrationTableEntry(
                    if i % 2 == 0 {
                        self.spec_data()[i / 2] & 0xf
                    } else {
                        self.spec_data()[i / 2] >> 4u8
                    },
                ),
    {
        let mut r: Vec<VcArbitrationTableEntry> = Vec::new();
        let mut k: usize = 0;
        while k < self.data.len()
            invariant
                k <= self.data.len(),
                r.len() == 2 * k,
                self.data@ == self.spec_data(),
                forall|i: int|
                    0 <= i < r.len() ==> #[trigger] r[i] == VcArbitrationTableEntry(
                        if i % 2 == 0 {
                            self.spec_data()[i / 2] & 0xf
                        } else {
                            self.spec_data()[i / 2] >> 4u8
                        },
                    ),
            decreases self.data.len() - k,
        {
            let byte = self.data[k];
            r.push(VcArbitrationTableEntry(byte & 0xf));
            r.push(VcArbitrationTableEntry(byte >> 4u8));
            k = k + 1;
        }
        r
    }
}

} // verus!
