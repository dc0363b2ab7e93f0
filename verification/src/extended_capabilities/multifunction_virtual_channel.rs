//! Multi-Function Virtual Channel (MFVC) extended capability.
//!
//! QoS management of a Multi-Function Device: TC/VC mapping, VC arbitration and Function
//! arbitration for Upstream Requests. The capability is read from data that starts with its
//! extended capability header, so that the table offsets count from the data's start.
//!
//! Each VC resource register value can be encoded back into its bytes.
use vstd::prelude::*;
use vstd::arithmetic::power2::pow2;
use crate::bits::{field, flag, get_flag, get_u8, le_u16, le_u32, pow2_usize, read_u16, read_u32};
pub use super::virtual_channel::{
    PortVcCapability2, PortVcControl, PortVcStatus, ReferenceClock, VcArbitrationCapability,
    VcArbitrationSelect, VcArbitrationTable,
};

verus! {

broadcast use crate::bits::lemma_field_le_mask;

/// Multi-Function Virtual Channel errors
#[derive(Debug, Clone, PartialEq, Eq)]
pub enum MultifunctionVirtualChannelError {
    /// The Port VC Capability 1 and 2, Control and Status registers are not there
    PortVcData,
    /// The VC Arbitration Table offset is 1: it should be at least 2 (in units of 16 bytes)
    VcArbitrationTableOffset,
    /// The VC Arbitration Table offset lies beyond the data
    VcArbitrationTableData,
    /// The data after the VC Arbitration Table offset is shorter than the table
    VcArbitrationTableLength { expected: usize, real: usize },
    /// No Function Arbitration Table can be read
    FunctionArbitrationTable0,
}

/// Multi-Function Virtual Channel capability
#[derive(Debug, Clone, PartialEq, Eq)]
pub struct MultifunctionVirtualChannel<'a> {
    pub port_vc_capability_1: PortVcCapability1,
    /// Port VC Capability 2: further configuration of the Virtual Channels of the Port
    pub port_vc_capability_2: PortVcCapability2,
    pub port_vc_control: PortVcControl,
    pub port_vc_status: PortVcStatus,
    pub vc_arbitration_table: Option<VcArbitrationTable<'a>>,
    pub extended_virtual_channels: ExtendedVirtualChannels<'a>,
}

/// Offset unit of the VC Arbitration Table and the Function Arbitration Tables
pub const DQWORD: usize = 0x10;

impl<'a> MultifunctionVirtualChannel<'a> {
    /// Whether `r` is what reading the capability from `bytes` (data that starts with the
    /// extended capability header) gives.
    pub open spec fn spec_parse(
        bytes: Seq<u8>,
        r: Result<Self, MultifunctionVirtualChannelError>,
    ) -> bool {
        if bytes.len() < 16 {
            r == Err::<Self, MultifunctionVirtualChannelError>(
                MultifunctionVirtualChannelError::PortVcData,
            )
        } else {
            let cap1 = PortVcCapability1::spec_from(le_u32(bytes, 4));
            let cap2 = PortVcCapability2::spec_from(le_u32(bytes, 8));
            let control = PortVcControl::spec_from(le_u16(bytes, 12));
            let offset = cap2.vc_arbitration_table_offset * 16;
            let length = control.vc_arbitration_select.spec_vc_arbitration_table_length() * 4 / 8;
            if cap2.vc_arbitration_table_offset == 1 {
                r == Err::<Self, MultifunctionVirtualChannelError>(
                    MultifunctionVirtualChannelError::VcArbitrationTableOffset,
                )
            } else if cap2.vc_arbitration_table_offset >= 2 && offset > bytes.len() {
                r == Err::<Self, MultifunctionVirtualChannelError>(
                    MultifunctionVirtualChannelError::VcArbitrationTableData,
                )
            } else if cap2.vc_arbitration_table_offset >= 2 && offset + length > bytes.len() {
                r == Err::<Self, MultifunctionVirtualChannelError>(
                    MultifunctionVirtualChannelError::VcArbitrationTableLength {
                        expected: length as usize,
                        real: (bytes.len() - offset) as usize,
                    },
                )
            } else {
                &&& r is Ok
                &&& r->Ok_0.port_vc_capability_1 == cap1
                &&& r->Ok_0.port_vc_capability_2 == cap2
                &&& r->Ok_0.port_vc_control == control
                &&& r->Ok_0.port_vc_status == PortVcStatus::spec_from(le_u16(bytes, 14))
                &&& if cap2.vc_arbitration_table_offset == 0 {
                    r->Ok_0.vc_arbitration_table is None
                } else {
                    r->Ok_0.vc_arbitration_table matches Some(t) && t.spec_data() == bytes.subrange(
                        offset as int,
                        offset + length,
                    )
                }
                &&& r->Ok_0.extended_virtual_channels.spec_data() == bytes
                &&& r->Ok_0.extended_virtual_channels.spec_count() == cap1.extended_vc_count + 1
                &&& r->Ok_0.extended_virtual_channels.spec_fat_entry_bits() == pow2(
                    cap1.function_arbitration_table_entry_size.0 as nat,
                )
                &&& r->Ok_0.extended_virtual_channels.spec_offset() == 0x10
            }
        }
    }

    /// Reads the capability from `slice`, data that starts with the extended capability header.
    pub fn parse(slice: &'a [u8]) -> (r: Result<Self, MultifunctionVirtualChannelError>)
        ensures
            Self::spec_parse(slice@, r),
    {
        if slice.len() < 16 {
            return Err(MultifunctionVirtualChannelError::PortVcData);
        }
        let port_vc_capability_1 = PortVcCapability1::from(read_u32(slice, 4));
        let port_vc_capability_2 = PortVcCapability2::from(read_u32(slice, 8));
        let port_vc_control = PortVcControl::from(read_u16(slice, 12));
        let port_vc_status = PortVcStatus::from(read_u16(slice, 14));
        let vat_offset = port_vc_capability_2.vc_arbitration_table_offset;
        let vc_arbitration_table = if vat_offset == 0 {
            None
        } else if vat_offset < 2 {
            return Err(MultifunctionVirtualChannelError::VcArbitrationTableOffset);
        } else {
            let offset = vat_offset as usize * DQWORD;
            if offset > slice.len() {
                return Err(MultifunctionVirtualChannelError::VcArbitrationTableData);
            }
            let number_of_entries = port_vc_control.vc_arbitration_select.vc_arbitration_table_length();
            let length = number_of_entries * 4 / 8;
            if offset + length > slice.len() {
                return Err(
                    MultifunctionVirtualChannelError::VcArbitrationTableLength {
                        expected: length,
                        real: slice.len() - offset,
                    },
                );
            }
            Some(VcArbitrationTable::new(&slice[offset..offset + length]))
        };
        let entry_size = port_vc_capability_1.function_arbitration_table_entry_size;
        proof {
            vstd::arithmetic::power2::lemma2_to64();
        }
        Ok(MultifunctionVirtualChannel {
            extended_virtual_channels: ExtendedVirtualChannels::new(
                slice,
                port_vc_capability_1.extended_vc_count,
                entry_size.bits(),
            ),
            port_vc_capability_1,
            port_vc_capability_2,
            port_vc_control,
            port_vc_status,
            vc_arbitration_table,
        })
    }
}

impl<'a> vstd::std_specs::convert::TryFromSpecImpl<&'a [u8]> for MultifunctionVirtualChannel<'a> {
    open spec fn obeys_try_from_spec() -> bool {
        false
    }

    open spec fn try_from_spec(slice: &'a [u8]) -> Result<Self, Self::Error> {
        arbitrary()
    }
}

impl<'a> TryFrom<&'a [u8]> for MultifunctionVirtualChannel<'a> {
    type Error = MultifunctionVirtualChannelError;

    fn try_from(slice: &'a [u8]) -> (r: Result<Self, Self::Error>)
        ensures
            Self::spec_parse(slice@, r),
    {
        Self::parse(slice)
    }
}

/// Port VC Capability 1: the Virtual Channels of the Port of the Multi-Function Device
#[derive(Debug, Clone, PartialEq, Eq)]
pub struct PortVcCapability1 {
    /// Number of Virtual Channels besides the default one
    pub extended_vc_count: u8,
    /// Number of those that belong to the low-priority VC group
    pub low_priority_extended_vc_count: u8,
    /// Reference clock of time-based WRR Function Arbitration
    pub reference_clock: ReferenceClock,
    /// Size of a Function Arbitration Table entry
    pub function_arbitration_table_entry_size: FunctionArbitrationTableEntrySize,
}

impl PortVcCapability1 {
    /// The fields of the register value `dword`.
    pub open spec fn spec_from(dword: u32) -> Self {
        PortVcCapability1 {
            extended_vc_count: field(dword, 0, 0x7) as u8,
            low_priority_extended_vc_count: field(dword, 4, 0x7) as u8,
            reference_clock: ReferenceClock::spec_from(field(dword, 8, 0x3) as u8),
            function_arbitration_table_entry_size: FunctionArbitrationTableEntrySize(field(dword, 10, 0x3) as u8),
        }
    }
}

impl vstd::std_specs::convert::FromSpecImpl<u32> for PortVcCapability1 {
    open spec fn obeys_from_spec() -> bool {
        true
    }

    open spec fn from_spec(dword: u32) -> Self {
        Self::spec_from(dword)
    }
}

impl From<u32> for PortVcCapability1 {
    fn from(dword: u32) -> (r: Self) {
        PortVcCapability1 {
            extended_vc_count: get_u8(dword, 0, 0x7),
            low_priority_extended_vc_count: get_u8(dword, 4, 0x7),
            reference_clock: ReferenceClock::from(get_u8(dword, 8, 0x3)),
            function_arbitration_table_entry_size: FunctionArbitrationTableEntrySize(get_u8(dword, 10, 0x3)),
        }
    }
}

/// Function Arbitration Table Entry Size: an entry has 2 to the power of the field bits
#[derive(Debug, Clone, Copy, PartialEq, Eq)]
pub struct FunctionArbitrationTableEntrySize(pub u8);

impl FunctionArbitrationTableEntrySize {
    /// The size of an entry in bits.
    pub fn bits(&self) -> (r: usize)
        requires
            self.0 < 32,
        ensures
            r == pow2(self.0 as nat),
    {
        pow2_usize(self.0 as u32)
    }
}

impl vstd::std_specs::convert::FromSpecImpl<u8> for FunctionArbitrationTableEntrySize {
    open spec fn obeys_from_spec() -> bool {
        true
    }

    open spec fn from_spec(byte: u8) -> Self {
        FunctionArbitrationTableEntrySize(byte)
    }
}

impl From<u8> for FunctionArbitrationTableEntrySize {
    fn from(byte: u8) -> (r: Self) {
        FunctionArbitrationTableEntrySize(byte)
    }
}

/// The Extended Virtual Channels of the capability, read one after another: the default one
/// and `Extended VC Count` more
#[derive(Debug, Clone, PartialEq, Eq)]
pub struct ExtendedVirtualChannels<'a> {
    data: &'a [u8],
    count: u8,
    fat_entry_bits: usize,
    offset: usize,
}

/// Whether `evc` is the Extended Virtual Channel whose registers start at `offset` in `data`,
/// the capability data from its header on, with Function Arbitration Table entries of
/// `bits` bits. Its table is there where the table offset is at least 2 and the data holds
/// the whole table.
pub open spec fn spec_is_evc_at(
    evc: ExtendedVirtualChannel,
    data: Seq<u8>,
    bits: usize,
    offset: int,
) -> bool {
    let cap = VcResourceCapability::spec_from(le_u32(data, offset));
    let control = VcResourceControl::spec_from(le_u32(data, offset + 4));
    let fat_offset = cap.function_arbitration_table_offset * 16;
    let length = bits * control.function_arbitration_select.spec_function_arbitration_table_length()
        / 8;
    &&& evc.vc_resource_capability == cap
    &&& evc.vc_resource_control == control
    &&& evc.vc_resource_status == VcResourceStatus::spec_from(le_u16(data, offset + 10))
    &&& if cap.function_arbitration_table_offset >= 2 && fat_offset + length <= data.len() {
        evc.function_arbitration_table matches Some(t) && t.spec_data() == data.subrange(
            fat_offset as int,
            fat_offset + length,
        ) && t.spec_entry_size_bits() == bits && t.spec_shift() == 0 && t.spec_byte() == 0
    } else {
        evc.function_arbitration_table is None
    }
}

/// The number of Extended Virtual Channels that reading gives from `len` bytes of data, with
/// `count` channels left and the next one at `offset`: as many as are left, but no more than
/// whole 12-byte register blocks fit from the offset on.
pub open spec fn evc_count(offset: int, count: int, len: int) -> int {
    if offset + 12 > len {
        0
    } else if count <= (len - offset) / 12 {
        count
    } else {
        (len - offset) / 12
    }
}

proof fn lemma_evc_count(offset: int, count: int, len: int, n: int)
    requires
        0 <= n <= count,
        offset + 12 * n <= len || n == 0,
        n == count || offset + 12 * (n + 1) > len,
    ensures
        n == evc_count(offset, count, len),
{
    if offset + 12 <= len {
        if n < count {
            assert(offset + 12 * n <= len);
            assert(n == (len - offset) / 12);
        } else {
            assert(n <= (len - offset) / 12);
        }
    }
}

impl<'a> ExtendedVirtualChannels<'a> {
    /// The capability data, from its header on.
    pub closed spec fn spec_data(&self) -> Seq<u8> {
        self.data@
    }

    /// The number of Extended Virtual Channels that are not read yet.
    pub closed spec fn spec_count(&self) -> u8 {
        self.count
    }

    /// The size of a Function Arbitration Table entry in bits.
    pub closed spec fn spec_fat_entry_bits(&self) -> usize {
        self.fat_entry_bits
    }

    /// Where the registers of the next Extended Virtual Channel start.
    pub closed spec fn spec_offset(&self) -> usize {
        self.offset
    }

    /// Whether the reading position and the table entry size keep the arithmetic of reading
    /// within `usize`.
    pub closed spec fn wf(&self) -> bool {
        &&& self.offset + 12 * self.count <= 0x10 + 12 * 256
        &&& self.fat_entry_bits * 256 <= usize::MAX
    }

    /// The default Extended Virtual Channel and `extended_vc_count` more in `data`, the
    /// capability data from its header on, whose Function Arbitration Table entries have
    /// `fat_entry_bits` bits; the first starts at 10h.
    pub fn new(data: &'a [u8], extended_vc_count: u8, fat_entry_bits: usize) -> (r: Self)
        requires
            extended_vc_count < 255,
            fat_entry_bits * 256 <= usize::MAX,
        ensures
            r.spec_data() == data@,
            r.spec_count() == extended_vc_count + 1,
            r.spec_fat_entry_bits() == fat_entry_bits,
            r.spec_offset() == 0x10,
            r.wf(),
    {
        ExtendedVirtualChannels { data, count: extended_vc_count + 1, fat_entry_bits, offset: 0x10 }
    }

    /// Reads the next Extended Virtual Channel, unless none is left or the data ends before its
    /// registers.
    pub fn next(&mut self) -> (r: Option<ExtendedVirtualChannel<'a>>)
        requires
            old(self).wf(),
        ensures
            final(self).wf(),
            old(self).spec_count() == 0 || old(self).spec_offset() + 12 > old(self).spec_data().len()
                ==> r is None && *final(self) == *old(self),
            old(self).spec_count() > 0 && old(self).spec_offset() + 12 <= old(
                self,
            ).spec_data().len() ==> {
                &&& r matches Some(evc) && spec_is_evc_at(
                    evc,
                    old(self).spec_data(),
                    old(self).spec_fat_entry_bits(),
                    old(self).spec_offset() as int,
                )
                &&& final(self).spec_data() == old(self).spec_data()
                &&& final(self).spec_fat_entry_bits() == old(self).spec_fat_entry_bits()
                &&& final(self).spec_count() == old(self).spec_count() - 1
                &&& final(self).spec_offset() == old(self).spec_offset() + 12
            },
    {
        if self.count == 0 || self.offset + ExtendedVirtualChannel::SIZE > self.data.len() {
            return None;
        }
        let data = self.data;
        let offset = self.offset;
        let cap = VcResourceCapability::from(read_u32(data, offset));
        let control = VcResourceControl::from(read_u32(data, offset + 4));
        let status = VcResourceStatus::from(read_u16(data, offset + 10));
        let fat_offset = cap.function_arbitration_table_offset as usize * DQWORD;
        let length = self.fat_entry_bits
            * control.function_arbitration_select.function_arbitration_table_length() / 8;
        let function_arbitration_table = if cap.function_arbitration_table_offset >= 2 && fat_offset
            + length <= data.len() {
            Some(FunctionArbitrationTable::new(&data[fat_offset..fat_offset + length], self.fat_entry_bits))
        } else {
            None
        };
        self.count = self.count - 1;
        self.offset = self.offset + ExtendedVirtualChannel::SIZE;
        Some(
            ExtendedVirtualChannel {
                vc_resource_capability: cap,
                vc_resource_control: control,
                vc_resource_status: status,
                function_arbitration_table,
            },
        )
    }

    /// Reads the Extended Virtual Channels until none is left or the data ends.
    pub fn entries(&mut self) -> (r: Vec<ExtendedVirtualChannel<'a>>)
        requires
            old(self).wf(),
        ensures
            final(self).wf(),
            r.len() <= old(self).spec_count(),
            old(self).spec_offset() + 12 * r.len() <= old(self).spec_data().len() || r.len() == 0,
            r.len() == old(self).spec_count() || old(self).spec_offset() + 12 * (r.len() + 1)
                > old(self).spec_data().len(),
            r.len() == evc_count(
                old(self).spec_offset() as int,
                old(self).spec_count() as int,
                old(self).spec_data().len() as int,
            ),
            forall|i: int|
                0 <= i < r.len() ==> #[trigger] spec_is_evc_at(
                    r[i],
                    old(self).spec_data(),
                    old(self).spec_fat_entry_bits(),
                    old(self).spec_offset() + 12 * i,
                ),
    {
        let mut r: Vec<ExtendedVirtualChannel<'a>> = Vec::new();
        loop
            invariant
                self.wf(),
                self.spec_data() == old(self).spec_data(),
                self.spec_fat_entry_bits() == old(self).spec_fat_entry_bits(),
                r.len() + self.spec_count() == old(self).spec_count(),
                self.spec_offset() == old(self).spec_offset() + 12 * r.len(),
                old(self).spec_offset() + 12 * r.len() <= old(self).spec_data().len() || r.len() == 0,
                forall|i: int|
                    0 <= i < r.len() ==> #[trigger] spec_is_evc_at(
                        r[i],
                        old(self).spec_data(),
                        old(self).spec_fat_entry_bits(),
                        old(self).spec_offset() + 12 * i,
                    ),
            ensures
                self.wf(),
                r.len() <= old(self).spec_count(),
                old(self).spec_offset() + 12 * r.len() <= old(self).spec_data().len() || r.len() == 0,
                r.len() == old(self).spec_count() || old(self).spec_offset() + 12 * (r.len() + 1)
                    > old(self).spec_data().len(),
                forall|i: int|
                    0 <= i < r.len() ==> #[trigger] spec_is_evc_at(
                        r[i],
                        old(self).spec_data(),
                        old(self).spec_fat_entry_bits(),
                        old(self).spec_offset() + 12 * i,
                    ),
            decreases self.spec_count(),
        {
            match self.next() {
                Some(e) => r.push(e),
                None => {
                    proof {
                        lemma_evc_count(
                            old(self).spec_offset() as int,
                            old(self).spec_count() as int,
                            old(self).spec_data().len() as int,
                            r.len() as int,
                        );
                    }
                    return r;
                },
            }
        }
    }
}

/// Extended Virtual Channel: the VC resource registers of one Virtual Channel
#[derive(Debug, Clone, PartialEq, Eq)]
pub struct ExtendedVirtualChannel<'a> {
    pub vc_resource_capability: VcResourceCapability,
    pub vc_resource_control: VcResourceControl,
    pub vc_resource_status: VcResourceStatus,
    pub function_arbitration_table: Option<FunctionArbitrationTable<'a>>,
}

impl<'a> ExtendedVirtualChannel<'a> {
    /// VC Resource Capability, VC Resource Control, a reserved word and VC Resource Status
    pub const SIZE: usize = 4 + 4 + 2 + 2;

    /// The registers that the bytes `data` hold, without a Function Arbitration Table.
    pub open spec fn spec_from_bytes(data: [u8; 12]) -> Self {
        ExtendedVirtualChannel {
            vc_resource_capability: VcResourceCapability::spec_from(le_u32(data@, 0)),
            vc_resource_control: VcResourceControl::spec_from(le_u32(data@, 4)),
            vc_resource_status: VcResourceStatus::spec_from(le_u16(data@, 10)),
            function_arbitration_table: None,
        }
    }

    /// The bytes of the registers: both double words and the status word little-endian, the
    /// reserved word zero.
    pub open spec fn spec_to_bytes(self) -> [u8; 12] {
        let cap = self.vc_resource_capability.spec_to_bits();
        let ctrl = self.vc_resource_control.spec_to_bits();
        let st = self.vc_resource_status.spec_to_bits();
        [
            cap as u8,
            (cap >> 8u32) as u8,
            (cap >> 16u32) as u8,
            (cap >> 24u32) as u8,
            ctrl as u8,
            (ctrl >> 8u32) as u8,
            (ctrl >> 16u32) as u8,
            (ctrl >> 24u32) as u8,
            0,
            0,
            st as u8,
            (st >> 8u16) as u8,
        ]
    }
}

impl<'a> vstd::std_specs::convert::FromSpecImpl<[u8; 12]> for ExtendedVirtualChannel<'a> {
    open spec fn obeys_from_spec() -> bool {
        true
    }

    open spec fn from_spec(data: [u8; 12]) -> Self {
        Self::spec_from_bytes(data)
    }
}

impl<'a> From<[u8; 12]> for ExtendedVirtualChannel<'a> {
    fn from(data: [u8; 12]) -> (r: Self) {
        let s = data.as_slice();
        ExtendedVirtualChannel {
            vc_resource_capability: VcResourceCapability::from(read_u32(s, 0)),
            vc_resource_control: VcResourceControl::from(read_u32(s, 4)),
            vc_resource_status: VcResourceStatus::from(read_u16(s, 10)),
            function_arbitration_table: None,
        }
    }
}

impl<'a> vstd::std_specs::convert::FromSpecImpl<ExtendedVirtualChannel<'a>> for [u8; 12] {
    open spec fn obeys_from_spec() -> bool {
        true
    }

    open spec fn from_spec(evc: ExtendedVirtualChannel<'a>) -> Self {
        evc.spec_to_bytes()
    }
}

impl<'a> From<ExtendedVirtualChannel<'a>> for [u8; 12] {
    fn from(evc: ExtendedVirtualChannel<'a>) -> (r: Self) {
        let cap = u32::from(evc.vc_resource_capability);
        let ctrl = u32::from(evc.vc_resource_control);
        let st = u16::from(evc.vc_resource_status);
        [
            cap as u8,
            (cap >> 8u32) as u8,
            (cap >> 16u32) as u8,
            (cap >> 24u32) as u8,
            ctrl as u8,
            (ctrl >> 8u32) as u8,
            (ctrl >> 16u32) as u8,
            (ctrl >> 24u32) as u8,
            0,
            0,
            st as u8,
            (st >> 8u16) as u8,
        ]
    }
}

/// One for a set flag, zero otherwise.
pub open spec fn bit(b: bool) -> u8 {
    if b {
        1
    } else {
        0
    }
}

fn to_bit(b: bool) -> (r: u8)
    ensures
        r == bit(b),
{
    if b {
        1
    } else {
        0
    }
}

/// VC Resource Capability register: the capabilities of one Virtual Channel resource
#[derive(Debug, Clone, PartialEq, Eq)]
pub struct VcResourceCapability {
    pub function_arbitration_capability: FunctionArbitrationCapability,
    /// The maximum number of time slots (minus 1) for time-based WRR Function Arbitration
    pub maximum_time_slots: u8,
    /// The offset of the Function Arbitration Table, in units of 16 bytes
    pub function_arbitration_table_offset: u8,
}

impl VcResourceCapability {
    /// The fields of the register value `dword`.
    pub open spec fn spec_from(dword: u32) -> Self {
        VcResourceCapability {
            function_arbitration_capability: FunctionArbitrationCapability::spec_from(
                field(dword, 0, 0xff) as u8,
            ),
            maximum_time_slots: field(dword, 16, 0x7f) as u8,
            function_arbitration_table_offset: field(dword, 24, 0xff) as u8,
        }
    }

    /// The register value: the capability byte, the time slots in the third byte and the
    /// table offset in the fourth.
    pub open spec fn spec_to_bits(self) -> u32 {
        (self.function_arbitration_capability.spec_to_bits() as u32) | (self.maximum_time_slots
            as u32) << 16u32 | (self.function_arbitration_table_offset as u32) << 24u32
    }
}

impl vstd::std_specs::convert::FromSpecImpl<u32> for VcResourceCapability {
    open spec fn obeys_from_spec() -> bool {
        true
    }

    open spec fn from_spec(dword: u32) -> Self {
        Self::spec_from(dword)
    }
}

impl From<u32> for VcResourceCapability {
    fn from(dword: u32) -> (r: Self) {
        VcResourceCapability {
            function_arbitration_capability: FunctionArbitrationCapability::decode(
                get_u8(dword, 0, 0xff),
            ),
            maximum_time_slots: get_u8(dword, 16, 0x7f),
            function_arbitration_table_offset: get_u8(dword, 24, 0xff),
        }
    }
}

impl vstd::std_specs::convert::FromSpecImpl<VcResourceCapability> for u32 {
    open spec fn obeys_from_spec() -> bool {
        true
    }

    open spec fn from_spec(cap: VcResourceCapability) -> Self {
        cap.spec_to_bits()
    }
}

impl From<VcResourceCapability> for u32 {
    fn from(cap: VcResourceCapability) -> (r: Self) {
        (u8::from(cap.function_arbitration_capability) as u32) | (cap.maximum_time_slots as u32)
            << 16u32 | (cap.function_arbitration_table_offset as u32) << 24u32
    }
}

/// The Function Arbitration schemes that the VC resource supports
#[derive(Debug, Clone, PartialEq, Eq)]
pub struct FunctionArbitrationCapability {
    /// Non-configurable hardware-fixed arbitration, such as Round Robin
    pub hardware_fixed_arbitration: bool,
    /// Weighted Round Robin (WRR) arbitration with 32 phases
    pub wrr_32_phases: bool,
    /// WRR arbitration with 64 phases
    pub wrr_64_phases: bool,
    /// WRR arbitration with 128 phases
    pub wrr_128_phases: bool,
    /// Time-based WRR with 128 phases
    pub time_based_wrr_128_phases: bool,
    /// WRR arbitration with 256 phases
    pub wrr_256_phases: bool,
    /// Bits 6 and 7, reserved
    pub reserved: u8,
}

impl FunctionArbitrationCapability {
    /// The fields of the byte `byte`.
    pub open spec fn spec_from(byte: u8) -> Self {
        FunctionArbitrationCapability {
            hardware_fixed_arbitration: flag(byte as u32, 0),
            wrr_32_phases: flag(byte as u32, 1),
            wrr_64_phases: flag(byte as u32, 2),
            wrr_128_phases: flag(byte as u32, 3),
            time_based_wrr_128_phases: flag(byte as u32, 4),
            wrr_256_phases: flag(byte as u32, 5),
            reserved: field(byte as u32, 6, 0x3) as u8,
        }
    }

    fn decode(byte: u8) -> (r: Self)
        ensures
            r == Self::spec_from(byte),
    {
        let w = byte as u32;
        FunctionArbitrationCapability {
            hardware_fixed_arbitration: get_flag(w, 0),
            wrr_32_phases: get_flag(w, 1),
            wrr_64_phases: get_flag(w, 2),
            wrr_128_phases: get_flag(w, 3),
            time_based_wrr_128_phases: get_flag(w, 4),
            wrr_256_phases: get_flag(w, 5),
            reserved: get_u8(w, 6, 0x3),
        }
    }

    /// The byte: the flags in bits 0 to 5 and the reserved field from bit 6.
    pub open spec fn spec_to_bits(self) -> u8 {
        bit(self.hardware_fixed_arbitration) | bit(self.wrr_32_phases) << 1u8 | bit(
            self.wrr_64_phases,
        ) << 2u8 | bit(self.wrr_128_phases) << 3u8 | bit(self.time_based_wrr_128_phases) << 4u8
            | bit(self.wrr_256_phases) << 5u8 | self.reserved << 6u8
    }
}

impl vstd::std_specs::convert::FromSpecImpl<FunctionArbitrationCapability> for u8 {
    open spec fn obeys_from_spec() -> bool {
        true
    }

    open spec fn from_spec(fac: FunctionArbitrationCapability) -> Self {
        fac.spec_to_bits()
    }
}

impl From<FunctionArbitrationCapability> for u8 {
    fn from(fac: FunctionArbitrationCapability) -> (r: Self) {
        to_bit(fac.hardware_fixed_arbitration) | to_bit(fac.wrr_32_phases) << 1u8 | to_bit(
            fac.wrr_64_phases,
        ) << 2u8 | to_bit(fac.wrr_128_phases) << 3u8 | to_bit(fac.time_based_wrr_128_phases) << 4u8
            | to_bit(fac.wrr_256_phases) << 5u8 | fac.reserved << 6u8
    }
}

/// VC Resource Control register
#[derive(Debug, Clone, PartialEq, Eq)]
pub struct VcResourceControl {
    /// The TCs that are mapped to the VC resource
    pub tc_to_vc_map: u8,
    /// Loads the Function Arbitration logic from the Function Arbitration Table
    pub load_function_arbitration_table: bool,
    pub function_arbitration_select: FunctionArbitrationSelect,
    /// The VC ID of the VC resource
    pub vc_id: u8,
    /// Enables the Virtual Channel
    pub vc_enable: bool,
}

impl VcResourceControl {
    /// The fields of the register value `dword`.
    pub open spec fn spec_from(dword: u32) -> Self {
        VcResourceControl {
            tc_to_vc_map: field(dword, 0, 0xff) as u8,
            load_function_arbitration_table: flag(dword, 16),
            function_arbitration_select: FunctionArbitrationSelect::spec_from(
                field(dword, 17, 0x7) as u8,
            ),
            vc_id: field(dword, 24, 0x7) as u8,
            vc_enable: flag(dword, 31),
        }
    }

    /// The register value: the TC/VC map in the first byte, the load flag and the select
    /// field in the third, the VC ID and the enable flag in the fourth.
    pub open spec fn spec_to_bits(self) -> u32 {
        (self.tc_to_vc_map as u32) | (((bit(self.load_function_arbitration_table) | (
        self.function_arbitration_select.spec_to_bits() << 1u8)) as u32) << 16u32) | (((self.vc_id
            | (bit(self.vc_enable) << 7u8)) as u32) << 24u32)
    }
}

impl vstd::std_specs::convert::FromSpecImpl<u32> for VcResourceControl {
    open spec fn obeys_from_spec() -> bool {
        true
    }

    open spec fn from_spec(dword: u32) -> Self {
        Self::spec_from(dword)
    }
}

impl From<u32> for VcResourceControl {
    fn from(dword: u32) -> (r: Self) {
        VcResourceControl {
            tc_to_vc_map: get_u8(dword, 0, 0xff),
            load_function_arbitration_table: get_flag(dword, 16),
            function_arbitration_select: FunctionArbitrationSelect::from(get_u8(dword, 17, 0x7)),
            vc_id: get_u8(dword, 24, 0x7),
            vc_enable: get_flag(dword, 31),
        }
    }
}

impl vstd::std_specs::convert::FromSpecImpl<VcResourceControl> for u32 {
    open spec fn obeys_from_spec() -> bool {
        true
    }

    open spec fn from_spec(ctrl: VcResourceControl) -> Self {
        ctrl.spec_to_bits()
    }
}

impl From<VcResourceControl> for u32 {
    fn from(ctrl: VcResourceControl) -> (r: Self) {
        (ctrl.tc_to_vc_map as u32) | (((to_bit(ctrl.load_function_arbitration_table) | (u8::from(
            ctrl.function_arbitration_select,
        ) << 1u8)) as u32) << 16u32) | (((ctrl.vc_id | (to_bit(ctrl.vc_enable) << 7u8)) as u32)
            << 24u32)
    }
}

/// The Function Arbitration scheme in use, one of those that the VC resource supports
#[derive(Debug, Clone, Copy, PartialEq, Eq)]
pub enum FunctionArbitrationSelect {
    /// Non-configurable hardware-fixed arbitration
    HardwareFixedArbitration,
    /// WRR arbitration with 32 phases
    Wrr32phases,
    /// WRR arbitration with 64 phases
    Wrr64phases,
    /// WRR arbitration with 128 phases
    Wrr128phases,
    /// Time-based WRR with 128 phases
    TimeBasedWrr128phases,
    /// WRR arbitration with 256 phases
    Wrr256phases,
    Reserved(u8),
}

impl FunctionArbitrationSelect {
    /// The value that `byte` encodes.
    pub open spec fn spec_from(byte: u8) -> Self {
        match byte {
            0b000 => Self::HardwareFixedArbitration,
            0b001 => Self::Wrr32phases,
            0b010 => Self::Wrr64phases,
            0b011 => Self::Wrr128phases,
            0b100 => Self::TimeBasedWrr128phases,
            0b101 => Self::Wrr256phases,
            _ => Self::Reserved(byte),
        }
    }
}

impl FunctionArbitrationSelect {
    /// The register field that encodes the value.
    pub open spec fn spec_to_bits(self) -> u8 {
        match self {
            FunctionArbitrationSelect::HardwareFixedArbitration => 0b000,
            FunctionArbitrationSelect::Wrr32phases => 0b001,
            FunctionArbitrationSelect::Wrr64phases => 0b010,
            FunctionArbitrationSelect::Wrr128phases => 0b011,
            FunctionArbitrationSelect::TimeBasedWrr128phases => 0b100,
            FunctionArbitrationSelect::Wrr256phases => 0b101,
            FunctionArbitrationSelect::Reserved(v) => v,
        }
    }
}

impl vstd::std_specs::convert::FromSpecImpl<FunctionArbitrationSelect> for u8 {
    open spec fn obeys_from_spec() -> bool {
        true
    }

    open spec fn from_spec(value: FunctionArbitrationSelect) -> Self {
        value.spec_to_bits()
    }
}

impl From<FunctionArbitrationSelect> for u8 {
    fn from(value: FunctionArbitrationSelect) -> (r: Self) {
        match value {
            FunctionArbitrationSelect::HardwareFixedArbitration => 0b000,
            FunctionArbitrationSelect::Wrr32phases => 0b001,
            FunctionArbitrationSelect::Wrr64phases => 0b010,
            FunctionArbitrationSelect::Wrr128phases => 0b011,
            FunctionArbitrationSelect::TimeBasedWrr128phases => 0b100,
            FunctionArbitrationSelect::Wrr256phases => 0b101,
            FunctionArbitrationSelect::Reserved(v) => v,
        }
    }
}

/// Encoding a decoded FunctionArbitrationSelect field gives back the field.
pub proof fn lemma_function_arbitration_select_roundtrip(byte: u8)
    ensures
        FunctionArbitrationSelect::spec_from(byte).spec_to_bits() == byte,
{
}

impl vstd::std_specs::convert::FromSpecImpl<u8> for FunctionArbitrationSelect {
    open spec fn obeys_from_spec() -> bool {
        true
    }

    open spec fn from_spec(byte: u8) -> Self {
        Self::spec_from(byte)
    }
}

impl From<u8> for FunctionArbitrationSelect {
    fn from(byte: u8) -> (r: Self) {
        match byte {
            0b000 => Self::HardwareFixedArbitration,
            0b001 => Self::Wrr32phases,
            0b010 => Self::Wrr64phases,
            0b011 => Self::Wrr128phases,
            0b100 => Self::TimeBasedWrr128phases,
            0b101 => Self::Wrr256phases,
            _ => Self::Reserved(byte),
        }
    }
}

impl FunctionArbitrationSelect {
    /// The number of entries of the Function Arbitration Table for the scheme.
    pub open spec fn spec_function_arbitration_table_length(&self) -> usize {
        match self {
            Self::Wrr32phases => 32,
            Self::Wrr64phases => 64,
            Self::Wrr128phases => 128,
            Self::TimeBasedWrr128phases => 128,
            Self::Wrr256phases => 256,
            _ => 0,
        }
    }

    /// The number of entries of the Function Arbitration Table for the scheme.
    pub fn function_arbitration_table_length(&self) -> (r: usize)
        ensures
            r == self.spec_function_arbitration_table_length(),
    {
        match self {
            Self::Wrr32phases => 32,
            Self::Wrr64phases => 64,
            Self::Wrr128phases => 128,
            Self::TimeBasedWrr128phases => 128,
            Self::Wrr256phases => 256,
            _ => 0,
        }
    }
}

/// VC Resource Status register
#[derive(Debug, Clone, PartialEq, Eq)]
pub struct VcResourceStatus {
    /// Coherency status of the Function Arbitration Table of the VC resource
    pub function_arbitration_table_status: bool,
    /// Whether Virtual Channel negotiation (initialization or disabling) is pending
    pub vc_negotiation_pending: bool,
}

impl VcResourceStatus {
    /// The fields of the register value `word`.
    pub open spec fn spec_from(word: u16) -> Self {
        VcResourceStatus {
            function_arbitration_table_status: flag(word as u32, 0),
            vc_negotiation_pending: flag(word as u32, 1),
        }
    }

    /// The register value: the two flags in bits 0 and 1.
    pub open spec fn spec_to_bits(self) -> u16 {
        (bit(self.function_arbitration_table_status) | bit(self.vc_negotiation_pending) << 1u8) as u16
    }
}

impl vstd::std_specs::convert::FromSpecImpl<u16> for VcResourceStatus {
    open spec fn obeys_from_spec() -> bool {
        true
    }

    open spec fn from_spec(word: u16) -> Self {
        Self::spec_from(word)
    }
}

impl From<u16> for VcResourceStatus {
    fn from(word: u16) -> (r: Self) {
        let w = word as u32;
        VcResourceStatus {
            function_arbitration_table_status: get_flag(w, 0),
            vc_negotiation_pending: get_flag(w, 1),
        }
    }
}

impl vstd::std_specs::convert::FromSpecImpl<VcResourceStatus> for u16 {
    open spec fn obeys_from_spec() -> bool {
        true
    }

    open spec fn from_spec(st: VcResourceStatus) -> Self {
        st.spec_to_bits()
    }
}

impl From<VcResourceStatus> for u16 {
    fn from(st: VcResourceStatus) -> (r: Self) {
        (to_bit(st.function_arbitration_table_status) | to_bit(st.vc_negotiation_pending) << 1u8) as u16
    }
}

/// An entry of a Function Arbitration Table: the Function Number that a phase serves
#[derive(Debug, Clone, Copy, PartialEq, Eq)]
pub struct FunctionArbitrationTableEntry(pub u8);

/// The Function Arbitration Table of a VC resource: the WRR or time-based WRR table of
/// Function Arbitration, read entry by entry. Entries narrower than a byte are taken from the
/// low bits of each byte up.
#[derive(Debug, Clone, PartialEq, Eq)]
pub struct FunctionArbitrationTable<'a> {
    data: &'a [u8],
    entry_size_bits: usize,
    shift: usize,
    byte: u8,
}

/// One step of reading a Function Arbitration Table: the bytes not read yet `data`, entries
/// of `bits` bits, the position `shift` within the byte `byte` that is being read. An entry
/// of 8 bits is a byte; a narrower one is read from the current byte at `shift`, and a new
/// byte is taken where `shift` is 0. Gives the entry and the new state, or nothing once the
/// bytes are used up.
pub open spec fn fat_step(data: Seq<u8>, bits: usize, shift: usize, byte: u8) -> Option<
    (FunctionArbitrationTableEntry, Seq<u8>, usize, u8),
> {
    if bits == 8 {
        if data.len() == 0 {
            None
        } else {
            Some((FunctionArbitrationTableEntry(data[0]), data.skip(1), shift, byte))
        }
    } else if shift == 0 && data.len() == 0 {
        None
    } else {
        let b = if shift == 0 {
            data[0]
        } else {
            byte
        };
        let rest = if shift == 0 {
            data.skip(1)
        } else {
            data
        };
        let mask: u8 = (!(0xffu8 << bits)) << shift;
        Some((FunctionArbitrationTableEntry((b & mask) >> shift), rest, ((shift + bits) % 8) as usize, b))
    }
}

/// The entries that at most `fuel` steps of reading give, from the state `data`, `bits`,
/// `shift`, `byte` (see `fat_step`), until the bytes are used up.
pub open spec fn fat_collect(data: Seq<u8>, bits: usize, shift: usize, byte: u8, fuel: nat) -> Seq<
    FunctionArbitrationTableEntry,
>
    decreases fuel,
{
    if fuel == 0 {
        seq![]
    } else {
        match fat_step(data, bits, shift, byte) {
            None => seq![],
            Some((e, d, s, b)) => seq![e] + fat_collect(d, bits, s, b, (fuel - 1) as nat),
        }
    }
}

impl<'a> FunctionArbitrationTable<'a> {
    /// The bytes that are not read yet.
    pub closed spec fn spec_data(&self) -> Seq<u8> {
        self.data@
    }

    /// The size of an entry in bits.
    pub closed spec fn spec_entry_size_bits(&self) -> usize {
        self.entry_size_bits
    }

    /// The position of the next entry within the current byte.
    pub closed spec fn spec_shift(&self) -> usize {
        self.shift
    }

    /// The byte that is being read.
    pub closed spec fn spec_byte(&self) -> u8 {
        self.byte
    }

    /// Whether the entry size is at most a byte, as reading needs, and the position lies
    /// within a byte.
    pub open spec fn wf(&self) -> bool {
        self.spec_entry_size_bits() <= 8 && self.spec_shift() < 8
    }

    /// The table that `data` holds, with entries of `entry_size_bits` bits.
    pub fn new(data: &'a [u8], entry_size_bits: usize) -> (r: Self)
        ensures
            r.spec_data() == data@,
            r.spec_entry_size_bits() == entry_size_bits,
            r.spec_shift() == 0,
            r.spec_byte() == 0,
    {
        FunctionArbitrationTable { data, entry_size_bits, shift: 0, byte: 0 }
    }

    /// Reads the next entry (see `fat_step`).
    pub fn next(&mut self) -> (r: Option<FunctionArbitrationTableEntry>)
        requires
            old(self).wf(),
        ensures
            final(self).wf(),
            final(self).spec_entry_size_bits() == old(self).spec_entry_size_bits(),
            match fat_step(
                old(self).spec_data(),
                old(self).spec_entry_size_bits(),
                old(self).spec_shift(),
                old(self).spec_byte(),
            ) {
                None => r is None && *final(self) == *old(self),
                Some((e, d, s, b)) => r == Some(e) && final(self).spec_data() == d
                    && final(self).spec_shift() == s && final(self).spec_byte() == b,
            },
    {
        if self.entry_size_bits == 8 {
            if self.data.len() == 0 {
                return None;
            }
            let v = self.data[0];
            self.data = &self.data[1..self.data.len()];
            assert(self.data@ == old(self).data@.skip(1));
            return Some(FunctionArbitrationTableEntry(v));
        }
        if self.shift == 0 {
            if self.data.len() == 0 {
                return None;
            }
            self.byte = self.data[0];
            self.data = &self.data[1..self.data.len()];
            assert(self.data@ == old(self).data@.skip(1));
        }
        let init_mask: u8 = !(u8::MAX << self.entry_size_bits);
        let mask: u8 = init_mask << self.shift;
        let result = (self.byte & mask) >> self.shift;
        self.shift = (self.shift + self.entry_size_bits) % 8;
        Some(FunctionArbitrationTableEntry(result))
    }

    /// Reads the entries until the bytes are used up: each byte gives at most 8 entries.
    pub fn entries(&mut self) -> (r: Vec<FunctionArbitrationTableEntry>)
        requires
            old(self).wf(),
            old(self).spec_data().len() * 8 + 1 <= usize::MAX,
        ensures
            r@ == fat_collect(
                old(self).spec_data(),
                old(self).spec_entry_size_bits(),
                old(self).spec_shift(),
                old(self).spec_byte(),
                (old(self).spec_data().len() * 8 + 1) as nat,
            ),
            ({
                let bits = old(self).spec_entry_size_bits();
                (bits == 1 || bits == 2 || bits == 4 || bits == 8) && old(self).spec_shift() == 0
                    && old(self).spec_byte() == 0 ==> r@ == fat_entries(
                    old(self).spec_data(),
                    bits as nat,
                )
            }),
    {
        proof {
            let bits = self.entry_size_bits;
            if (bits == 1 || bits == 2 || bits == 4 || bits == 8) && self.shift == 0 && self.byte == 0 {
                lemma_function_arbitration_table_entries(self.data@, bits);
            }
        }
        let mut fuel: usize = self.data.len() * 8 + 1;
        let ghost total = fuel as nat;
        let mut r: Vec<FunctionArbitrationTableEntry> = Vec::new();
        loop
            invariant
                self.wf(),
                self.spec_entry_size_bits() == old(self).spec_entry_size_bits(),
                total == old(self).spec_data().len() * 8 + 1,
                ({
                    let bits = old(self).spec_entry_size_bits();
                    (bits == 1 || bits == 2 || bits == 4 || bits == 8) && old(self).spec_shift()
                        == 0 && old(self).spec_byte() == 0 ==> fat_collect(
                        old(self).spec_data(),
                        bits,
                        0,
                        0,
                        total,
                    ) == fat_entries(old(self).spec_data(), bits as nat)
                }),
                r@ + fat_collect(self.data@, self.entry_size_bits, self.shift, self.byte, fuel as nat)
                    == fat_collect(
                    old(self).spec_data(),
                    old(self).spec_entry_size_bits(),
                    old(self).spec_shift(),
                    old(self).spec_byte(),
                    total,
                ),
            decreases fuel,
        {
            if fuel == 0 {
                assert(r@ + seq![] =~= r@);
                return r;
            }
            let ghost before = r@;
            let ghost (d0, s0, b0) = (self.data@, self.shift, self.byte);
            match self.next() {
                Some(e) => {
                    r.push(e);
                    fuel = fuel - 1;
                    let ghost rest = fat_collect(self.data@, self.entry_size_bits, self.shift, self.byte, fuel as nat);
                    assert(fat_collect(d0, self.entry_size_bits, s0, b0, (fuel + 1) as nat) == seq![e] + rest);
                    assert(r@ + rest =~= before + (seq![e] + rest));
                },
                None => {
                    assert(fat_collect(d0, self.entry_size_bits, s0, b0, fuel as nat) == Seq::<FunctionArbitrationTableEntry>::empty());
                    assert(r@ + seq![] =~= r@);
                    return r;
                },
            }
        }
    }
}

/// Encoding the VC Resource Capability that a double word decodes to gives back the double
/// word with its reserved bits cleared.
pub proof fn lemma_vc_resource_capability_decode_encode(dword: u32)
    ensures
        VcResourceCapability::spec_from(dword).spec_to_bits() == dword & 0xff7f_00ff,
{
    let b = field(dword, 0, 0xff) as u8;
    assert((bit(flag(b as u32, 0)) | bit(flag(b as u32, 1)) << 1u8 | bit(flag(b as u32, 2)) << 2u8
        | bit(flag(b as u32, 3)) << 3u8 | bit(flag(b as u32, 4)) << 4u8 | bit(flag(b as u32, 5))
        << 5u8 | (field(b as u32, 6, 0x3) as u8) << 6u8) == b) by (bit_vector);
    assert(((field(dword, 0, 0xff) as u8) as u32) | ((field(dword, 16, 0x7f) as u8) as u32) << 16u32
        | ((field(dword, 24, 0xff) as u8) as u32) << 24u32 == dword & 0xff7f_00ff) by (bit_vector);
}

/// Decoding the double word that a VC Resource Capability encodes to gives back the register,
/// where its fields fit their bits.
pub proof fn lemma_vc_resource_capability_encode_decode(cap: VcResourceCapability)
    requires
        cap.maximum_time_slots < 0x80,
        cap.function_arbitration_capability.reserved < 4,
    ensures
        VcResourceCapability::spec_from(cap.spec_to_bits()) == cap,
{
    let f = cap.function_arbitration_capability;
    let (a, b, c, d, e, g) = (
        f.hardware_fixed_arbitration,
        f.wrr_32_phases,
        f.wrr_64_phases,
        f.wrr_128_phases,
        f.time_based_wrr_128_phases,
        f.wrr_256_phases,
    );
    let rs = f.reserved;
    let m = cap.maximum_time_slots;
    let o = cap.function_arbitration_table_offset;
    assert({
        let byte = bit(a) | bit(b) << 1u8 | bit(c) << 2u8 | bit(d) << 3u8 | bit(e) << 4u8 | bit(g)
            << 5u8 | rs << 6u8;
        let w = (byte as u32) | (m as u32) << 16u32 | (o as u32) << 24u32;
        let y = field(w, 0, 0xff) as u8;
        &&& y == byte
        &&& flag(y as u32, 0) == a
        &&& flag(y as u32, 1) == b
        &&& flag(y as u32, 2) == c
        &&& flag(y as u32, 3) == d
        &&& flag(y as u32, 4) == e
        &&& flag(y as u32, 5) == g
        &&& field(y as u32, 6, 0x3) as u8 == rs
        &&& field(w, 16, 0x7f) as u8 == m
        &&& field(w, 24, 0xff) as u8 == o
    }) by (bit_vector)
        requires
            m < 0x80,
            rs < 4,
    ;
}

/// Encoding the VC Resource Control that a double word decodes to gives back the double word
/// with its reserved bits cleared.
pub proof fn lemma_vc_resource_control_decode_encode(dword: u32)
    ensures
        VcResourceControl::spec_from(dword).spec_to_bits() == dword & 0x870f_00ff,
{
    let sel = field(dword, 17, 0x7) as u8;
    lemma_function_arbitration_select_roundtrip(sel);
    assert(((field(dword, 0, 0xff) as u8) as u32) | (((bit(flag(dword, 16)) | ((field(dword, 17, 0x7)
        as u8) << 1u8)) as u32) << 16u32) | ((((field(dword, 24, 0x7) as u8) | (bit(flag(dword, 31))
        << 7u8)) as u32) << 24u32) == dword & 0x870f_00ff) by (bit_vector);
}

/// Decoding the double word that a VC Resource Control encodes to gives back the register,
/// where the VC ID and the select field fit their 3 bits and a reserved select is one that no
/// scheme has.
pub proof fn lemma_vc_resource_control_encode_decode(ctrl: VcResourceControl)
    requires
        ctrl.vc_id < 8,
        ctrl.function_arbitration_select.spec_to_bits() < 8,
        !(ctrl.function_arbitration_select matches FunctionArbitrationSelect::Reserved(v) && v < 6),
    ensures
        VcResourceControl::spec_from(ctrl.spec_to_bits()) == ctrl,
{
    let t = ctrl.tc_to_vc_map;
    let l = ctrl.load_function_arbitration_table;
    let s = ctrl.function_arbitration_select.spec_to_bits();
    let v = ctrl.vc_id;
    let e = ctrl.vc_enable;
    assert({
        let w = (t as u32) | (((bit(l) | (s << 1u8)) as u32) << 16u32) | (((v | (bit(e) << 7u8))
            as u32) << 24u32);
        &&& field(w, 0, 0xff) as u8 == t
        &&& flag(w, 16) == l
        &&& field(w, 17, 0x7) as u8 == s
        &&& field(w, 24, 0x7) as u8 == v
        &&& flag(w, 31) == e
    }) by (bit_vector)
        requires
            s < 8,
            v < 8,
    ;
    assert(FunctionArbitrationSelect::spec_from(s) == ctrl.function_arbitration_select);
}

/// Encoding the VC Resource Status that a word decodes to gives back the word with its
/// reserved bits cleared, and decoding an encoded status gives back the status.
pub proof fn lemma_vc_resource_status_roundtrip(word: u16, st: VcResourceStatus)
    ensures
        VcResourceStatus::spec_from(word).spec_to_bits() == word & 0x3,
        VcResourceStatus::spec_from(st.spec_to_bits()) == st,
{
    assert((bit(flag(word as u32, 0)) | bit(flag(word as u32, 1)) << 1u8) as u16 == word & 0x3)
        by (bit_vector);
    let (a, b) = (st.function_arbitration_table_status, st.vc_negotiation_pending);
    assert({
        let w = (bit(a) | bit(b) << 1u8) as u16;
        flag(w as u32, 0) == a && flag(w as u32, 1) == b
    }) by (bit_vector);
}

/// Reading the bytes that an Extended Virtual Channel encodes to gives back its registers,
/// where their fields fit their bits.
pub proof fn lemma_extended_virtual_channel_bytes_roundtrip(evc: ExtendedVirtualChannel)
    requires
        evc.vc_resource_capability.maximum_time_slots < 0x80,
        evc.vc_resource_capability.function_arbitration_capability.reserved < 4,
        evc.vc_resource_control.vc_id < 8,
        evc.vc_resource_control.function_arbitration_select.spec_to_bits() < 8,
        !(evc.vc_resource_control.function_arbitration_select matches FunctionArbitrationSelect::Reserved(
            v,
        ) && v < 6),
        evc.function_arbitration_table is None,
    ensures
        ExtendedVirtualChannel::spec_from_bytes(evc.spec_to_bytes()) == evc,
{
    let cap = evc.vc_resource_capability.spec_to_bits();
    let ctrl = evc.vc_resource_control.spec_to_bits();
    let st = evc.vc_resource_status.spec_to_bits();
    let b = evc.spec_to_bytes()@;
    crate::bits::lemma_le_u32_bytes(cap);
    crate::bits::lemma_le_u32_bytes(ctrl);
    crate::bits::lemma_le_u16_bytes(st);
    assert(b.subrange(0, 4) =~= seq![cap as u8, (cap >> 8u32) as u8, (cap >> 16u32) as u8, (cap
        >> 24u32) as u8]);
    assert(b.subrange(4, 8) =~= seq![ctrl as u8, (ctrl >> 8u32) as u8, (ctrl >> 16u32) as u8, (ctrl
        >> 24u32) as u8]);
    assert(b.subrange(10, 12) =~= seq![st as u8, (st >> 8u16) as u8]);
    assert(le_u32(b, 0) == le_u32(b.subrange(0, 4), 0));
    assert(le_u32(b, 4) == le_u32(b.subrange(4, 8), 0));
    assert(le_u16(b, 10) == le_u16(b.subrange(10, 12), 0));
    lemma_vc_resource_capability_encode_decode(evc.vc_resource_capability);
    lemma_vc_resource_control_encode_decode(evc.vc_resource_control);
    lemma_vc_resource_status_roundtrip(0, evc.vc_resource_status);
}


/// The `bits`-bit field of `b` that starts at bit `shift`.
pub open spec fn fat_field(b: u8, bits: nat, shift: nat) -> u8 {
    ((b as nat / pow2(shift)) % pow2(bits)) as u8
}

/// The entries of `bits` bits that `data` holds, low bits of each byte first: entry `i` is the
/// field of byte `i * bits / 8` at bit `(i * bits) % 8`.
pub open spec fn fat_entries(data: Seq<u8>, bits: nat) -> Seq<FunctionArbitrationTableEntry> {
    Seq::new(
        data.len() * 8 / bits,
        |i: int|
            FunctionArbitrationTableEntry(
                fat_field(data[i * bits / 8], bits, ((i * bits) % 8) as nat),
            ),
    )
}

/// The entry that one step reads from the byte `b` at `shift` is the field there.
proof fn lemma_fat_step_field(b: u8, bits: usize, shift: usize)
    requires
        bits == 1 || bits == 2 || bits == 4,
        shift + bits <= 8,
    ensures
        (b & ((!(0xffu8 << bits)) << shift)) >> shift == fat_field(b, bits as nat, shift as nat),
{
    let s = shift as u8;
    assert((b & ((!(0xffu8 << bits)) << shift)) >> shift == (b >> s) % (if bits == 1 {
        2u8
    } else if bits == 2 {
        4u8
    } else {
        16u8
    })) by (bit_vector)
        requires
            bits == 1 || bits == 2 || bits == 4,
            shift + bits <= 8,
            s == shift,
    ;
    vstd::bits::lemma_u8_shr_is_div(b, s);
    vstd::arithmetic::power2::lemma2_to64();
}

/// Reading from the middle of a byte at `shift` gives the byte's remaining fields, then goes
/// on with the next byte.
proof fn lemma_fat_collect_rest_of_byte(data: Seq<u8>, bits: usize, shift: usize, b: u8, fuel: nat)
    requires
        bits == 1 || bits == 2 || bits == 4,
        0 < shift < 8,
        shift % bits == 0,
        fuel >= (8 - shift) / (bits as int),
    ensures
        fat_collect(data, bits, shift, b, fuel) == Seq::new(
            ((8 - shift) / (bits as int)) as nat,
            |j: int| FunctionArbitrationTableEntry(fat_field(b, bits as nat, (shift + j * bits) as nat)),
        ) + fat_collect(data, bits, 0, b, (fuel - (8 - shift) / (bits as int)) as nat),
    decreases 8 - shift,
{
    let n = (8 - shift) / (bits as int);
    let e = FunctionArbitrationTableEntry(fat_field(b, bits as nat, shift as nat));
    lemma_fat_step_field(b, bits, shift);
    assert(fat_step(data, bits, shift, b) == Some((e, data, ((shift + bits) % 8) as usize, b)));
    let part = Seq::new(
        n as nat,
        |j: int| FunctionArbitrationTableEntry(fat_field(b, bits as nat, (shift + j * bits) as nat)),
    );
    if shift + bits == 8 {
        assert(n == 1);
        assert(part =~= seq![e]);
        assert(fat_collect(data, bits, shift, b, fuel) == seq![e] + fat_collect(data, bits, 0, b, (fuel - 1) as nat));
    } else {
        let s2 = (shift + bits) as usize;
        assert(s2 % bits == 0) by {
            if bits == 1 {
            } else if bits == 2 {
            } else {
            }
        }
        assert((8 - s2) / (bits as int) == n - 1) by {
            if bits == 1 {
            } else if bits == 2 {
            } else {
            }
        }
        lemma_fat_collect_rest_of_byte(data, bits, s2, b, (fuel - 1) as nat);
        let rest = Seq::new(
            (n - 1) as nat,
            |j: int| FunctionArbitrationTableEntry(fat_field(b, bits as nat, (s2 + j * bits) as nat)),
        );
        assert(part =~= seq![e] + rest) by {
            assert forall|j: int| 0 <= j < n implies #[trigger] part[j] == (seq![e] + rest)[j] by {
                if j > 0 {
                    assert(s2 + (j - 1) * bits == shift + j * bits) by (nonlinear_arith)
                        requires
                            s2 == shift + bits,
                    ;
                }
            }
        }
        assert((fuel - 1 - (n - 1)) == fuel - n);
    }
}

/// The entries of a table of fields narrower than a byte are the fields of its first byte,
/// then the entries of the bytes after it.
proof fn lemma_fat_entries_first_byte(data: Seq<u8>, bits: usize)
    requires
        bits == 1 || bits == 2 || bits == 4,
        data.len() > 0,
    ensures
        fat_entries(data, bits as nat) == Seq::new(
            (8int / (bits as int)) as nat,
            |j: int| FunctionArbitrationTableEntry(fat_field(data[0], bits as nat, (j * bits) as nat)),
        ) + fat_entries(data.skip(1), bits as nat),
{
    let k = bits as int;
    let whole = fat_entries(data, bits as nat);
    let first = Seq::new(
        (8int / k) as nat,
        |j: int| FunctionArbitrationTableEntry(fat_field(data[0], bits as nat, (j * bits) as nat)),
    );
    let rest = fat_entries(data.skip(1), bits as nat);
    let tail = data.skip(1);
    if bits == 1 {
        assert forall|i: int| 0 <= i < whole.len() implies #[trigger] whole[i] == (first + rest)[i] by {
            if i >= 8 {
                assert(tail[(i - 8) / 8] == data[i / 8]);
            }
        }
    } else if bits == 2 {
        assert forall|i: int| 0 <= i < whole.len() implies #[trigger] whole[i] == (first + rest)[i] by {
            if i >= 4 {
                assert(tail[(i - 4) * 2 / 8] == data[i * 2 / 8]);
            }
        }
    } else {
        assert forall|i: int| 0 <= i < whole.len() implies #[trigger] whole[i] == (first + rest)[i] by {
            if i >= 2 {
                assert(tail[(i - 2) * 4 / 8] == data[i * 4 / 8]);
            }
        }
    }
    assert(whole =~= first + rest);
}

/// The fields of a byte are its first field, then the fields from the second on.
proof fn lemma_fat_byte_fields_split(b: u8, bits: usize)
    requires
        bits == 1 || bits == 2 || bits == 4,
    ensures
        Seq::new(
            (8int / (bits as int)) as nat,
            |j: int| FunctionArbitrationTableEntry(fat_field(b, bits as nat, (j * bits) as nat)),
        ) == seq![FunctionArbitrationTableEntry(fat_field(b, bits as nat, 0))] + Seq::new(
            ((8 - bits) / (bits as int)) as nat,
            |j: int| FunctionArbitrationTableEntry(fat_field(b, bits as nat, (bits + j * bits) as nat)),
        ),
{
    let k = bits as int;
    let all = Seq::new(
        (8int / k) as nat,
        |j: int| FunctionArbitrationTableEntry(fat_field(b, bits as nat, (j * bits) as nat)),
    );
    let later = Seq::new(
        ((8 - k) / k) as nat,
        |j: int| FunctionArbitrationTableEntry(fat_field(b, bits as nat, (bits + j * bits) as nat)),
    );
    assert((8 - k) / k == 8int / k - 1) by {
        if bits == 1 {
        } else if bits == 2 {
        } else {
        }
    }
    assert forall|j: int| 0 <= j < all.len() implies #[trigger] all[j] == (seq![
        FunctionArbitrationTableEntry(fat_field(b, bits as nat, 0)),
    ] + later)[j] by {
        if j > 0 {
            assert(bits + (j - 1) * bits == j * bits) by (nonlinear_arith);
        }
    }
    assert(all =~= seq![FunctionArbitrationTableEntry(fat_field(b, bits as nat, 0))] + later);
}

/// Reading whole bytes of fields narrower than a byte gives the fields of every byte.
proof fn lemma_fat_collect_narrow(data: Seq<u8>, bits: usize, b: u8, fuel: nat)
    requires
        bits == 1 || bits == 2 || bits == 4,
        fuel >= data.len() * 8,
    ensures
        fat_collect(data, bits, 0, b, fuel) == fat_entries(data, bits as nat),
    decreases data.len(),
{
    let k = bits as int;
    if data.len() == 0 {
        assert(fat_entries(data, bits as nat) =~= Seq::<FunctionArbitrationTableEntry>::empty());
        if fuel > 0 {
            assert(fat_step(data, bits, 0, b) is None);
        }
    } else {
        let n: int = 8int / k;
        let d0 = data[0];
        let tail = data.skip(1);
        let e = FunctionArbitrationTableEntry(fat_field(d0, bits as nat, 0));
        lemma_fat_step_field(d0, bits, 0);
        assert(fat_step(data, bits, 0, b) == Some((e, tail, (bits % 8) as usize, d0)));
        assert((8 - k) / k == n - 1) by {
            if bits == 1 {
            } else if bits == 2 {
            } else {
            }
        }
        lemma_fat_collect_rest_of_byte(tail, bits, bits, d0, (fuel - 1) as nat);
        lemma_fat_collect_narrow(tail, bits, d0, (fuel - 1 - (n - 1)) as nat);
        lemma_fat_entries_first_byte(data, bits);
        lemma_fat_byte_fields_split(d0, bits);
        let later = Seq::new(
            ((8 - bits) / k) as nat,
            |j: int| FunctionArbitrationTableEntry(fat_field(d0, bits as nat, (bits + j * bits) as nat)),
        );
        assert(seq![e] + later + fat_entries(tail, bits as nat) =~= seq![e] + (later
            + fat_entries(tail, bits as nat)));
    }
}

/// Reading entries of a byte each gives the bytes.
proof fn lemma_fat_collect_bytes(data: Seq<u8>, shift: usize, b: u8, fuel: nat)
    requires
        fuel >= data.len(),
    ensures
        fat_collect(data, 8, shift, b, fuel) == fat_entries(data, 8),
    decreases data.len(),
{
    vstd::arithmetic::power2::lemma2_to64();
    if data.len() == 0 {
        assert(fat_entries(data, 8) =~= Seq::<FunctionArbitrationTableEntry>::empty());
    } else {
        lemma_fat_collect_bytes(data.skip(1), shift, b, (fuel - 1) as nat);
        let whole = fat_entries(data, 8);
        let rest = fat_entries(data.skip(1), 8);
        assert(whole =~= seq![FunctionArbitrationTableEntry(data[0])] + rest) by {
            assert forall|i: int| 0 <= i < whole.len() implies #[trigger] whole[i] == (seq![
                FunctionArbitrationTableEntry(data[0]),
            ] + rest)[i] by {
                assert(i * 8 / 8 == i);
                assert(((i * 8) % 8) == 0);
                let v = data[i];
                assert(v as nat / 1 == v);
                assert((v as nat) % 256 == v);
                if i > 0 {
                    assert((i - 1) * 8 / 8 == i - 1);
                    assert((((i - 1) * 8) % 8) == 0);
                }
            }
        }
    }
}

/// The entries that a Function Arbitration Table of 1, 2, 4 or 8 bit entries gives, read from
/// its start, are the fields that its bytes hold, low bits of each byte first.
pub proof fn lemma_function_arbitration_table_entries(data: Seq<u8>, bits: usize)
    requires
        bits == 1 || bits == 2 || bits == 4 || bits == 8,
    ensures
        fat_collect(data, bits, 0, 0, (data.len() * 8 + 1) as nat) == fat_entries(data, bits as nat),
{
    if bits == 8 {
        lemma_fat_collect_bytes(data, 0, 0, (data.len() * 8 + 1) as nat);
    } else {
        lemma_fat_collect_narrow(data, bits, 0, (data.len() * 8 + 1) as nat);
    }
}


/// Encoding the Function Arbitration Capability that a byte decodes to gives back the byte,
/// and decoding the byte that a capability encodes to gives back the capability, where its
/// reserved field fits its 2 bits.
pub proof fn lemma_function_arbitration_capability_roundtrip(
    byte: u8,
    cap: FunctionArbitrationCapability,
)
    ensures
        FunctionArbitrationCapability::spec_from(byte).spec_to_bits() == byte,
        cap.reserved < 4 ==> FunctionArbitrationCapability::spec_from(cap.spec_to_bits()) == cap,
{
    let w = byte as u32;
    assert(bit(flag(w, 0)) | bit(flag(w, 1)) << 1u8 | bit(flag(w, 2)) << 2u8 | bit(flag(w, 3))
        << 3u8 | bit(flag(w, 4)) << 4u8 | bit(flag(w, 5)) << 5u8 | (field(w, 6, 0x3) as u8)
        << 6u8 == byte) by (bit_vector)
        requires
            w == byte as u32,
    ;
    if cap.reserved < 4 {
        let (a, b, c, d, e, f, r) = (
            cap.hardware_fixed_arbitration,
            cap.wrr_32_phases,
            cap.wrr_64_phases,
            cap.wrr_128_phases,
            cap.time_based_wrr_128_phases,
            cap.wrr_256_phases,
            cap.reserved,
        );
        assert({
            let x = (bit(a) | bit(b) << 1u8 | bit(c) << 2u8 | bit(d) << 3u8 | bit(e) << 4u8 | bit(f)
                << 5u8 | r << 6u8) as u32;
            &&& flag(x, 0) == a
            &&& flag(x, 1) == b
            &&& flag(x, 2) == c
            &&& flag(x, 3) == d
            &&& flag(x, 4) == e
            &&& flag(x, 5) == f
            &&& field(x, 6, 0x3) as u8 == r
        }) by (bit_vector)
            requires
                r < 4,
        ;
    }
}

} // verus!
