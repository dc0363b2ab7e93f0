//! Protocol Multiplexing (PMUX) extended capability.
//!
//! The capability is read from data that starts with its extended capability header.
use vstd::prelude::*;
use crate::bits::{field, flag, get_flag, get_u8, le_u16, le_u32, read_u16, read_u32};

verus! {

broadcast use crate::bits::lemma_field_le_mask;

/// Protocol Multiplexing errors
#[derive(Debug, Clone, PartialEq, Eq)]
pub enum ProtocolMultiplexingError {
    /// The Capability, Control and Status registers are not there
    Mandatory,
    /// The PMUX Protocol Array is not there
    PmuxProtocolArray { expected: usize, found: usize },
}

/// Protocol Multiplexing capability
#[derive(Debug, Clone, PartialEq, Eq)]
pub struct ProtocolMultiplexing<'a> {
    pub pmux_capability: PmuxCapability,
    pub pmux_control: PmuxControl,
    pub pmux_status: PmuxStatus,
    pub pmux_protocol_array: PmuxProtocolArray<'a>,
}

impl<'a> ProtocolMultiplexing<'a> {
    /// Whether `r` is what reading the capability from `bytes` (data that starts with the
    /// extended capability header) gives: the PMUX Protocol Array follows the registers, 4
    /// bytes for each entry.
    pub open spec fn spec_parse(bytes: Seq<u8>, r: Result<Self, ProtocolMultiplexingError>) -> bool {
        if bytes.len() < 16 {
            r == Err::<Self, ProtocolMultiplexingError>(ProtocolMultiplexingError::Mandatory)
        } else {
            let cap = PmuxCapability::spec_from(le_u32(bytes, 4));
            let len = cap.pmux_protocol_array_size * 4;
            if 16 + len > bytes.len() {
                r == Err::<Self, ProtocolMultiplexingError>(
                    ProtocolMultiplexingError::PmuxProtocolArray {
                        expected: len as usize,
                        found: (bytes.len() - 16) as usize,
                    },
                )
            } else {
                &&& r is Ok
                &&& r->Ok_0.pmux_capability == cap
                &&& r->Ok_0.pmux_control == PmuxControl::spec_from(le_u32(bytes, 8))
                &&& r->Ok_0.pmux_status == PmuxStatus::spec_from(le_u32(bytes, 12))
                &&& r->Ok_0.pmux_protocol_array.spec_data() == bytes.subrange(16, 16 + len)
            }
        }
    }

    /// Reads the capability from `slice`, data that starts with the extended capability header.
    pub fn parse(slice: &'a [u8]) -> (r: Result<Self, ProtocolMultiplexingError>)
        ensures
            Self::spec_parse(slice@, r),
    {
        if slice.len() < 16 {
            return Err(ProtocolMultiplexingError::Mandatory);
        }
        let pmux_capability = PmuxCapability::from(read_u32(slice, 4));
        let len = pmux_capability.pmux_protocol_array_size as usize * PmuxProtocolArrayEntry::SIZE;
        if 16 + len > slice.len() {
            return Err(
                ProtocolMultiplexingError::PmuxProtocolArray { expected: len, found: slice.len() - 16 },
            );
        }
        Ok(ProtocolMultiplexing {
            pmux_capability,
            pmux_control: PmuxControl::from(read_u32(slice, 8)),
            pmux_status: PmuxStatus::from(read_u32(slice, 12)),
            pmux_protocol_array: PmuxProtocolArray::new(&slice[16..16 + len]),
        })
    }
}

impl<'a> vstd::std_specs::convert::TryFromSpecImpl<&'a [u8]> for ProtocolMultiplexing<'a> {
    open spec fn obeys_try_from_spec() -> bool {
        false
    }

    open spec fn try_from_spec(slice: &'a [u8]) -> Result<Self, Self::Error> {
        arbitrary()
    }
}

impl<'a> TryFrom<&'a [u8]> for ProtocolMultiplexing<'a> {
    type Error = ProtocolMultiplexingError;

    fn try_from(slice: &'a [u8]) -> (r: Result<Self, Self::Error>)
        ensures
            Self::spec_parse(slice@, r),
    {
        Self::parse(slice)
    }
}

/// PMUX Capability register
#[derive(Debug, Clone, PartialEq, Eq)]
pub struct PmuxCapability {
    /// Number of entries of the PMUX Protocol Array
    pub pmux_protocol_array_size: u8,
    /// Link speeds at which Protocol Multiplexing is supported
    pub pmux_supported_link_speeds: PmuxSupportedLinkSpeeds,
}

impl PmuxCapability {
    /// The fields of the register value `dword`.
    pub open spec fn spec_from(dword: u32) -> Self {
        PmuxCapability {
            pmux_protocol_array_size: field(dword, 0, 0x3f) as u8,
            pmux_supported_link_speeds: PmuxSupportedLinkSpeeds::spec_from(field(dword, 8, 0xff) as u8),
        }
    }
}

impl vstd::std_specs::convert::FromSpecImpl<u32> for PmuxCapability {
    open spec fn obeys_from_spec() -> bool {
        true
    }

    open spec fn from_spec(dword: u32) -> Self {
        Self::spec_from(dword)
    }
}

impl From<u32> for PmuxCapability {
    fn from(dword: u32) -> (r: Self) {
        PmuxCapability {
            pmux_protocol_array_size: get_u8(dword, 0, 0x3f),
            pmux_supported_link_speeds: PmuxSupportedLinkSpeeds::from(get_u8(dword, 8, 0xff)),
        }
    }
}

/// Link speeds at which Protocol Multiplexing is supported
#[derive(Debug, Clone, PartialEq, Eq)]
pub struct PmuxSupportedLinkSpeeds {
    /// 2.5 GT/s
    pub speed_2_5_gtps: bool,
    /// 5.0 GT/s
    pub speed_5_0_gtps: bool,
    /// 8.0 GT/s
    pub speed_8_0_gtps: bool,
    /// 16.0 GT/s
    pub speed_16_0_gtps: bool,
}

impl PmuxSupportedLinkSpeeds {
    /// The fields of the register value `byte`.
    pub open spec fn spec_from(byte: u8) -> Self {
        PmuxSupportedLinkSpeeds {
            speed_2_5_gtps: flag(byte as u32, 0),
            speed_5_0_gtps: flag(byte as u32, 1),
            speed_8_0_gtps: flag(byte as u32, 2),
            speed_16_0_gtps: flag(byte as u32, 3),
        }
    }
}

impl vstd::std_specs::convert::FromSpecImpl<u8> for PmuxSupportedLinkSpeeds {
    open spec fn obeys_from_spec() -> bool {
        true
    }

    open spec fn from_spec(byte: u8) -> Self {
        Self::spec_from(byte)
    }
}

impl From<u8> for PmuxSupportedLinkSpeeds {
    fn from(byte: u8) -> (r: Self) {
        let w = byte as u32;
        PmuxSupportedLinkSpeeds {
            speed_2_5_gtps: get_flag(w, 0),
            speed_5_0_gtps: get_flag(w, 1),
            speed_8_0_gtps: get_flag(w, 2),
            speed_16_0_gtps: get_flag(w, 3),
        }
    }
}

/// PMUX Control register
#[derive(Debug, Clone, PartialEq, Eq)]
pub struct PmuxControl {
    /// Protocol assigned to PMUX Channel 0
    pub pmux_channel_0_assignment: u8,
    /// Protocol assigned to PMUX Channel 1
    pub pmux_channel_1_assignment: u8,
    /// Protocol assigned to PMUX Channel 2
    pub pmux_channel_2_assignment: u8,
    /// Protocol assigned to PMUX Channel 3
    pub pmux_channel_3_assignment: u8,
}

impl PmuxControl {
    /// The fields of the register value `dword`.
    pub open spec fn spec_from(dword: u32) -> Self {
        PmuxControl {
            pmux_channel_0_assignment: field(dword, 0, 0x3f) as u8,
            pmux_channel_1_assignment: field(dword, 8, 0x3f) as u8,
            pmux_channel_2_assignment: field(dword, 16, 0x3f) as u8,
            pmux_channel_3_assignment: field(dword, 24, 0x3f) as u8,
        }
    }
}

impl vstd::std_specs::convert::FromSpecImpl<u32> for PmuxControl {
    open spec fn obeys_from_spec() -> bool {
        true
    }

    open spec fn from_spec(dword: u32) -> Self {
        Self::spec_from(dword)
    }
}

impl From<u32> for PmuxControl {
    fn from(dword: u32) -> (r: Self) {
        PmuxControl {
            pmux_channel_0_assignment: get_u8(dword, 0, 0x3f),
            pmux_channel_1_assignment: get_u8(dword, 8, 0x3f),
            pmux_channel_2_assignment: get_u8(dword, 16, 0x3f),
            pmux_channel_3_assignment: get_u8(dword, 24, 0x3f),
        }
    }
}

/// PMUX Status register: why each channel is disabled
#[derive(Debug, Clone, PartialEq, Eq)]
pub struct PmuxStatus {
    /// Channel 0: the Current Link Speed is not supported
    pub pmux_channel_0_disabled_link_speed: bool,
    /// Channel 0: the current Link Width is not supported
    pub pmux_channel_0_disabled_link_width: bool,
    /// Channel 0: disabled for protocol specific reasons
    pub pmux_channel_0_disabled_link_protocol_specific: bool,
    /// Channel 1: the Current Link Speed is not supported
    pub pmux_channel_1_disabled_link_speed: bool,
    /// Channel 1: the current Link Width is not supported
    pub pmux_channel_1_disabled_link_width: bool,
    /// Channel 1: disabled for protocol specific reasons
    pub pmux_channel_1_disabled_link_protocol_specific: bool,
    /// Channel 2: the Current Link Speed is not supported
    pub pmux_channel_2_disabled_link_speed: bool,
    /// Channel 2: the current Link Width is not supported
    pub pmux_channel_2_disabled_link_width: bool,
    /// Channel 2: disabled for protocol specific reasons
    pub pmux_channel_2_disabled_link_protocol_specific: bool,
    /// Channel 3: the Current Link Speed is not supported
    pub pmux_channel_3_disabled_link_speed: bool,
    /// Channel 3: the current Link Width is not supported
    pub pmux_channel_3_disabled_link_width: bool,
    /// Channel 3: disabled for protocol specific reasons
    pub pmux_channel_3_disabled_link_protocol_specific: bool,
}

impl PmuxStatus {
    /// The fields of the register value `dword`.
    pub open spec fn spec_from(dword: u32) -> Self {
        PmuxStatus {
            pmux_channel_0_disabled_link_speed: flag(dword, 0),
            pmux_channel_0_disabled_link_width: flag(dword, 1),
            pmux_channel_0_disabled_link_protocol_specific: flag(dword, 2),
            pmux_channel_1_disabled_link_speed: flag(dword, 8),
            pmux_channel_1_disabled_link_width: flag(dword, 9),
            pmux_channel_1_disabled_link_protocol_specific: flag(dword, 10),
            pmux_channel_2_disabled_link_speed: flag(dword, 16),
            pmux_channel_2_disabled_link_width: flag(dword, 17),
            pmux_channel_2_disabled_link_protocol_specific: flag(dword, 18),
            pmux_channel_3_disabled_link_speed: flag(dword, 24),
            pmux_channel_3_disabled_link_width: flag(dword, 25),
            pmux_channel_3_disabled_link_protocol_specific: flag(dword, 26),
        }
    }
}

impl vstd::std_specs::convert::FromSpecImpl<u32> for PmuxStatus {
    open spec fn obeys_from_spec() -> bool {
        true
    }

    open spec fn from_spec(dword: u32) -> Self {
        Self::spec_from(dword)
    }
}

impl From<u32> for PmuxStatus {
    fn from(dword: u32) -> (r: Self) {
        PmuxStatus {
            pmux_channel_0_disabled_link_speed: get_flag(dword, 0),
            pmux_channel_0_disabled_link_width: get_flag(dword, 1),
            pmux_channel_0_disabled_link_protocol_specific: get_flag(dword, 2),
            pmux_channel_1_disabled_link_speed: get_flag(dword, 8),
            pmux_channel_1_disabled_link_width: get_flag(dword, 9),
            pmux_channel_1_disabled_link_protocol_specific: get_flag(dword, 10),
            pmux_channel_2_disabled_link_speed: get_flag(dword, 16),
            pmux_channel_2_disabled_link_width: get_flag(dword, 17),
            pmux_channel_2_disabled_link_protocol_specific: get_flag(dword, 18),
            pmux_channel_3_disabled_link_speed: get_flag(dword, 24),
            pmux_channel_3_disabled_link_width: get_flag(dword, 25),
            pmux_channel_3_disabled_link_protocol_specific: get_flag(dword, 26),
        }
    }
}

/// The entries of the PMUX Protocol Array, read one after another
#[derive(Debug, Clone, PartialEq, Eq)]
pub struct PmuxProtocolArray<'a> {
    data: &'a [u8],
}

/// The entry that the 4 bytes at `at` in `data` hold.
pub open spec fn spec_pmux_entry_at(data: Seq<u8>, at: int) -> PmuxProtocolArrayEntry {
    PmuxProtocolArrayEntry { protocol_id: le_u16(data, at), authority_id: le_u16(data, at + 2) }
}

impl<'a> PmuxProtocolArray<'a> {
    /// The bytes of the entries that are not read yet.
    pub closed spec fn spec_data(&self) -> Seq<u8> {
        self.data@
    }

    /// The entries in `slice`, 4 bytes each.
    pub fn new(slice: &'a [u8]) -> (r: Self)
        ensures
            r.spec_data() == slice@,
    {
        PmuxProtocolArray { data: slice }
    }

    /// Reads the next entry: the next 4 bytes, or none where fewer are left (they are
    /// dropped).
    pub fn next(&mut self) -> (r: Option<PmuxProtocolArrayEntry>)
        ensures
            old(self).spec_data().len() >= 4 ==> r == Some(spec_pmux_entry_at(old(self).spec_data(), 0))
                && final(self).spec_data() == old(self).spec_data().skip(4),
            old(self).spec_data().len() < 4 ==> r is None && final(self).spec_data().len() == 0,
    {
        if self.data.len() < 4 {
            self.data = &self.data[0..0];
            return None;
        }
        let data = self.data;
        self.data = &data[4..data.len()];
        assert(self.data@ == data@.skip(4));
        Some(PmuxProtocolArrayEntry { protocol_id: read_u16(data, 0), authority_id: read_u16(data, 2) })
    }

    /// Reads all the entries.
    pub fn entries(&mut self) -> (r: Vec<PmuxProtocolArrayEntry>)
        ensures
            r.len() == old(self).spec_data().len() / 4,
            forall|i: int|
                0 <= i < r.len() ==> #[trigger] r[i] == spec_pmux_entry_at(old(self).spec_data(), 4 * i),
    {
        let ghost d = self.spec_data();
        let mut r: Vec<PmuxProtocolArrayEntry> = Vec::new();
        loop
            invariant
                self.spec_data() == d.skip(4 * r.len()),
                4 * r.len() <= d.len(),
                d == old(self).spec_data(),
                forall|i: int| 0 <= i < r.len() ==> #[trigger] r[i] == spec_pmux_entry_at(d, 4 * i),
            decreases self.spec_data().len(),
        {
            let ghost before = self.spec_data();
            match self.next() {
                Some(e) => {
                    assert(le_u16(before, 0) == le_u16(d, 4 * r.len()));
                    assert(le_u16(before, 2) == le_u16(d, 4 * r.len() + 2));
                    r.push(e);
                    assert(self.spec_data() =~= d.skip(4 * r.len()));
                },
                None => {
                    return r;
                },
            }
        }
    }
}

/// An entry of the PMUX Protocol Array
#[derive(Debug, Clone, PartialEq, Eq)]
pub struct PmuxProtocolArrayEntry {
    /// The protocol, and how it is mapped onto Protocol Multiplexing
    pub protocol_id: u16,
    /// The authority that controls the values of the Protocol ID
    pub authority_id: u16,
}

impl PmuxProtocolArrayEntry {
    /// Protocol ID and Authority ID, a word each
    pub const SIZE: usize = 4;

    /// The bytes of the entry: both words little-endian, the Protocol ID first.
    pub open spec fn spec_to_bytes(self) -> [u8; 4] {
        [
            self.protocol_id as u8,
            (self.protocol_id >> 8u16) as u8,
            self.authority_id as u8,
            (self.authority_id >> 8u16) as u8,
        ]
    }
}

impl vstd::std_specs::convert::FromSpecImpl<PmuxProtocolArrayEntry> for [u8; 4] {
    open spec fn obeys_from_spec() -> bool {
        true
    }

    open spec fn from_spec(entry: PmuxProtocolArrayEntry) -> Self {
        entry.spec_to_bytes()
    }
}

impl From<PmuxProtocolArrayEntry> for [u8; 4] {
    fn from(entry: PmuxProtocolArrayEntry) -> (r: Self) {
        [
            entry.protocol_id as u8,
            (entry.protocol_id >> 8u16) as u8,
            entry.authority_id as u8,
            (entry.authority_id >> 8u16) as u8,
        ]
    }
}

/// Reading the bytes that an entry encodes to gives back the entry.
pub proof fn lemma_pmux_entry_bytes_roundtrip(entry: PmuxProtocolArrayEntry)
    ensures
        spec_pmux_entry_at(entry.spec_to_bytes()@, 0) == entry,
{
    let b = entry.spec_to_bytes()@;
    crate::bits::lemma_le_u16_bytes(entry.protocol_id);
    crate::bits::lemma_le_u16_bytes(entry.authority_id);
    assert(b.subrange(0, 2) =~= seq![entry.protocol_id as u8, (entry.protocol_id >> 8u16) as u8]);
    assert(b.subrange(2, 4) =~= seq![entry.authority_id as u8, (entry.authority_id >> 8u16) as u8]);
    assert(le_u16(b, 0) == le_u16(b.subrange(0, 2), 0));
    assert(le_u16(b, 2) == le_u16(b.subrange(2, 4), 0));
}

} // verus!
