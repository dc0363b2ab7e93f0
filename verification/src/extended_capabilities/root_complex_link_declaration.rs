//! Root Complex Link Declaration extended capability.
//!
//! The Links from a Root Complex element to other elements: an Element Self Description and
//! 16-byte Link Entries.
use vstd::prelude::*;
use crate::bits::{field, flag, get_flag, get_u16, get_u8, le_u32, read_u32};
use super::ExtendedCapabilityDataError;

verus! {

broadcast use crate::bits::lemma_field_le_mask;

/// The IEEE defined 64-bit extended unique identifier (EUI-64) of the device
#[derive(Debug, Clone, PartialEq, Eq)]
pub struct DeviceSerialNumber {
    /// First double word of the serial number
    pub lower_dword: u32,
    /// Second double word of the serial number
    pub upper_dword: u32,
}

impl DeviceSerialNumber {
    /// The serial number that `bytes` holds.
    pub open spec fn spec_parse(bytes: Seq<u8>) -> Result<Self, ExtendedCapabilityDataError> {
        if bytes.len() < 8 {
            Err(ExtendedCapabilityDataError { name: "Device Serial Number", size: 8 })
        } else {
            Ok(DeviceSerialNumber { lower_dword: le_u32(bytes, 0), upper_dword: le_u32(bytes, 4) })
        }
    }
}

impl vstd::std_specs::convert::TryFromSpecImpl<&[u8]> for DeviceSerialNumber {
    open spec fn obeys_try_from_spec() -> bool {
        true
    }

    open spec fn try_from_spec(slice: &[u8]) -> Result<Self, Self::Error> {
        Self::spec_parse(slice@)
    }
}

impl TryFrom<&[u8]> for DeviceSerialNumber {
    type Error = ExtendedCapabilityDataError;

    fn try_from(slice: &[u8]) -> (r: Result<Self, Self::Error>) {
        if slice.len() < 8 {
            return Err(ExtendedCapabilityDataError { name: "Device Serial Number", size: 8 });
        }
        Ok(DeviceSerialNumber { lower_dword: read_u32(slice, 0), upper_dword: read_u32(slice, 4) })
    }
}

/// Root Complex Link Declaration errors
#[derive(Debug, Clone, PartialEq, Eq)]
pub enum RootComplexLinkDeclarationError {
    /// The Element Self Description (4 bytes) is not there
    ElementSelfDescription,
    /// The number of Link Entries must be at least 1
    NumberOfLinkEntries { element_self_description: ElementSelfDescription },
    /// The reserved space after the Element Self Description is not there
    ReservedSpace { element_self_description: ElementSelfDescription },
    /// The first Link Entry is not there
    LinkEntry1 { element_self_description: ElementSelfDescription },
}

/// Root Complex Link Declaration capability
#[derive(Debug, Clone, PartialEq, Eq)]
pub struct RootComplexLinkDeclaration<'a> {
    pub element_self_description: ElementSelfDescription,
    pub link_entries: LinkEntries<'a>,
}

impl<'a> RootComplexLinkDeclaration<'a> {
    /// Whether `r` is what reading the capability from `bytes` (the data after the extended
    /// capability header) gives: the Link Entries start 12 bytes in.
    pub open spec fn spec_parse(
        bytes: Seq<u8>,
        r: Result<Self, RootComplexLinkDeclarationError>,
    ) -> bool {
        if bytes.len() < 4 {
            r == Err::<Self, RootComplexLinkDeclarationError>(
                RootComplexLinkDeclarationError::ElementSelfDescription,
            )
        } else {
            let esd = ElementSelfDescription::spec_from(le_u32(bytes, 0));
            if esd.number_of_link_entries < 1 {
                r == Err::<Self, RootComplexLinkDeclarationError>(
                    RootComplexLinkDeclarationError::NumberOfLinkEntries {
                        element_self_description: esd,
                    },
                )
            } else if bytes.len() < 12 {
                r == Err::<Self, RootComplexLinkDeclarationError>(
                    RootComplexLinkDeclarationError::ReservedSpace { element_self_description: esd },
                )
            } else if bytes.len() < 28 {
                r == Err::<Self, RootComplexLinkDeclarationError>(
                    RootComplexLinkDeclarationError::LinkEntry1 { element_self_description: esd },
                )
            } else {
                &&& r is Ok
                &&& r->Ok_0.element_self_description == esd
                &&& r->Ok_0.link_entries.spec_is_new(bytes.skip(12), esd.number_of_link_entries)
            }
        }
    }

    /// Reads the capability from `slice`, the data after the extended capability header.
    pub fn parse(slice: &'a [u8]) -> (r: Result<Self, RootComplexLinkDeclarationError>)
        ensures
            Self::spec_parse(slice@, r),
    {
        if slice.len() < ElementSelfDescription::BYTES {
            return Err(RootComplexLinkDeclarationError::ElementSelfDescription);
        }
        let element_self_description = ElementSelfDescription::from(read_u32(slice, 0));
        let n = element_self_description.number_of_link_entries;
        if n < 1 {
            return Err(
                RootComplexLinkDeclarationError::NumberOfLinkEntries { element_self_description },
            );
        }
        if slice.len() < 12 {
            return Err(RootComplexLinkDeclarationError::ReservedSpace { element_self_description });
        }
        let tail = &slice[12..slice.len()];
        assert(tail@ == slice@.skip(12));
        if tail.len() < LinkEntry::SIZE {
            return Err(RootComplexLinkDeclarationError::LinkEntry1 { element_self_description });
        }
        Ok(RootComplexLinkDeclaration { element_self_description, link_entries: LinkEntries::new(tail, n) })
    }
}

impl<'a> vstd::std_specs::convert::TryFromSpecImpl<&'a [u8]> for RootComplexLinkDeclaration<'a> {
    open spec fn obeys_try_from_spec() -> bool {
        false
    }

    open spec fn try_from_spec(slice: &'a [u8]) -> Result<Self, Self::Error> {
        arbitrary()
    }
}

impl<'a> TryFrom<&'a [u8]> for RootComplexLinkDeclaration<'a> {
    type Error = RootComplexLinkDeclarationError;

    fn try_from(slice: &'a [u8]) -> (r: Result<Self, Self::Error>)
        ensures
            Self::spec_parse(slice@, r),
    {
        Self::parse(slice)
    }
}

/// Element Self Description: the Root Complex element that holds the capability
#[derive(Debug, Clone, PartialEq, Eq)]
pub struct ElementSelfDescription {
    /// Element Type
    pub element_type: ElementType,
    /// Reserved
    pub reserved: u8,
    /// Number of Link Entries
    pub number_of_link_entries: u8,
    /// Component ID
    pub component_id: u8,
    /// Port Number
    pub port_number: u8,
}

impl ElementSelfDescription {
    /// The fields of the register value `dword`.
    pub open spec fn spec_from(dword: u32) -> Self {
        ElementSelfDescription {
            element_type: ElementType::spec_from(field(dword, 0, 0xf) as u8),
            reserved: field(dword, 4, 0xf) as u8,
            number_of_link_entries: field(dword, 8, 0xff) as u8,
            component_id: field(dword, 16, 0xff) as u8,
            port_number: field(dword, 24, 0xff) as u8,
        }
    }
}

impl vstd::std_specs::convert::FromSpecImpl<u32> for ElementSelfDescription {
    open spec fn obeys_from_spec() -> bool {
        true
    }

    open spec fn from_spec(dword: u32) -> Self {
        Self::spec_from(dword)
    }
}

impl From<u32> for ElementSelfDescription {
    fn from(dword: u32) -> (r: Self) {
        ElementSelfDescription {
            element_type: ElementType::from(get_u8(dword, 0, 0xf)),
            reserved: get_u8(dword, 4, 0xf),
            number_of_link_entries: get_u8(dword, 8, 0xff),
            component_id: get_u8(dword, 16, 0xff),
            port_number: get_u8(dword, 24, 0xff),
        }
    }
}

impl ElementSelfDescription {
    /// Size of the register in bytes
    pub const BYTES: usize = 4;
}

/// Type of a Root Complex element
#[derive(Debug, Clone, Copy, PartialEq, Eq)]
pub enum ElementType {
    /// Configuration Space element
    ConfigurationSpaceElement,
    /// System Egress Port or internal sink (memory)
    SystemEgressPortOrInternalSink,
    /// Internal Root Complex Link
    InternalRootComplexLink,
    /// Reserved
    Reserved(u8),
}

impl ElementType {
    /// The value that `byte` encodes.
    pub open spec fn spec_from(byte: u8) -> Self {
        match byte {
            0x00 => Self::ConfigurationSpaceElement,
            0x01 => Self::SystemEgressPortOrInternalSink,
            0x02 => Self::InternalRootComplexLink,
            _ => Self::Reserved(byte),
        }
    }
}

impl ElementType {
    /// The register field that encodes the value.
    pub open spec fn spec_to_bits(self) -> u8 {
        match self {
            ElementType::ConfigurationSpaceElement => 0x00,
            ElementType::SystemEgressPortOrInternalSink => 0x01,
            ElementType::InternalRootComplexLink => 0x02,
            ElementType::Reserved(v) => v,
        }
    }
}

impl vstd::std_specs::convert::FromSpecImpl<ElementType> for u8 {
    open spec fn obeys_from_spec() -> bool {
        true
    }

    open spec fn from_spec(value: ElementType) -> Self {
        value.spec_to_bits()
    }
}

impl From<ElementType> for u8 {
    fn from(value: ElementType) -> (r: Self) {
        match value {
            ElementType::ConfigurationSpaceElement => 0x00,
            ElementType::SystemEgressPortOrInternalSink => 0x01,
            ElementType::InternalRootComplexLink => 0x02,
            ElementType::Reserved(v) => v,
        }
    }
}

/// Encoding a decoded ElementType field gives back the field.
pub proof fn lemma_element_type_roundtrip(byte: u8)
    ensures
        ElementType::spec_from(byte).spec_to_bits() == byte,
{
}

impl vstd::std_specs::convert::FromSpecImpl<u8> for ElementType {
    open spec fn obeys_from_spec() -> bool {
        true
    }

    open spec fn from_spec(byte: u8) -> Self {
        Self::spec_from(byte)
    }
}

impl From<u8> for ElementType {
    fn from(byte: u8) -> (r: Self) {
        match byte {
            0x00 => Self::ConfigurationSpaceElement,
            0x01 => Self::SystemEgressPortOrInternalSink,
            0x02 => Self::InternalRootComplexLink,
            _ => Self::Reserved(byte),
        }
    }
}

/// The Link Entries of the capability, read one after another
#[derive(Debug, Clone)]
pub struct LinkEntries<'a> {
    data: &'a [u8],
    pub state: LinkEntriesState,
}

/// The Link Entry that the 16 bytes at `at` in `data` hold.
pub open spec fn spec_link_entry_at(data: Seq<u8>, at: int) -> LinkEntry {
    let description = LinkDescription::spec_from(le_u32(data, at));
    LinkEntry {
        link_description: description,
        link_address: LinkAddress::spec_new(
            description.link_type,
            le_u32(data, at + 8),
            le_u32(data, at + 12),
        ),
    }
}

/// The Link Entries in `data`: one for each whole 16 bytes.
pub open spec fn spec_link_entries(data: Seq<u8>) -> Seq<LinkEntry> {
    Seq::new(data.len() / 16, |i: int| spec_link_entry_at(data, 16 * i))
}

impl<'a> LinkEntries<'a> {
    /// Offset of the first Link Entry from the capability's start
    pub const FIRST_ENTRY_OFFSET: usize = 0x10 - super::ECH_BYTES;

    /// The bytes of the entries that are not read yet.
    pub closed spec fn spec_data(&self) -> Seq<u8> {
        self.data@
    }

    /// Whether the bytes hold all the entries.
    pub closed spec fn spec_state(&self) -> LinkEntriesState {
        self.state
    }

    /// The entries that are not read yet.
    pub open spec fn spec_entries(&self) -> Seq<LinkEntry> {
        spec_link_entries(self.spec_data())
    }

    /// Whether the entries are those that `new` makes of `data` and `number_of_link_entries`:
    /// the bytes of that many entries, as far as `data` holds them, and the state that says
    /// whether `data` holds them all, whole entries only, or a part of an entry.
    pub open spec fn spec_is_new(&self, data: Seq<u8>, number_of_link_entries: u8) -> bool {
        let length = number_of_link_entries * 16;
        &&& self.spec_data() == data.subrange(
            0,
            if data.len() < length {
                data.len() as int
            } else {
                length as int
            },
        )
        &&& self.spec_state() == if data.len() >= length {
            LinkEntriesState::Valid
        } else if data.len() % 16 == 0 {
            LinkEntriesState::Incomplete
        } else {
            LinkEntriesState::Invalid
        }
    }

    /// The entries of `number_of_link_entries` Link Entries in `data`.
    pub fn new(data: &'a [u8], number_of_link_entries: u8) -> (r: Self)
        ensures
            r.spec_is_new(data@, number_of_link_entries),
    {
        let length = number_of_link_entries as usize * LinkEntry::SIZE;
        let end = if data.len() < length {
            data.len()
        } else {
            length
        };
        let state = if data.len() >= length {
            LinkEntriesState::Valid
        } else if data.len() % LinkEntry::SIZE == 0 {
            LinkEntriesState::Incomplete
        } else {
            LinkEntriesState::Invalid
        };
        LinkEntries { data: &data[0..end], state }
    }

    /// Reads the next entry: the next 16 bytes, or none where fewer are left (they are
    /// dropped).
    pub fn next(&mut self) -> (r: Option<LinkEntry>)
        ensures
            final(self).spec_state() == old(self).spec_state(),
            old(self).spec_data().len() >= 16 ==> r == Some(spec_link_entry_at(old(self).spec_data(), 0))
                && final(self).spec_data() == old(self).spec_data().skip(16),
            old(self).spec_data().len() < 16 ==> r is None && final(self).spec_data().len() == 0,
    {
        if self.data.len() < LinkEntry::SIZE {
            self.data = &self.data[0..0];
            return None;
        }
        let data = self.data;
        self.data = &data[16..data.len()];
        assert(self.data@ == data@.skip(16));
        let link_description = LinkDescription::from(read_u32(data, 0));
        let link_type = link_description.link_type;
        Some(
            LinkEntry {
                link_description,
                link_address: LinkAddress::new(link_type, read_u32(data, 8), read_u32(data, 12)),
            },
        )
    }

    /// Reads all the entries.
    pub fn entries(&mut self) -> (r: Vec<LinkEntry>)
        ensures
            r@ == old(self).spec_entries(),
    {
        let ghost d = self.spec_data();
        let mut r: Vec<LinkEntry> = Vec::new();
        loop
            invariant
                self.spec_data() == d.skip(16 * r.len()),
                16 * r.len() <= d.len(),
                d == old(self).spec_data(),
                forall|i: int| 0 <= i < r.len() ==> #[trigger] r[i] == spec_link_entry_at(d, 16 * i),
            decreases self.spec_data().len(),
        {
            let ghost before = self.spec_data();
            match self.next() {
                Some(e) => {
                    assert(le_u32(before, 0) == le_u32(d, 16 * r.len()));
                    assert(le_u32(before, 8) == le_u32(d, 16 * r.len() + 8));
                    assert(le_u32(before, 12) == le_u32(d, 16 * r.len() + 12));
                    r.push(e);
                    assert(self.spec_data() =~= d.skip(16 * r.len()));
                },
                None => {
                    assert(r@ =~= spec_link_entries(d));
                    return r;
                },
            }
        }
    }
}

impl<'a> LinkEntries<'a> {
    /// Reads the entry at `at`, without moving on.
    fn entry_at(data: &[u8], at: usize) -> (r: LinkEntry)
        requires
            at + 16 <= data.len(),
        ensures
            r == spec_link_entry_at(data@, at as int),
    {
        let link_description = LinkDescription::from(read_u32(data, at));
        let link_type = link_description.link_type;
        LinkEntry {
            link_description,
            link_address: LinkAddress::new(link_type, read_u32(data, at + 8), read_u32(data, at + 12)),
        }
    }
}

impl<'a> PartialEq for LinkEntries<'a> {
    fn eq(&self, other: &Self) -> (r: bool) {
        let n = self.data.len() / 16;
        if n != other.data.len() / 16 {
            assert(self.spec_entries().len() != other.spec_entries().len());
            return false;
        }
        let mut i: usize = 0;
        let mut at: usize = 0;
        while i < n
            invariant
                i <= n,
                at == 16 * i,
                16 * n <= self.data.len(),
                16 * n <= other.data@.len(),
                n == self.data@.len() / 16,
                n == other.data@.len() / 16,
                forall|j: int|
                    0 <= j < i ==> #[trigger] spec_link_entry_at(self.data@, 16 * j)
                        == spec_link_entry_at(other.data@, 16 * j),
            decreases n - i,
        {
            let x = Self::entry_at(self.data, at);
            let y = Self::entry_at(other.data, at);
            if x != y {
                assert(self.spec_entries()[i as int] != other.spec_entries()[i as int]);
                return false;
            }
            i = i + 1;
            at = at + 16;
        }
        assert(self.spec_entries() =~= other.spec_entries());
        true
    }
}

impl<'a> vstd::std_specs::cmp::PartialEqSpecImpl for LinkEntries<'a> {
    open spec fn obeys_eq_spec() -> bool {
        true
    }

    open spec fn eq_spec(&self, other: &Self) -> bool {
        self.spec_entries() == other.spec_entries()
    }
}

impl<'a> Eq for LinkEntries<'a> {
}

/// Whether the Link Entries hold enough bytes for all their entries
#[derive(Debug, Clone, PartialEq, Eq)]
pub enum LinkEntriesState {
    /// All the entries that the Element Self Description counts are there
    Valid,
    /// Fewer entries are there
    Incomplete,
    /// The bytes of the entries end within an entry
    Invalid,
}

/// An internal Link to another Root Complex element
#[derive(Debug, Clone, PartialEq, Eq, Structural)]
pub struct LinkEntry {
    /// Link Description
    pub link_description: LinkDescription,
    /// Link Address
    pub link_address: LinkAddress,
}

impl LinkEntry {
    /// Size of an entry in double words
    pub const DWORDS: usize = 4;
    /// Size of an entry in bytes
    pub const SIZE: usize = 16;
}

/// Link Description register
#[derive(Debug, Clone, PartialEq, Eq, Structural)]
pub struct LinkDescription {
    /// Link Valid
    pub link_valid: bool,
    /// Link Type: 0 for a memory-mapped RCRB, 1 for a Configuration Space
    pub link_type: u8,
    /// Associate RCRB Header
    pub associate_rcrb_header: bool,
    /// Target Component ID
    pub target_component_id: u8,
    /// Target Port Number
    pub target_port_number: u8,
}

impl LinkDescription {
    /// The fields of the register value `dword`.
    pub open spec fn spec_from(dword: u32) -> Self {
        LinkDescription {
            link_valid: flag(dword, 0),
            link_type: field(dword, 1, 0x1) as u8,
            associate_rcrb_header: flag(dword, 2),
            target_component_id: field(dword, 16, 0xff) as u8,
            target_port_number: field(dword, 24, 0xff) as u8,
        }
    }
}

impl vstd::std_specs::convert::FromSpecImpl<u32> for LinkDescription {
    open spec fn obeys_from_spec() -> bool {
        true
    }

    open spec fn from_spec(dword: u32) -> Self {
        Self::spec_from(dword)
    }
}

impl From<u32> for LinkDescription {
    fn from(dword: u32) -> (r: Self) {
        LinkDescription {
            link_valid: get_flag(dword, 0),
            link_type: get_u8(dword, 1, 0x1),
            associate_rcrb_header: get_flag(dword, 2),
            target_component_id: get_u8(dword, 16, 0xff),
            target_port_number: get_u8(dword, 24, 0xff),
        }
    }
}

/// The element that a Link Entry points to
#[derive(Debug, Clone, PartialEq, Eq, Structural)]
pub enum LinkAddress {
    /// A memory-mapped RCRB
    MemoryMappedSpace(u64),
    /// The Configuration Space of a Root Complex element
    ConfigurationSpace {
        /// Number of Bus Number bits
        n: u8,
        /// Reserved
        reserved: u16,
        /// Function Number
        function: u8,
        /// Device Number
        device: u8,
        /// Bus Number
        bus: u8,
        /// PCI Express Configuration Space Base Address
        address: u64,
    },
}

impl LinkAddress {
    /// Size of the address in double words
    pub const DWORDS: usize = 2;

    /// The address that the Link Type and the two address double words give. A Configuration
    /// Space address has N in bits 0 to 2 (0 standing for 8), the Function, Device and Bus
    /// Numbers from bit 12, and the base address in the bits above the N bits of the Bus
    /// Number.
    pub open spec fn spec_new(link_type: u8, first_dword: u32, second_dword: u32) -> Self {
        let address = qword(first_dword, second_dword);
        if link_type == 0 {
            LinkAddress::MemoryMappedSpace(address)
        } else {
            let n3 = field(first_dword, 0, 0x7) as u8;
            let n: u8 = if n3 == 0 {
                8
            } else {
                n3
            };
            LinkAddress::ConfigurationSpace {
                n,
                reserved: field(first_dword, 3, 0x1ff) as u16,
                function: field(first_dword, 12, 0x7) as u8,
                device: field(first_dword, 15, 0x1f) as u8,
                bus: ((first_dword >> 20u32) & !(0xffff_ffffu32 << (n as u32))) as u8,
                address: address & (0xffff_ffff_ffff_ffffu64 << (20 + n) as u64),
            }
        }
    }

    /// Decodes the two address double words of a Link Entry of type `link_type`.
    pub fn new(link_type: u8, first_dword: u32, second_dword: u32) -> (r: Self)
        ensures
            r == Self::spec_new(link_type, first_dword, second_dword),
    {
        let address = ((second_dword as u64) << 32u64) | first_dword as u64;
        if link_type == 0 {
            LinkAddress::MemoryMappedSpace(address)
        } else {
            let n3 = get_u8(first_dword, 0, 0x7);
            let n: u8 = if n3 == 0 {
                8
            } else {
                n3
            };
            let bus = ((first_dword >> 20u32) & !(u32::MAX << (n as u32))) as u8;
            let laddr_mask = u64::MAX << (20 + n) as u64;
            LinkAddress::ConfigurationSpace {
                n,
                reserved: get_u16(first_dword, 3, 0x1ff),
                function: get_u8(first_dword, 12, 0x7),
                device: get_u8(first_dword, 15, 0x1f),
                bus,
                address: address & laddr_mask,
            }
        }
    }

    /// The two address double words: the inverse of decoding them.
    pub open spec fn spec_to_dwords(self) -> [u32; 2] {
        match self {
            LinkAddress::MemoryMappedSpace(q) => [q as u32, (q >> 32u64) as u32],
            LinkAddress::ConfigurationSpace { n, reserved, function, device, bus, address } => [
                address as u32 | (bus as u32) << 20u32 | (device as u32) << 15u32 | (function as u32)
                    << 12u32 | (reserved as u32) << 3u32 | (if n == 8 {
                    0u8
                } else {
                    n
                }) as u32,
                (address >> 32u64) as u32,
            ],
        }
    }
}

/// The quad word whose low double word is `lo` and high one is `hi`.
pub open spec fn qword(lo: u32, hi: u32) -> u64 {
    ((hi as u64) << 32u64) | lo as u64
}

impl vstd::std_specs::convert::FromSpecImpl<LinkAddress> for [u32; 2] {
    open spec fn obeys_from_spec() -> bool {
        true
    }

    open spec fn from_spec(la: LinkAddress) -> Self {
        la.spec_to_dwords()
    }
}

impl From<LinkAddress> for [u32; 2] {
    fn from(la: LinkAddress) -> (r: Self) {
        match la {
            LinkAddress::MemoryMappedSpace(q) => [q as u32, (q >> 32u64) as u32],
            LinkAddress::ConfigurationSpace { n, reserved, function, device, bus, address } => [
                address as u32 | (bus as u32) << 20u32 | (device as u32) << 15u32 | (function as u32)
                    << 12u32 | (reserved as u32) << 3u32 | (if n == 8 {
                    0u8
                } else {
                    n
                }) as u32,
                (address >> 32u64) as u32,
            ],
        }
    }
}

/// Encoding the Link Address that two double words decode to gives back the double words.
pub proof fn lemma_link_address_roundtrip(link_type: u8, first_dword: u32, second_dword: u32)
    ensures
        LinkAddress::spec_new(link_type, first_dword, second_dword).spec_to_dwords() == [
            first_dword,
            second_dword,
        ],
{
    let a = first_dword;
    let b = second_dword;
    if link_type == 0 {
        assert((qword(a, b) as u32) == a && ((qword(a, b) >> 32u64) as u32) == b) by (bit_vector);
    } else {
        let n3 = field(a, 0, 0x7) as u8;
        let n: u8 = if n3 == 0 {
            8
        } else {
            n3
        };
        assert((if n == 8 {
            0u8
        } else {
            n
        }) == n3);
        assert({
            let address = qword(a, b) & (0xffff_ffff_ffff_ffffu64 << (20 + n) as u64);
            let bus = ((a >> 20u32) & !(0xffff_ffffu32 << (n as u32))) as u8;
            &&& address as u32 | (bus as u32) << 20u32 | ((field(a, 15, 0x1f) as u8) as u32)
                << 15u32 | ((field(a, 12, 0x7) as u8) as u32) << 12u32 | ((field(a, 3, 0x1ff)
                as u16) as u32) << 3u32 | (n3 as u32) == a
            &&& (address >> 32u64) as u32 == b
        }) by (bit_vector)
            requires
                1 <= n <= 8,
                n3 == (a >> 0u32) & 0x7,
                n3 == 0 ==> n == 8,
                n3 != 0 ==> n == n3,
        ;
    }
}

} // verus!
