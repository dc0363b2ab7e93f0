//! Enhanced Allocation (EA) capability.
use vstd::prelude::*;
use crate::bits::{field, flag, get_flag, get_u8, le_u32, read_u32};
use super::message_signaled_interrups::{make_qword, qword};

verus! {

broadcast use crate::bits::lemma_field_le_mask;

/// Enhanced Allocation errors
#[derive(Debug, Clone, PartialEq, Eq)]
pub enum EnhancedAllocationError {
    /// Number of entries is unreadable
    NumEntries,
    /// Second DW for Type 1 is unreadable
    Type1SecondDw,
}

/// Enhanced Allocation capability
#[derive(Debug, Clone, PartialEq, Eq)]
pub struct EnhancedAllocation<'a> {
    /// Number of entries following the first DW of the capability
    pub num_entries: u8,
    pub type_1_second_dw: Option<Type1SecondDw>,
    pub entries: EnhancedAllocationEntries<'a>,
}

impl<'a> EnhancedAllocation<'a> {
    /// Reads the capability from `slice` (the data after the capability header) of a function
    /// whose configuration space header is of Type 1 (a bridge) when `is_bridge` holds.
    pub fn try_new(slice: &'a [u8], is_bridge: bool) -> (r: Result<Self, EnhancedAllocationError>)
        ensures
            slice@.len() < 2 <==> r == Err::<Self, EnhancedAllocationError>(
                EnhancedAllocationError::NumEntries,
            ),
            is_bridge && 2 <= slice@.len() < 6 <==> r == Err::<Self, EnhancedAllocationError>(
                EnhancedAllocationError::Type1SecondDw,
            ),
            r is Ok <==> slice@.len() >= 2 && (!is_bridge || slice@.len() >= 6),
            r matches Ok(ea) ==> {
                &&& ea.num_entries == field(slice@[0] as u32, 0, 0x3f)
                &&& ea.entries.spec_count() == ea.num_entries
                &&& if is_bridge {
                    &&& ea.type_1_second_dw == Some(
                        Type1SecondDw {
                            fixed_secondary_bus_number: slice@[2],
                            fixed_subordinate_bus_number: slice@[3],
                        },
                    )
                    &&& ea.entries.spec_data() == slice@.skip(6)
                } else {
                    &&& ea.type_1_second_dw is None
                    &&& ea.entries.spec_data() == slice@.skip(2)
                }
            },
    {
        if slice.len() < 2 {
            return Err(EnhancedAllocationError::NumEntries);
        }
        let num_entries = get_u8(slice[0] as u32, 0, 0x3f);
        if is_bridge {
            if slice.len() < 6 {
                return Err(EnhancedAllocationError::Type1SecondDw);
            }
            Ok(EnhancedAllocation {
                num_entries,
                type_1_second_dw: Some(
                    Type1SecondDw {
                        fixed_secondary_bus_number: slice[2],
                        fixed_subordinate_bus_number: slice[3],
                    },
                ),
                entries: EnhancedAllocationEntries::new(&slice[6..slice.len()], num_entries),
            })
        } else {
            Ok(EnhancedAllocation {
                num_entries,
                type_1_second_dw: None,
                entries: EnhancedAllocationEntries::new(&slice[2..slice.len()], num_entries),
            })
        }
    }
}

/// Entries of an Enhanced Allocation capability, read one after another
#[derive(Debug, Clone, PartialEq, Eq)]
pub struct EnhancedAllocationEntries<'a> {
    data: &'a [u8],
    count: u8,
}

impl<'a> EnhancedAllocationEntries<'a> {
    /// The bytes that the entries that are not read yet start with.
    pub closed spec fn spec_data(&self) -> Seq<u8> {
        self.data@
    }

    /// The number of entries that are not read yet.
    pub closed spec fn spec_count(&self) -> u8 {
        self.count
    }

    /// Entries in `data`, of which `count` are to be read.
    pub fn new(data: &'a [u8], count: u8) -> (r: Self)
        ensures
            r.spec_data() == data@,
            r.spec_count() == count,
    {
        EnhancedAllocationEntries { data, count }
    }

    /// Whether an entry whose first three DWs start `data` can be read, and the entry.
    pub open spec fn spec_read_entry(data: Seq<u8>) -> Option<EnhancedAllocationEntry> {
        let first_dw = le_u32(data, 0);
        let base_lo = le_u32(data, 4);
        let max_offset_lo = le_u32(data, 8);
        let base_64 = base_lo & 0b10 != 0;
        let max_offset_64 = max_offset_lo & 0b10 != 0;
        let max_offset_at = if base_64 { 16int } else { 12int };
        let need = max_offset_at + if max_offset_64 { 4int } else { 0int };
        let entry_size = field(first_dw, 0, 0x7) as u8;
        if data.len() < need || data.len() < (entry_size + 1) * 4 {
            None
        } else {
            Some(
                EnhancedAllocationEntry {
                    entry_size,
                    bar_equivalent_indicator: BarEquivalentIndicator::spec_from_bits(
                        field(first_dw, 4, 0xf) as u8,
                    ),
                    primary_properties: ResourceDefinition::spec_from(field(first_dw, 8, 0xff) as u8),
                    secondary_properties: ResourceDefinition::spec_from(
                        field(first_dw, 16, 0xff) as u8,
                    ),
                    writable: flag(first_dw, 30),
                    enable: flag(first_dw, 31),
                    base: if base_64 {
                        ResourceRangeAddress::U64(qword(base_lo & 0xffff_fffc, le_u32(data, 12)))
                    } else {
                        ResourceRangeAddress::U32(base_lo & 0xffff_fffc)
                    },
                    max_offset: if max_offset_64 {
                        ResourceRangeAddress::U64(
                            qword(max_offset_lo | 0b11, le_u32(data, max_offset_at)),
                        )
                    } else {
                        ResourceRangeAddress::U32(max_offset_lo | 0b11)
                    },
                },
            )
        }
    }

    /// Reads the next entry. The count goes down by one once the first three DWs of an entry
    /// are there; the data moves on to the next entry once the whole entry is there.
    pub fn next(&mut self) -> (r: Option<EnhancedAllocationEntry>)
        ensures
            ea_ended(old(self).spec_data(), old(self).spec_count()) ==> r is None,
            r is None ==> ea_ended(final(self).spec_data(), final(self).spec_count()),
            r matches Some(e) ==> ea_entry_well_formed(e),
            old(self).spec_count() == 0 || old(self).spec_data().len() < 12 ==> r is None && *final(self)
                == *old(self),
            old(self).spec_count() > 0 && old(self).spec_data().len() >= 12 ==> {
                &&& final(self).spec_count() == old(self).spec_count() - 1
                &&& r == Self::spec_read_entry(old(self).spec_data())
                &&& final(self).spec_data() == match r {
                    Some(e) => old(self).spec_data().skip((e.entry_size + 1) * 4),
                    None => old(self).spec_data(),
                }
            },
    {
        proof {
            lemma_read_entry_well_formed(self.data@);
        }
        if self.count == 0 || self.data.len() < 12 {
            return None;
        }
        let data = self.data;
        let first_dw = read_u32(data, 0);
        let base_lo = read_u32(data, 4);
        let max_offset_lo = read_u32(data, 8);
        self.count = self.count - 1;
        let entry_size = get_u8(first_dw, 0, 0x7);
        let base_64 = base_lo & 0b10 != 0;
        let max_offset_64 = max_offset_lo & 0b10 != 0;
        let max_offset_at: usize = if base_64 { 16 } else { 12 };
        let need: usize = max_offset_at + if max_offset_64 { 4 } else { 0 };
        let next_entry_start = (entry_size as usize + 1) * 4;
        if data.len() < need || data.len() < next_entry_start {
            return None;
        }
        let base = if base_64 {
            ResourceRangeAddress::U64(make_qword(base_lo & 0xffff_fffc, read_u32(data, 12)))
        } else {
            ResourceRangeAddress::U32(base_lo & 0xffff_fffc)
        };
        let max_offset = if max_offset_64 {
            ResourceRangeAddress::U64(make_qword(max_offset_lo | 0b11, read_u32(data, max_offset_at)))
        } else {
            ResourceRangeAddress::U32(max_offset_lo | 0b11)
        };
        self.data = &data[next_entry_start..data.len()];
        Some(
            EnhancedAllocationEntry {
                entry_size,
                bar_equivalent_indicator: BarEquivalentIndicator::from_bits(get_u8(first_dw, 4, 0xf)),
                primary_properties: ResourceDefinition::from(get_u8(first_dw, 8, 0xff)),
                secondary_properties: ResourceDefinition::from(get_u8(first_dw, 16, 0xff)),
                writable: get_flag(first_dw, 30),
                enable: get_flag(first_dw, 31),
                base,
                max_offset,
            },
        )
    }

    /// Reads the entries until one cannot be read.
    pub fn collect_entries(&mut self) -> (r: Vec<EnhancedAllocationEntry>)
        ensures
            r@ == ea_collect(old(self).spec_data(), old(self).spec_count()),
    {
        let mut r: Vec<EnhancedAllocationEntry> = Vec::new();
        loop
            invariant
                r@ + ea_collect(self.spec_data(), self.spec_count()) == ea_collect(
                    old(self).spec_data(),
                    old(self).spec_count(),
                ),
            decreases self.count,
        {
            let ghost (d0, c0) = (self.spec_data(), self.spec_count());
            let ghost before = r@;
            match self.next() {
                Some(e) => {
                    r.push(e);
                    let ghost rest = ea_collect(self.spec_data(), self.spec_count());
                    assert(ea_collect(d0, c0) == seq![e] + rest);
                    assert(r@ + rest =~= before + (seq![e] + rest));
                },
                None => {
                    assert(ea_collect(d0, c0) == Seq::<EnhancedAllocationEntry>::empty());
                    assert(r@ + seq![] =~= r@);
                    return r;
                },
            }
        }
    }
}

/// The entries that reading gives from the bytes `data` with `count` entries to read (see
/// `EnhancedAllocationEntries::next`), until one cannot be read.
pub open spec fn ea_collect(data: Seq<u8>, count: u8) -> Seq<EnhancedAllocationEntry>
    decreases count,
{
    if count == 0 || data.len() < 12 {
        seq![]
    } else {
        match EnhancedAllocationEntries::spec_read_entry(data) {
            None => seq![],
            Some(e) => seq![e] + ea_collect(data.skip((e.entry_size + 1) * 4), (count - 1) as u8),
        }
    }
}

/// Whether no more entry can be read from the bytes `data` with `count` entries to read: once
/// reading gives none, every later reading gives none too.
pub open spec fn ea_ended(data: Seq<u8>, count: u8) -> bool {
    count == 0 || data.len() < 12 || EnhancedAllocationEntries::spec_read_entry(data) is None
}

/// Whether an entry has the shape that reading gives: an entry size of at most 7 DWs, a base
/// with bits 1 and 0 clear, a maximum offset with bits 1 and 0 set.
pub open spec fn ea_entry_well_formed(e: EnhancedAllocationEntry) -> bool {
    &&& e.entry_size <= 7
    &&& match e.base {
        ResourceRangeAddress::U32(b) => b % 4 == 0,
        ResourceRangeAddress::U64(b) => b % 4 == 0,
    }
    &&& match e.max_offset {
        ResourceRangeAddress::U32(m) => m % 4 == 3,
        ResourceRangeAddress::U64(m) => m % 4 == 3,
    }
}

/// Every entry that is read has the shape of `ea_entry_well_formed`.
pub proof fn lemma_read_entry_well_formed(data: Seq<u8>)
    ensures
        EnhancedAllocationEntries::spec_read_entry(data) matches Some(e) ==> ea_entry_well_formed(e),
{
    let base_lo = le_u32(data, 4);
    let max_offset_lo = le_u32(data, 8);
    let b = base_lo & 0xffff_fffc;
    let m = max_offset_lo | 0b11;
    assert(b % 4 == 0 && m % 4 == 3) by (bit_vector)
        requires
            b == base_lo & 0xffff_fffc,
            m == max_offset_lo | 0b11,
    ;
    let base_hi = le_u32(data, 12);
    let max_hi = le_u32(data, if base_lo & 0b10 != 0 { 16int } else { 12int });
    assert(qword(b, base_hi) % 4 == 0) by (nonlinear_arith)
        requires
            b % 4 == 0,
            qword(b, base_hi) == base_hi as int * 0x1_0000_0000 + b as int,
    ;
    assert(qword(m, max_hi) % 4 == 3) by (nonlinear_arith)
        requires
            m % 4 == 3,
            qword(m, max_hi) == max_hi as int * 0x1_0000_0000 + m as int,
    ;
    assert(field(le_u32(data, 0), 0, 0x7) <= 7);
}

/// Reading the entries gives at most `count` entries, each of the shape of
/// `ea_entry_well_formed`.
pub proof fn lemma_ea_collect(data: Seq<u8>, count: u8)
    ensures
        ea_collect(data, count).len() <= count,
        forall|i: int|
            0 <= i < ea_collect(data, count).len() ==> ea_entry_well_formed(
                #[trigger] ea_collect(data, count)[i],
            ),
    decreases count,
{
    if count > 0 && data.len() >= 12 {
        lemma_read_entry_well_formed(data);
        match EnhancedAllocationEntries::spec_read_entry(data) {
            None => {},
            Some(e) => {
                let rest = data.skip((e.entry_size + 1) * 4);
                lemma_ea_collect(rest, (count - 1) as u8);
                let c = ea_collect(data, count);
                assert(c == seq![e] + ea_collect(rest, (count - 1) as u8));
                assert forall|i: int| 0 <= i < c.len() implies ea_entry_well_formed(#[trigger] c[i]) by {
                    if i > 0 {
                        assert(c[i] == ea_collect(rest, (count - 1) as u8)[i - 1]);
                    }
                }
            },
        }
    }
}

/// Second DW of the capability of a Type 1 function
#[derive(Debug, Clone, PartialEq, Eq)]
pub struct Type1SecondDw {
    pub fixed_secondary_bus_number: u8,
    pub fixed_subordinate_bus_number: u8,
}

/// Enhanced Allocation entry
#[derive(Debug, Clone, PartialEq, Eq)]
pub struct EnhancedAllocationEntry {
    /// Number of DWs following the initial DW in this entry
    pub entry_size: u8,
    pub bar_equivalent_indicator: BarEquivalentIndicator,
    pub primary_properties: ResourceDefinition,
    pub secondary_properties: ResourceDefinition,
    pub writable: bool,
    pub enable: bool,
    pub base: ResourceRangeAddress,
    pub max_offset: ResourceRangeAddress,
}

/// BAR Equivalent Indicator (BEI)
#[derive(Debug, Clone, PartialEq, Eq)]
pub enum BarEquivalentIndicator {
    Location10h,
    Location14h,
    Location18h,
    Location1Ch,
    Location20h,
    Location24h,
    BehindType1Function,
    EquivalentNotIndicated,
    ExpansionRomBaseAddress,
    VfBar0,
    VfBar1,
    VfBar2,
    VfBar3,
    VfBar4,
    VfBar5,
    Reserved,
}

impl BarEquivalentIndicator {
    /// The value that the field `byte` encodes; a field holds less than 16.
    pub open spec fn spec_from_bits(byte: u8) -> Self {
        match byte {
            0x0 => Self::Location10h,
            0x1 => Self::Location14h,
            0x2 => Self::Location18h,
            0x3 => Self::Location1Ch,
            0x4 => Self::Location20h,
            0x5 => Self::Location24h,
            0x6 => Self::BehindType1Function,
            0x7 => Self::EquivalentNotIndicated,
            0x8 => Self::ExpansionRomBaseAddress,
            0x9 => Self::VfBar0,
            0xA => Self::VfBar1,
            0xB => Self::VfBar2,
            0xC => Self::VfBar3,
            0xD => Self::VfBar4,
            0xE => Self::VfBar5,
            _ => Self::Reserved,
        }
    }

    /// Decodes the field `byte`.
    pub fn from_bits(byte: u8) -> (r: Self)
        requires
            byte < 16,
        ensures
            r == Self::spec_from_bits(byte),
    {
        match byte {
            0x0 => Self::Location10h,
            0x1 => Self::Location14h,
            0x2 => Self::Location18h,
            0x3 => Self::Location1Ch,
            0x4 => Self::Location20h,
            0x5 => Self::Location24h,
            0x6 => Self::BehindType1Function,
            0x7 => Self::EquivalentNotIndicated,
            0x8 => Self::ExpansionRomBaseAddress,
            0x9 => Self::VfBar0,
            0xA => Self::VfBar1,
            0xB => Self::VfBar2,
            0xC => Self::VfBar3,
            0xD => Self::VfBar4,
            0xE => Self::VfBar5,
            _ => Self::Reserved,
        }
    }
}

/// Primary or secondary properties of an entry
#[derive(Debug, Clone, PartialEq, Eq)]
pub enum ResourceDefinition {
    MemorySpaceNonPrefetchable,
    MemorySpacePrefetchable,
    IoSpace,
    PfForVfMemorySpacePrefetchable,
    PfForVfMemorySpaceNonPrefetchable,
    Type1ForAbbMemoryNonPrefetchable,
    Type1ForAbbMemoryPrefetchable,
    Type1ForAbbIoSpace,
    UnavailableMemorySpace,
    UnavailableIoSpace,
    Unavailable,
    Reserved(u8),
}

impl ResourceDefinition {
    /// The value that `byte` encodes.
    pub open spec fn spec_from(byte: u8) -> Self {
        match byte {
            0x00 => Self::MemorySpaceNonPrefetchable,
            0x01 => Self::MemorySpacePrefetchable,
            0x02 => Self::IoSpace,
            0x03 => Self::PfForVfMemorySpacePrefetchable,
            0x04 => Self::PfForVfMemorySpaceNonPrefetchable,
            0x05 => Self::Type1ForAbbMemoryNonPrefetchable,
            0x06 => Self::Type1ForAbbMemoryPrefetchable,
            0x07 => Self::Type1ForAbbIoSpace,
            0xFD => Self::UnavailableMemorySpace,
            0xFE => Self::UnavailableIoSpace,
            0xFF => Self::Unavailable,
            _ => Self::Reserved(byte),
        }
    }
}

impl vstd::std_specs::convert::FromSpecImpl<u8> for ResourceDefinition {
    open spec fn obeys_from_spec() -> bool {
        true
    }

    open spec fn from_spec(byte: u8) -> Self {
        Self::spec_from(byte)
    }
}

impl From<u8> for ResourceDefinition {
    fn from(byte: u8) -> (r: Self) {
        match byte {
            0x00 => Self::MemorySpaceNonPrefetchable,
            0x01 => Self::MemorySpacePrefetchable,
            0x02 => Self::IoSpace,
            0x03 => Self::PfForVfMemorySpacePrefetchable,
            0x04 => Self::PfForVfMemorySpaceNonPrefetchable,
            0x05 => Self::Type1ForAbbMemoryNonPrefetchable,
            0x06 => Self::Type1ForAbbMemoryPrefetchable,
            0x07 => Self::Type1ForAbbIoSpace,
            0xFD => Self::UnavailableMemorySpace,
            0xFE => Self::UnavailableIoSpace,
            0xFF => Self::Unavailable,
            _ => Self::Reserved(byte),
        }
    }
}

/// Base or maximum offset of a resource range
#[derive(Debug, Clone, PartialEq, Eq)]
pub enum ResourceRangeAddress {
    U32(u32),
    U64(u64),
}

} // verus!
