//! Resizable BAR extended capability.
//!
//! The capability is read from data that starts with its extended capability header; the
//! entries follow the header, 8 bytes each.
use vstd::prelude::*;
use crate::bits::{field, get_u16, get_u8, le_u32, read_u32};

verus! {

broadcast use crate::bits::lemma_field_le_mask;

/// Resizable BAR errors
#[derive(Debug, Clone, PartialEq, Eq)]
pub enum ResizableBarError {
    /// The first entry is not there
    FirstEntry,
    /// The Number of Resizable BARs should be 1 to 6
    NumberOfResizableBars { value: usize },
    /// The data is shorter than the entries
    ShortData,
}

/// The entries of a Resizable BAR capability, read one after another
#[derive(Debug, Clone, PartialEq, Eq)]
pub struct ResizableBar<'a> {
    data: &'a [u8],
}

/// The entry that the 8 bytes at `at` in `data` hold.
pub open spec fn spec_entry_at(data: Seq<u8>, at: int) -> ResizableBarEntry {
    ResizableBarEntry {
        capability: ResizableBarCapability::spec_from(le_u32(data, at)),
        control: ResizableBarControl::spec_from(le_u32(data, at + 4)),
    }
}

impl<'a> ResizableBar<'a> {
    /// Entry size: the Resizable BAR Capability and Control registers
    pub const ENTRY_SIZE: usize = 4 + 4;

    /// The bytes of the entries that are not read yet.
    pub closed spec fn spec_data(&self) -> Seq<u8> {
        self.data@
    }

    /// Whether `r` is what reading the capability from `bytes` (data that starts with the
    /// extended capability header) gives: the Number of Resizable BARs is bits 5 to 7 of the
    /// first Control register.
    pub open spec fn spec_parse(bytes: Seq<u8>, r: Result<Self, ResizableBarError>) -> bool {
        if bytes.len() < 12 {
            r == Err::<Self, ResizableBarError>(ResizableBarError::FirstEntry)
        } else {
            let n = field(le_u32(bytes, 8), 5, 0x7);
            if n < 1 || n > 6 {
                r == Err::<Self, ResizableBarError>(
                    ResizableBarError::NumberOfResizableBars { value: n as usize },
                )
            } else if 4 + n * 8 > bytes.len() {
                r == Err::<Self, ResizableBarError>(ResizableBarError::ShortData)
            } else {
                r matches Ok(v) && v.spec_data() == bytes.subrange(4, 4 + n * 8)
            }
        }
    }

    /// Reads the capability from `slice`, data that starts with the extended capability header.
    pub fn parse(slice: &'a [u8]) -> (r: Result<Self, ResizableBarError>)
        ensures
            Self::spec_parse(slice@, r),
    {
        if slice.len() < 12 {
            return Err(ResizableBarError::FirstEntry);
        }
        let n = get_u8(read_u32(slice, 8), 5, 0x7) as usize;
        if n < 1 || n > 6 {
            return Err(ResizableBarError::NumberOfResizableBars { value: n });
        }
        let end = 4 + n * Self::ENTRY_SIZE;
        if end > slice.len() {
            return Err(ResizableBarError::ShortData);
        }
        Ok(ResizableBar { data: &slice[4..end] })
    }

    /// Reads the next entry: the next 8 bytes, or none where fewer are left (they are dropped).
    pub fn next(&mut self) -> (r: Option<ResizableBarEntry>)
        ensures
            old(self).spec_data().len() >= 8 ==> r == Some(spec_entry_at(old(self).spec_data(), 0))
                && final(self).spec_data() == old(self).spec_data().skip(8),
            old(self).spec_data().len() < 8 ==> r is None && final(self).spec_data().len() == 0,
    {
        if self.data.len() < 8 {
            self.data = &self.data[0..0];
            return None;
        }
        let data = self.data;
        self.data = &data[8..data.len()];
        assert(self.data@ == data@.skip(8));
        Some(
            ResizableBarEntry {
                capability: ResizableBarCapability::from(read_u32(data, 0)),
                control: ResizableBarControl::from(read_u32(data, 4)),
            },
        )
    }

    /// Reads all the entries.
    pub fn entries(&mut self) -> (r: Vec<ResizableBarEntry>)
        ensures
            r.len() == old(self).spec_data().len() / 8,
            forall|i: int|
                0 <= i < r.len() ==> #[trigger] r[i] == spec_entry_at(old(self).spec_data(), 8 * i),
    {
        let ghost d = self.data@;
        let mut r: Vec<ResizableBarEntry> = Vec::new();
        loop
            invariant
                self.spec_data() == d.skip(8 * r.len()),
                8 * r.len() <= d.len(),
                d == old(self).spec_data(),
                forall|i: int| 0 <= i < r.len() ==> #[trigger] r[i] == spec_entry_at(d, 8 * i),
            decreases self.spec_data().len(),
        {
            let ghost before = self.spec_data();
            match self.next() {
                Some(e) => {
                    assert(le_u32(before, 0) == le_u32(d, 8 * r.len()));
                    assert(le_u32(before, 4) == le_u32(d, 8 * r.len() + 4));
                    r.push(e);
                    assert(self.spec_data() =~= d.skip(8 * r.len()));
                },
                None => {
                    return r;
                },
            }
        }
    }
}

impl<'a> vstd::std_specs::convert::TryFromSpecImpl<&'a [u8]> for ResizableBar<'a> {
    open spec fn obeys_try_from_spec() -> bool {
        false
    }

    open spec fn try_from_spec(slice: &'a [u8]) -> Result<Self, Self::Error> {
        arbitrary()
    }
}

impl<'a> TryFrom<&'a [u8]> for ResizableBar<'a> {
    type Error = ResizableBarError;

    fn try_from(slice: &'a [u8]) -> (r: Result<Self, Self::Error>)
        ensures
            Self::spec_parse(slice@, r),
    {
        Self::parse(slice)
    }
}

/// Resizable BAR entry
#[derive(Debug, Clone, PartialEq, Eq)]
pub struct ResizableBarEntry {
    pub capability: ResizableBarCapability,
    pub control: ResizableBarControl,
}

impl ResizableBarEntry {
    /// The BAR sizes, from 1 MB (2 to the power 20) up
    pub const BAR_SIZES: [&'static str; 44] = [
        "1MB", "2MB", "4MB", "8MB", "16MB", "32MB", "64MB", "128MB", "256MB", "512MB",
        "1GB", "2GB", "4GB", "8GB", "16GB", "32GB", "64GB", "128GB", "256GB", "512GB",
        "1TB", "2TB", "4TB", "8TB", "16TB", "32TB", "64TB", "128TB", "256TB", "512TB",
        "1PB", "2PB", "4PB", "8PB", "16PB", "32PB", "64PB", "128PB", "256PB", "512PB",
        "1EB", "2EB", "4EB", "8EB",
    ];

    /// Whether the Function can operate with the BAR sized to 2 to the power `power`: bit
    /// `power - 16` of the capability's map for 2^20 to 2^47, bit `power - 48` of the
    /// control's map for 2^48 to 2^63.
    pub open spec fn spec_supports_power_of_two(&self, power: usize) -> bool {
        if 20 <= power <= 47 {
            (self.capability.support_map_from_1mb_to_128tb >> ((power - 16) as u32)) & 1 == 1
        } else if 48 <= power <= 63 {
            (self.control.support_map_from_256tb_to_8eb >> ((power - 48) as u16)) & 1 == 1
        } else {
            false
        }
    }

    /// Whether the Function can operate with the BAR sized to 2 to the power `power`.
    pub fn is_function_supports_power_of_two(&self, power: usize) -> (r: bool)
        ensures
            r == self.spec_supports_power_of_two(power),
    {
        if 20 <= power && power <= 47 {
            let s = (power - 16) as u32;
            let m = self.capability.support_map_from_1mb_to_128tb;
            assert(m & (1u32 << s) != 0 <==> (m >> s) & 1 == 1) by (bit_vector)
                requires
                    s < 32,
            ;
            m & (1u32 << s) != 0
        } else if 48 <= power && power <= 63 {
            let s = (power - 48) as u16;
            let m = self.control.support_map_from_256tb_to_8eb;
            assert(m & (1u16 << s) != 0 <==> (m >> s) & 1 == 1) by (bit_vector)
                requires
                    s < 16,
            ;
            m & (1u16 << s) != 0
        } else {
            false
        }
    }
}

/// Resizable BAR Capability register: the BAR sizes from 1 MB to 128 TB that the Function
/// supports
#[derive(Debug, Clone, PartialEq, Eq)]
pub struct ResizableBarCapability {
    pub support_map_from_1mb_to_128tb: u32,
}

impl ResizableBarCapability {
    /// The register value `dword`.
    pub open spec fn spec_from(dword: u32) -> Self {
        ResizableBarCapability { support_map_from_1mb_to_128tb: dword }
    }
}

impl vstd::std_specs::convert::FromSpecImpl<u32> for ResizableBarCapability {
    open spec fn obeys_from_spec() -> bool {
        true
    }

    open spec fn from_spec(dword: u32) -> Self {
        Self::spec_from(dword)
    }
}

impl From<u32> for ResizableBarCapability {
    fn from(dword: u32) -> (r: Self) {
        ResizableBarCapability { support_map_from_1mb_to_128tb: dword }
    }
}

/// Resizable BAR Control register
#[derive(Debug, Clone, PartialEq, Eq)]
pub struct ResizableBarControl {
    /// The BAR that the entry describes
    pub bar_index: u8,
    /// Number of Resizable BARs (in the first entry)
    pub number_of_resizable_bars: u8,
    /// The BAR size in use: 2 to the power of 20 plus the field
    pub bar_size: u8,
    /// The BAR sizes from 256 TB to 8 EB that the Function supports
    pub support_map_from_256tb_to_8eb: u16,
}

impl ResizableBarControl {
    /// The fields of the register value `dword`.
    pub open spec fn spec_from(dword: u32) -> Self {
        ResizableBarControl {
            bar_index: field(dword, 0, 0x7) as u8,
            number_of_resizable_bars: field(dword, 5, 0x7) as u8,
            bar_size: field(dword, 8, 0x3f) as u8,
            support_map_from_256tb_to_8eb: field(dword, 16, 0xffff) as u16,
        }
    }
}

impl vstd::std_specs::convert::FromSpecImpl<u32> for ResizableBarControl {
    open spec fn obeys_from_spec() -> bool {
        true
    }

    open spec fn from_spec(dword: u32) -> Self {
        Self::spec_from(dword)
    }
}

impl From<u32> for ResizableBarControl {
    fn from(dword: u32) -> (r: Self) {
        ResizableBarControl {
            bar_index: get_u8(dword, 0, 0x7),
            number_of_resizable_bars: get_u8(dword, 5, 0x7),
            bar_size: get_u8(dword, 8, 0x3f),
            support_map_from_256tb_to_8eb: get_u16(dword, 16, 0xffff),
        }
    }
}

} // verus!
