//! Serial ATA Data/Index Configuration capability.
use vstd::prelude::*;
use crate::bits::{field, get_bits, get_u8, le_u32, read_u32};
use super::CapabilityDataError;

verus! {

broadcast use crate::bits::lemma_field_le_mask;

/// Serial ATA capability
#[derive(Debug, Clone, PartialEq, Eq)]
pub struct Sata {
    pub revision: Revision,
    pub bar_offset: BarOffset,
    pub bar_location: BarLocation,
}

impl Sata {
    /// The capability that `bytes` (the data after the capability header) holds.
    pub open spec fn spec_parse(bytes: Seq<u8>) -> Result<Self, CapabilityDataError> {
        if bytes.len() < 6 {
            Err(CapabilityDataError { name: "Serial ATA", size: 6 })
        } else {
            let cap = le_u32(bytes, 2);
            Ok(Sata {
                revision: Revision {
                    minor: field(bytes[0] as u32, 0, 0xf) as u8,
                    major: field(bytes[0] as u32, 4, 0xf) as u8,
                },
                bar_offset: BarOffset(field(cap, 4, 0xfffff)),
                bar_location: BarLocation::spec_from(field(cap, 0, 0xf) as u8),
            })
        }
    }
}

impl vstd::std_specs::convert::TryFromSpecImpl<&[u8]> for Sata {
    open spec fn obeys_try_from_spec() -> bool {
        true
    }

    open spec fn try_from_spec(slice: &[u8]) -> Result<Self, Self::Error> {
        Self::spec_parse(slice@)
    }
}

impl TryFrom<&[u8]> for Sata {
    type Error = CapabilityDataError;

    fn try_from(slice: &[u8]) -> (r: Result<Self, Self::Error>) {
        if slice.len() < 6 {
            return Err(CapabilityDataError { name: "Serial ATA", size: 6 });
        }
        let cap = read_u32(slice, 2);
        Ok(Sata {
            revision: Revision {
                minor: get_u8(slice[0] as u32, 0, 0xf),
                major: get_u8(slice[0] as u32, 4, 0xf),
            },
            bar_offset: BarOffset(get_bits(cap, 4, 0xfffff)),
            bar_location: BarLocation::from(get_u8(cap, 0, 0xf)),
        })
    }
}

/// Serial ATA capability revision
#[derive(Debug, Clone, PartialEq, Eq)]
pub struct Revision {
    pub minor: u8,
    pub major: u8,
}

/// BAR that holds the SATA index-data pair
#[derive(Debug, Clone, PartialEq, Eq)]
pub enum BarLocation {
    Bar0,
    Bar1,
    Bar2,
    Bar3,
    Bar4,
    Bar5,
    SataCapability1,
    Reserved(u8),
}

impl BarLocation {
    /// The value that `byte` encodes.
    pub open spec fn spec_from(byte: u8) -> Self {
        match byte {
            0b0100 => Self::Bar0,
            0b0101 => Self::Bar1,
            0b0110 => Self::Bar2,
            0b0111 => Self::Bar3,
            0b1000 => Self::Bar4,
            0b1001 => Self::Bar5,
            0b1111 => Self::SataCapability1,
            _ => Self::Reserved(byte),
        }
    }
}

impl vstd::std_specs::convert::FromSpecImpl<u8> for BarLocation {
    open spec fn obeys_from_spec() -> bool {
        true
    }

    open spec fn from_spec(byte: u8) -> Self {
        Self::spec_from(byte)
    }
}

impl From<u8> for BarLocation {
    fn from(byte: u8) -> (r: Self) {
        match byte {
            0b0100 => Self::Bar0,
            0b0101 => Self::Bar1,
            0b0110 => Self::Bar2,
            0b0111 => Self::Bar3,
            0b1000 => Self::Bar4,
            0b1001 => Self::Bar5,
            0b1111 => Self::SataCapability1,
            _ => Self::Reserved(byte),
        }
    }
}

/// Offset into the BAR in DWORD granularity
#[derive(Debug, Clone, PartialEq, Eq)]
pub struct BarOffset(pub u32);

impl BarOffset {
    /// The offset in bytes: four times the field.
    pub fn value(&self) -> (r: u32)
        requires
            self.0 * 4 <= u32::MAX,
        ensures
            r == self.0 * 4,
    {
        self.0 * 4
    }
}

} // verus!
