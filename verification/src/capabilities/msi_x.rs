//! MSI-X capability.
use vstd::prelude::*;
use crate::bits::{field, flag, get_bits, get_flag, get_u8, get_u16, le_u16, le_u32, read_u16, read_u32};
use super::CapabilityDataError;

verus! {

broadcast use crate::bits::lemma_field_le_mask;

/// MSI-X capability
#[derive(Debug, Clone, PartialEq, Eq)]
pub struct MsiX {
    pub message_control: MessageControl,
    pub table: Table,
    pub pending_bit_array: PendingBitArray,
}

impl MsiX {
    /// Size of the capability data
    pub const SIZE: usize = 10;

    /// The capability that the first ten bytes of `bytes` hold.
    pub open spec fn spec_from_bytes(bytes: Seq<u8>) -> Self {
        MsiX {
            message_control: MessageControl::spec_from(le_u16(bytes, 0)),
            table: Table::spec_from(le_u32(bytes, 2)),
            pending_bit_array: PendingBitArray::spec_from(le_u32(bytes, 6)),
        }
    }

    /// The capability that `bytes` (the data after the capability header) holds.
    pub open spec fn spec_parse(bytes: Seq<u8>) -> Result<Self, CapabilityDataError> {
        if bytes.len() < 10 {
            Err(CapabilityDataError { name: "MSI-X", size: 10 })
        } else {
            Ok(Self::spec_from_bytes(bytes))
        }
    }

    fn from_bytes(bytes: &[u8]) -> (r: Self)
        requires
            bytes@.len() >= 10,
        ensures
            r == Self::spec_from_bytes(bytes@),
    {
        MsiX {
            message_control: MessageControl::from(read_u16(bytes, 0)),
            table: Table::from(read_u32(bytes, 2)),
            pending_bit_array: PendingBitArray::from(read_u32(bytes, 6)),
        }
    }
}

impl vstd::std_specs::convert::FromSpecImpl<[u8; 10]> for MsiX {
    open spec fn obeys_from_spec() -> bool {
        true
    }

    open spec fn from_spec(bytes: [u8; 10]) -> Self {
        Self::spec_from_bytes(bytes@)
    }
}

impl From<[u8; 10]> for MsiX {
    fn from(bytes: [u8; 10]) -> (r: Self) {
        Self::from_bytes(bytes.as_slice())
    }
}

impl vstd::std_specs::convert::TryFromSpecImpl<&[u8]> for MsiX {
    open spec fn obeys_try_from_spec() -> bool {
        true
    }

    open spec fn try_from_spec(slice: &[u8]) -> Result<Self, Self::Error> {
        Self::spec_parse(slice@)
    }
}

impl TryFrom<&[u8]> for MsiX {
    type Error = CapabilityDataError;

    fn try_from(slice: &[u8]) -> (r: Result<Self, Self::Error>) {
        if slice.len() < 10 {
            return Err(CapabilityDataError { name: "MSI-X", size: 10 });
        }
        Ok(Self::from_bytes(slice))
    }
}

/// MSI-X Message Control register
#[derive(Debug, Clone, PartialEq, Eq)]
pub struct MessageControl {
    /// Table Size (N - 1)
    pub table_size: u16,
    pub function_mask: bool,
    pub msi_x_enable: bool,
}

impl MessageControl {
    /// The fields of the register value `word`.
    pub open spec fn spec_from(word: u16) -> Self {
        MessageControl {
            table_size: field(word as u32, 0, 0x7ff) as u16,
            function_mask: flag(word as u32, 14),
            msi_x_enable: flag(word as u32, 15),
        }
    }
}

impl vstd::std_specs::convert::FromSpecImpl<u16> for MessageControl {
    open spec fn obeys_from_spec() -> bool {
        true
    }

    open spec fn from_spec(word: u16) -> Self {
        Self::spec_from(word)
    }
}

impl From<u16> for MessageControl {
    fn from(word: u16) -> (r: Self) {
        let w = word as u32;
        MessageControl {
            table_size: get_u16(w, 0, 0x7ff),
            function_mask: get_flag(w, 14),
            msi_x_enable: get_flag(w, 15),
        }
    }
}

/// BAR Indicator register
#[derive(Debug, Clone, PartialEq, Eq)]
pub enum Bir {
    Bar10h,
    Bar14h,
    Bar18h,
    Bar1Ch,
    Bar20h,
    Bar24h,
    Reserved(u8),
}

impl Bir {
    /// The value that `byte` encodes.
    pub open spec fn spec_from(byte: u8) -> Self {
        match byte {
            0 => Self::Bar10h,
            1 => Self::Bar14h,
            2 => Self::Bar18h,
            3 => Self::Bar1Ch,
            4 => Self::Bar20h,
            5 => Self::Bar24h,
            _ => Self::Reserved(byte),
        }
    }
}

impl vstd::std_specs::convert::FromSpecImpl<u8> for Bir {
    open spec fn obeys_from_spec() -> bool {
        true
    }

    open spec fn from_spec(byte: u8) -> Self {
        Self::spec_from(byte)
    }
}

impl From<u8> for Bir {
    fn from(byte: u8) -> (r: Self) {
        match byte {
            0 => Self::Bar10h,
            1 => Self::Bar14h,
            2 => Self::Bar18h,
            3 => Self::Bar1Ch,
            4 => Self::Bar20h,
            5 => Self::Bar24h,
            _ => Self::Reserved(byte),
        }
    }
}

/// MSI-X Table location
#[derive(Debug, Clone, PartialEq, Eq)]
pub struct Table {
    pub bir: Bir,
    /// Offset of the table in the BAR: the register with its BIR bits cleared
    pub offset: u32,
}

impl Table {
    /// The table location that the register value `dword` holds.
    pub open spec fn spec_from(dword: u32) -> Self {
        Table { bir: Bir::spec_from(field(dword, 0, 0x7) as u8), offset: (field(dword, 3, 0x1fff_ffff) * 8) as u32 }
    }
}

impl vstd::std_specs::convert::FromSpecImpl<u32> for Table {
    open spec fn obeys_from_spec() -> bool {
        true
    }

    open spec fn from_spec(dword: u32) -> Self {
        Self::spec_from(dword)
    }
}

impl From<u32> for Table {
    fn from(dword: u32) -> (r: Self) {
        Table { bir: Bir::from(get_u8(dword, 0, 0x7)), offset: get_bits(dword, 3, 0x1fff_ffff) * 8 }
    }
}

/// MSI-X Pending Bit Array location
#[derive(Debug, Clone, PartialEq, Eq)]
pub struct PendingBitArray {
    pub bir: Bir,
    /// Offset of the array in the BAR: the register with its BIR bits cleared
    pub offset: u32,
}

impl PendingBitArray {
    /// The array location that the register value `dword` holds.
    pub open spec fn spec_from(dword: u32) -> Self {
        PendingBitArray {
            bir: Bir::spec_from(field(dword, 0, 0x7) as u8),
            offset: (field(dword, 3, 0x1fff_ffff) * 8) as u32,
        }
    }
}

impl vstd::std_specs::convert::FromSpecImpl<u32> for PendingBitArray {
    open spec fn obeys_from_spec() -> bool {
        true
    }

    open spec fn from_spec(dword: u32) -> Self {
        Self::spec_from(dword)
    }
}

impl From<u32> for PendingBitArray {
    fn from(dword: u32) -> (r: Self) {
        PendingBitArray {
            bir: Bir::from(get_u8(dword, 0, 0x7)),
            offset: get_bits(dword, 3, 0x1fff_ffff) * 8,
        }
    }
}


/// The fields of an MSI-X Message Control register word `w`: the Table Size is bits 10:0,
/// Function Mask bit 14 and MSI-X Enable bit 15.
pub proof fn lemma_message_control_fields(w: u16)
    ensures
        ({
            let c = MessageControl::spec_from(w);
            let v = w as int;
            &&& c.table_size as int == v % 2048
            &&& c.function_mask == ((v / 16384) % 2 == 1)
            &&& c.msi_x_enable == ((v / 32768) % 2 == 1)
        }),
{
    let x = w as u32;
    vstd::bits::lemma_low_bits_mask_values();
    vstd::arithmetic::power2::lemma2_to64();
    crate::bits::lemma_field_div_mod(x, 0, 0x7ff, 11);
    crate::bits::lemma_flag_div_mod(x, 14);
    crate::bits::lemma_flag_div_mod(x, 15);
}

/// Reading the capability takes its Message Control register from the first two bytes, low
/// byte first: the Function Mask is bit 6 and MSI-X Enable bit 7 of the second byte.
pub proof fn lemma_parse_message_control(bytes: Seq<u8>)
    requires
        bytes.len() >= 10,
    ensures
        MsiX::spec_parse(bytes) is Ok,
        ({
            let c = MsiX::spec_parse(bytes)->Ok_0.message_control;
            &&& c.table_size as int == bytes[0] as int + (bytes[1] as int % 8) * 256
            &&& c.function_mask == ((bytes[1] as int / 64) % 2 == 1)
            &&& c.msi_x_enable == (bytes[1] as int / 128 == 1)
        }),
{
    lemma_message_control_fields(le_u16(bytes, 0));
}

} // verus!
