//! Flattening Portal Bridge (FPB) capability.
use vstd::prelude::*;
use crate::bits::{field, flag, get_bits, get_flag, get_u8, get_u16, le_u16, le_u32, read_u16, read_u32};
use super::CapabilityDataError;

verus! {

broadcast use crate::bits::lemma_field_le_mask;

/// Flattening Portal Bridge capability
#[derive(Debug, Clone, PartialEq, Eq)]
pub struct FlatteningPortalBridge {
    pub reserved: u16,
    pub fpb_capabilities: FpbCapabilities,
    pub fpb_rid_vector_control: FpbRidVectorControl,
    pub fpb_mem_low_vector_control: FpbMemLowVectorControl,
    pub fpb_mem_high_vector_control: FpbMemHighVectorControl,
    pub fpb_vector_access_control: FpbVectorAccessControl,
    pub fpb_vector_access_data: u32,
}

impl FlatteningPortalBridge {
    /// Size of the capability data
    pub const SIZE: usize = 34;

    /// The capability that the first 34 bytes of `bytes` hold.
    pub open spec fn spec_from_bytes(bytes: Seq<u8>) -> Self {
        FlatteningPortalBridge {
            reserved: le_u16(bytes, 0),
            fpb_capabilities: FpbCapabilities::spec_from(le_u32(bytes, 2)),
            fpb_rid_vector_control: FpbRidVectorControl::spec_new(le_u32(bytes, 6), le_u32(bytes, 10)),
            fpb_mem_low_vector_control: FpbMemLowVectorControl::spec_from(le_u32(bytes, 14)),
            fpb_mem_high_vector_control: FpbMemHighVectorControl::spec_new(
                le_u32(bytes, 18),
                le_u32(bytes, 22),
            ),
            fpb_vector_access_control: FpbVectorAccessControl::spec_from(le_u32(bytes, 26)),
            fpb_vector_access_data: le_u32(bytes, 30),
        }
    }

    /// The capability that `bytes` (the data after the capability header) holds.
    pub open spec fn spec_parse(bytes: Seq<u8>) -> Result<Self, CapabilityDataError> {
        if bytes.len() < 34 {
            Err(CapabilityDataError { name: "Flattening Portal Bridge", size: 34 })
        } else {
            Ok(Self::spec_from_bytes(bytes))
        }
    }

    fn from_bytes(bytes: &[u8]) -> (r: Self)
        requires
            bytes@.len() >= 34,
        ensures
            r == Self::spec_from_bytes(bytes@),
    {
        FlatteningPortalBridge {
            reserved: read_u16(bytes, 0),
            fpb_capabilities: FpbCapabilities::from(read_u32(bytes, 2)),
            fpb_rid_vector_control: FpbRidVectorControl::new(read_u32(bytes, 6), read_u32(bytes, 10)),
            fpb_mem_low_vector_control: FpbMemLowVectorControl::from(read_u32(bytes, 14)),
            fpb_mem_high_vector_control: FpbMemHighVectorControl::new(
                read_u32(bytes, 18),
                read_u32(bytes, 22),
            ),
            fpb_vector_access_control: FpbVectorAccessControl::from(read_u32(bytes, 26)),
            fpb_vector_access_data: read_u32(bytes, 30),
        }
    }
}

impl vstd::std_specs::convert::FromSpecImpl<[u8; 34]> for FlatteningPortalBridge {
    open spec fn obeys_from_spec() -> bool {
        true
    }

    open spec fn from_spec(bytes: [u8; 34]) -> Self {
        Self::spec_from_bytes(bytes@)
    }
}

impl From<[u8; 34]> for FlatteningPortalBridge {
    fn from(bytes: [u8; 34]) -> (r: Self) {
        Self::from_bytes(bytes.as_slice())
    }
}

impl vstd::std_specs::convert::TryFromSpecImpl<&[u8]> for FlatteningPortalBridge {
    open spec fn obeys_try_from_spec() -> bool {
        true
    }

    open spec fn try_from_spec(slice: &[u8]) -> Result<Self, Self::Error> {
        Self::spec_parse(slice@)
    }
}

impl TryFrom<&[u8]> for FlatteningPortalBridge {
    type Error = CapabilityDataError;

    fn try_from(slice: &[u8]) -> (r: Result<Self, Self::Error>) {
        if slice.len() < 34 {
            return Err(CapabilityDataError { name: "Flattening Portal Bridge", size: 34 });
        }
        Ok(Self::from_bytes(slice))
    }
}

/// FPB Capabilities register
#[derive(Debug, Clone, PartialEq, Eq)]
pub struct FpbCapabilities {
    pub fpb_rid_decode_mechanism_supported: bool,
    pub fpb_mem_low_decode_mechanism_supported: bool,
    pub fpb_mem_high_decode_mechanism_supported: bool,
    pub fpb_num_sec_dev: u8,
    pub fpb_rid_vector_size_supported: FpbRidVectorSizeSupported,
    pub fpb_mem_low_vector_size_supported: FpbMemLowVectorSizeSupported,
    pub fpb_mem_high_vector_size_supported: FpbMemHighVectorSizeSupported,
}

impl FpbCapabilities {
    /// The fields of the register value `dword`.
    pub open spec fn spec_from(dword: u32) -> Self {
        FpbCapabilities {
            fpb_rid_decode_mechanism_supported: flag(dword, 0),
            fpb_mem_low_decode_mechanism_supported: flag(dword, 1),
            fpb_mem_high_decode_mechanism_supported: flag(dword, 2),
            fpb_num_sec_dev: field(dword, 3, 0x1f) as u8,
            fpb_rid_vector_size_supported: FpbRidVectorSizeSupported::spec_from(field(dword, 8, 0x7) as u8),
            fpb_mem_low_vector_size_supported: FpbMemLowVectorSizeSupported::spec_from(field(dword, 16, 0x7) as u8),
            fpb_mem_high_vector_size_supported: FpbMemHighVectorSizeSupported::spec_from(field(dword, 24, 0x7) as u8),
        }
    }
}

impl vstd::std_specs::convert::FromSpecImpl<u32> for FpbCapabilities {
    open spec fn obeys_from_spec() -> bool {
        true
    }

    open spec fn from_spec(dword: u32) -> Self {
        Self::spec_from(dword)
    }
}

impl From<u32> for FpbCapabilities {
    fn from(dword: u32) -> (r: Self) {
        FpbCapabilities {
            fpb_rid_decode_mechanism_supported: get_flag(dword, 0),
            fpb_mem_low_decode_mechanism_supported: get_flag(dword, 1),
            fpb_mem_high_decode_mechanism_supported: get_flag(dword, 2),
            fpb_num_sec_dev: get_u8(dword, 3, 0x1f),
            fpb_rid_vector_size_supported: FpbRidVectorSizeSupported::from(get_u8(dword, 8, 0x7)),
            fpb_mem_low_vector_size_supported: FpbMemLowVectorSizeSupported::from(get_u8(dword, 16, 0x7)),
            fpb_mem_high_vector_size_supported: FpbMemHighVectorSizeSupported::from(get_u8(dword, 24, 0x7)),
        }
    }
}

/// Size of the RID vector
#[derive(Debug, Clone, PartialEq, Eq)]
pub enum FpbRidVectorSizeSupported {
    Size256bits,
    Size1Kbits,
    Size8kbits,
    Reserved(u8),
}

impl FpbRidVectorSizeSupported {
    /// The value that `byte` encodes.
    pub open spec fn spec_from(byte: u8) -> Self {
        match byte {
            0b000 => Self::Size256bits,
            0b010 => Self::Size1Kbits,
            0b101 => Self::Size8kbits,
            _ => Self::Reserved(byte),
        }
    }
}

impl vstd::std_specs::convert::FromSpecImpl<u8> for FpbRidVectorSizeSupported {
    open spec fn obeys_from_spec() -> bool {
        true
    }

    open spec fn from_spec(byte: u8) -> Self {
        Self::spec_from(byte)
    }
}

impl From<u8> for FpbRidVectorSizeSupported {
    fn from(byte: u8) -> (r: Self) {
        match byte {
            0b000 => Self::Size256bits,
            0b010 => Self::Size1Kbits,
            0b101 => Self::Size8kbits,
            _ => Self::Reserved(byte),
        }
    }
}

/// Size of the MEM Low vector
#[derive(Debug, Clone, PartialEq, Eq)]
pub enum FpbMemLowVectorSizeSupported {
    Size256bits,
    Size512bits,
    Size1Kbits,
    Size2Kbits,
    Size4Kbits,
    Reserved(u8),
}

impl FpbMemLowVectorSizeSupported {
    /// The value that `byte` encodes.
    pub open spec fn spec_from(byte: u8) -> Self {
        match byte {
            0b000 => Self::Size256bits,
            0b001 => Self::Size512bits,
            0b010 => Self::Size1Kbits,
            0b011 => Self::Size2Kbits,
            0b100 => Self::Size4Kbits,
            _ => Self::Reserved(byte),
        }
    }
}

impl vstd::std_specs::convert::FromSpecImpl<u8> for FpbMemLowVectorSizeSupported {
    open spec fn obeys_from_spec() -> bool {
        true
    }

    open spec fn from_spec(byte: u8) -> Self {
        Self::spec_from(byte)
    }
}

impl From<u8> for FpbMemLowVectorSizeSupported {
    fn from(byte: u8) -> (r: Self) {
        match byte {
            0b000 => Self::Size256bits,
            0b001 => Self::Size512bits,
            0b010 => Self::Size1Kbits,
            0b011 => Self::Size2Kbits,
            0b100 => Self::Size4Kbits,
            _ => Self::Reserved(byte),
        }
    }
}

/// Size of the MEM High vector
#[derive(Debug, Clone, PartialEq, Eq)]
pub enum FpbMemHighVectorSizeSupported {
    Size256bits,
    Size512bits,
    Size1Kbits,
    Size2Kbits,
    Size4Kbits,
    Size8Kbits,
    Reserved(u8),
}

impl FpbMemHighVectorSizeSupported {
    /// The value that `byte` encodes.
    pub open spec fn spec_from(byte: u8) -> Self {
        match byte {
            0b000 => Self::Size256bits,
            0b001 => Self::Size512bits,
            0b010 => Self::Size1Kbits,
            0b011 => Self::Size2Kbits,
            0b100 => Self::Size4Kbits,
            0b101 => Self::Size8Kbits,
            _ => Self::Reserved(byte),
        }
    }
}

impl vstd::std_specs::convert::FromSpecImpl<u8> for FpbMemHighVectorSizeSupported {
    open spec fn obeys_from_spec() -> bool {
        true
    }

    open spec fn from_spec(byte: u8) -> Self {
        Self::spec_from(byte)
    }
}

impl From<u8> for FpbMemHighVectorSizeSupported {
    fn from(byte: u8) -> (r: Self) {
        match byte {
            0b000 => Self::Size256bits,
            0b001 => Self::Size512bits,
            0b010 => Self::Size1Kbits,
            0b011 => Self::Size2Kbits,
            0b100 => Self::Size4Kbits,
            0b101 => Self::Size8Kbits,
            _ => Self::Reserved(byte),
        }
    }
}

/// FPB RID Vector Control 1 and 2 registers
#[derive(Debug, Clone, PartialEq, Eq)]
pub struct FpbRidVectorControl {
    pub fpb_rid_decode_mechanism_enable: bool,
    pub fpb_rid_vector_granularity: FpbRidVectorGranularity,
    /// RID of the start of the vector, aligned to the granularity
    pub fpb_rid_vector_start: u16,
    pub rid_secondary_start: u16,
}

impl FpbRidVectorControl {
    /// The registers with the values `control_1` and `control_2`.
    pub open spec fn spec_new(control_1: u32, control_2: u32) -> Self {
        let granularity = field(control_1, 4, 0xf) as u8;
        let start = field(control_1, 19, 0x1fff) as u16;
        FpbRidVectorControl {
            fpb_rid_decode_mechanism_enable: flag(control_1, 0),
            fpb_rid_vector_granularity: FpbRidVectorGranularity::spec_from(granularity),
            fpb_rid_vector_start: (start << 3u16) & (0xffffu16 << ((3 + granularity) % 16) as u16),
            rid_secondary_start: field(control_2, 3, 0x1fff) as u16,
        }
    }

    fn new(control_1: u32, control_2: u32) -> (r: Self)
        ensures
            r == Self::spec_new(control_1, control_2),
    {
        let granularity = get_u8(control_1, 4, 0xf);
        let start = get_u16(control_1, 19, 0x1fff);
        FpbRidVectorControl {
            fpb_rid_decode_mechanism_enable: get_flag(control_1, 0),
            fpb_rid_vector_granularity: FpbRidVectorGranularity::from(granularity),
            fpb_rid_vector_start: (start << 3u16) & (0xffffu16 << ((3 + granularity) % 16) as u16),
            rid_secondary_start: get_u16(control_2, 3, 0x1fff),
        }
    }
}

/// Granularity of the RID vector
#[derive(Debug, Clone, PartialEq, Eq)]
pub enum FpbRidVectorGranularity {
    Granularity8RIDs,
    Granularity64RIDs,
    Granularity256RIDs,
    Reserved(u8),
}

impl FpbRidVectorGranularity {
    /// The value that `byte` encodes.
    pub open spec fn spec_from(byte: u8) -> Self {
        match byte {
            0b0000 => Self::Granularity8RIDs,
            0b0011 => Self::Granularity64RIDs,
            0b0101 => Self::Granularity256RIDs,
            _ => Self::Reserved(byte),
        }
    }
}

impl vstd::std_specs::convert::FromSpecImpl<u8> for FpbRidVectorGranularity {
    open spec fn obeys_from_spec() -> bool {
        true
    }

    open spec fn from_spec(byte: u8) -> Self {
        Self::spec_from(byte)
    }
}

impl From<u8> for FpbRidVectorGranularity {
    fn from(byte: u8) -> (r: Self) {
        match byte {
            0b0000 => Self::Granularity8RIDs,
            0b0011 => Self::Granularity64RIDs,
            0b0101 => Self::Granularity256RIDs,
            _ => Self::Reserved(byte),
        }
    }
}

/// FPB MEM Low Vector Control register
#[derive(Debug, Clone, PartialEq, Eq)]
pub struct FpbMemLowVectorControl {
    pub fpb_mem_low_decode_mechanism_enable: bool,
    pub fpb_mem_low_vector_granularity: FpbMemLowVectorGranularity,
    /// Address of the start of the vector, aligned to the granularity
    pub fpb_mem_low_vector_start: u32,
}

impl FpbMemLowVectorControl {
    /// The fields of the register value `dword`.
    pub open spec fn spec_from(dword: u32) -> Self {
        let granularity = field(dword, 4, 0xf) as u8;
        let start = field(dword, 20, 0xfff);
        FpbMemLowVectorControl {
            fpb_mem_low_decode_mechanism_enable: flag(dword, 0),
            fpb_mem_low_vector_granularity: FpbMemLowVectorGranularity::spec_from(granularity),
            fpb_mem_low_vector_start: (start << 20u32) & (0xffff_ffffu32 << ((20 + granularity) % 32) as u32),
        }
    }
}

impl vstd::std_specs::convert::FromSpecImpl<u32> for FpbMemLowVectorControl {
    open spec fn obeys_from_spec() -> bool {
        true
    }

    open spec fn from_spec(dword: u32) -> Self {
        Self::spec_from(dword)
    }
}

impl From<u32> for FpbMemLowVectorControl {
    fn from(dword: u32) -> (r: Self) {
        let granularity = get_u8(dword, 4, 0xf);
        let start = get_bits(dword, 20, 0xfff);
        FpbMemLowVectorControl {
            fpb_mem_low_decode_mechanism_enable: get_flag(dword, 0),
            fpb_mem_low_vector_granularity: FpbMemLowVectorGranularity::from(granularity),
            fpb_mem_low_vector_start: (start << 20u32) & (0xffff_ffffu32 << ((20 + granularity) % 32) as u32),
        }
    }
}

/// Granularity of the MEM Low vector
#[derive(Debug, Clone, PartialEq, Eq)]
pub enum FpbMemLowVectorGranularity {
    Granularity1MB,
    Granularity2MB,
    Granularity4MB,
    Granularity8MB,
    Granularity16MB,
    Reserved(u8),
}

impl FpbMemLowVectorGranularity {
    /// The value that `byte` encodes.
    pub open spec fn spec_from(byte: u8) -> Self {
        match byte {
            0b0000 => Self::Granularity1MB,
            0b0001 => Self::Granularity2MB,
            0b0010 => Self::Granularity4MB,
            0b0011 => Self::Granularity8MB,
            0b0100 => Self::Granularity16MB,
            _ => Self::Reserved(byte),
        }
    }
}

impl vstd::std_specs::convert::FromSpecImpl<u8> for FpbMemLowVectorGranularity {
    open spec fn obeys_from_spec() -> bool {
        true
    }

    open spec fn from_spec(byte: u8) -> Self {
        Self::spec_from(byte)
    }
}

impl From<u8> for FpbMemLowVectorGranularity {
    fn from(byte: u8) -> (r: Self) {
        match byte {
            0b0000 => Self::Granularity1MB,
            0b0001 => Self::Granularity2MB,
            0b0010 => Self::Granularity4MB,
            0b0011 => Self::Granularity8MB,
            0b0100 => Self::Granularity16MB,
            _ => Self::Reserved(byte),
        }
    }
}

/// FPB MEM High Vector Control 1 and 2 registers
#[derive(Debug, Clone, PartialEq, Eq)]
pub struct FpbMemHighVectorControl {
    pub fpb_mem_high_decode_mechanism_enable: bool,
    pub fpb_mem_high_vector_granularity: FpbMemHighVectorGranularity,
    /// Address of the start of the vector, aligned to the granularity
    pub fpb_mem_high_vector_start: u64,
}

impl FpbMemHighVectorControl {
    /// The registers with the values `control_1` and `control_2`.
    pub open spec fn spec_new(control_1: u32, control_2: u32) -> Self {
        let granularity = field(control_1, 4, 0xf) as u8;
        let start = field(control_1, 28, 0xf) as u64;
        FpbMemHighVectorControl {
            fpb_mem_high_decode_mechanism_enable: flag(control_1, 0),
            fpb_mem_high_vector_granularity: FpbMemHighVectorGranularity::spec_from(granularity),
            fpb_mem_high_vector_start: ((start << 28u64) | ((control_2 as u64) << 32u64)) & (
            0xffff_ffff_ffff_ffffu64 << (28 + granularity) as u64),
        }
    }

    /// The registers with the values `control_1` and `control_2`.
    pub fn new(control_1: u32, control_2: u32) -> (r: Self)
        ensures
            r == Self::spec_new(control_1, control_2),
    {
        let granularity = get_u8(control_1, 4, 0xf);
        let start = get_bits(control_1, 28, 0xf) as u64;
        FpbMemHighVectorControl {
            fpb_mem_high_decode_mechanism_enable: get_flag(control_1, 0),
            fpb_mem_high_vector_granularity: FpbMemHighVectorGranularity::from(granularity),
            fpb_mem_high_vector_start: ((start << 28u64) | ((control_2 as u64) << 32u64)) & (
            0xffff_ffff_ffff_ffffu64 << (28 + granularity) as u64),
        }
    }
}

/// Granularity of the MEM High vector
#[derive(Debug, Clone, PartialEq, Eq)]
pub enum FpbMemHighVectorGranularity {
    Granularity256MB,
    Granularity512MB,
    Granularity1GB,
    Granularity2GB,
    Granularity4GB,
    Granularity8GB,
    Granularity16GB,
    Granularity32GB,
    Reserved(u8),
}

impl FpbMemHighVectorGranularity {
    /// The value that `byte` encodes.
    pub open spec fn spec_from(byte: u8) -> Self {
        match byte {
            0b0000 => Self::Granularity256MB,
            0b0001 => Self::Granularity512MB,
            0b0010 => Self::Granularity1GB,
            0b0011 => Self::Granularity2GB,
            0b0100 => Self::Granularity4GB,
            0b0101 => Self::Granularity8GB,
            0b0110 => Self::Granularity16GB,
            0b0111 => Self::Granularity32GB,
            _ => Self::Reserved(byte),
        }
    }
}

impl vstd::std_specs::convert::FromSpecImpl<u8> for FpbMemHighVectorGranularity {
    open spec fn obeys_from_spec() -> bool {
        true
    }

    open spec fn from_spec(byte: u8) -> Self {
        Self::spec_from(byte)
    }
}

impl From<u8> for FpbMemHighVectorGranularity {
    fn from(byte: u8) -> (r: Self) {
        match byte {
            0b0000 => Self::Granularity256MB,
            0b0001 => Self::Granularity512MB,
            0b0010 => Self::Granularity1GB,
            0b0011 => Self::Granularity2GB,
            0b0100 => Self::Granularity4GB,
            0b0101 => Self::Granularity8GB,
            0b0110 => Self::Granularity16GB,
            0b0111 => Self::Granularity32GB,
            _ => Self::Reserved(byte),
        }
    }
}

/// FPB Vector Access Control register
#[derive(Debug, Clone, PartialEq, Eq)]
pub struct FpbVectorAccessControl {
    pub fpb_vector_access_offset: u8,
    pub fpb_vector_select: FpbVectorSelect,
}

impl FpbVectorAccessControl {
    /// The fields of the register value `dword`.
    pub open spec fn spec_from(dword: u32) -> Self {
        FpbVectorAccessControl {
            fpb_vector_access_offset: field(dword, 0, 0xff) as u8,
            fpb_vector_select: FpbVectorSelect::spec_from_bits(field(dword, 14, 0x3) as u8),
        }
    }
}

impl vstd::std_specs::convert::FromSpecImpl<u32> for FpbVectorAccessControl {
    open spec fn obeys_from_spec() -> bool {
        true
    }

    open spec fn from_spec(dword: u32) -> Self {
        Self::spec_from(dword)
    }
}

impl From<u32> for FpbVectorAccessControl {
    fn from(dword: u32) -> (r: Self) {
        FpbVectorAccessControl {
            fpb_vector_access_offset: get_u8(dword, 0, 0xff),
            fpb_vector_select: FpbVectorSelect::from_bits(get_u8(dword, 14, 0x3)),
        }
    }
}

/// Vector that the access offset selects
#[derive(Debug, Clone, PartialEq, Eq)]
pub enum FpbVectorSelect {
    Rid,
    MemLow,
    MemHigh,
    Reserved,
}

impl FpbVectorSelect {
    /// The value that the field `byte` encodes; a field holds less than 4.
    pub open spec fn spec_from_bits(byte: u8) -> Self {
        match byte {
            0b00 => Self::Rid,
            0b01 => Self::MemLow,
            0b10 => Self::MemHigh,
            _ => Self::Reserved,
        }
    }

    /// Decodes the field `byte`.
    pub fn from_bits(byte: u8) -> (r: Self)
        requires
            byte < 4,
        ensures
            r == Self::spec_from_bits(byte),
    {
        match byte {
            0b00 => Self::Rid,
            0b01 => Self::MemLow,
            0b10 => Self::MemHigh,
            _ => Self::Reserved,
        }
    }
}

} // verus!
