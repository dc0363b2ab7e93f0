//! PCIe DVSEC for CXL Device.
use vstd::prelude::*;
use crate::bits::{field, flag, get_flag, get_u8};

verus! {

broadcast use crate::bits::lemma_field_le_mask;

/// PCIe DVSEC for CXL Device
#[derive(Debug, Clone, PartialEq, Eq)]
pub struct PcieDvsecForCxlDevice {
    pub cxl_capability: CxlCapability,
    pub cxl_control: CxlControl,
    pub cxl_status: CxlStatus,
    pub cxl_control2: CxlControl2,
    pub cxl_status2: CxlStatus2,
    pub cxl_lock: CxlLock,
    pub cxl_capability2: CxlCapability2,
    pub cxl_range_1_size: CxlRangeSize,
    pub cxl_range_1_base: CxlRangeBase,
    pub cxl_range_2_size: CxlRangeSize,
    pub cxl_range_2_base: CxlRangeBase,
}

impl PcieDvsecForCxlDevice {
    /// Size of the registers in bytes
    pub const SIZE: usize = CxlCapability::SIZE + CxlControl::SIZE + CxlStatus::SIZE
        + CxlControl2::SIZE + CxlStatus2::SIZE + CxlLock::SIZE + CxlCapability2::SIZE
        + CxlRangeSize::SIZE * 2 + CxlRangeBase::SIZE * 2;
}

impl CxlCapability {
    /// Size of the register in bytes
    pub const SIZE: usize = 2;
}

impl CxlControl {
    /// Size of the register in bytes
    pub const SIZE: usize = 2;
}

impl CxlStatus {
    /// Size of the register in bytes
    pub const SIZE: usize = 2;
}

impl CxlControl2 {
    /// Size of the register in bytes
    pub const SIZE: usize = 2;
}

impl CxlStatus2 {
    /// Size of the register in bytes
    pub const SIZE: usize = 2;
}

impl CxlLock {
    /// Size of the register in bytes
    pub const SIZE: usize = 2;
}

impl CxlCapability2 {
    /// Size of the register in bytes
    pub const SIZE: usize = 2;
}

/// DVSEC CXL Capability register
#[derive(Debug, Clone, PartialEq, Eq)]
pub struct CxlCapability {
    /// CXL.cache protocol support in Flex Bus.CXL mode
    pub cache_capable: bool,
    /// CXL.io protocol support in Flex Bus.CXL mode
    pub io_capable: bool,
    /// CXL.mem protocol support in Flex Bus.CXL mode
    pub mem_capable: bool,
    /// The device initializes memory with help of hardware and firmware on it
    pub mem_hwinit_mode: bool,
    /// Number of HDM ranges
    pub hdm_count: HdmCount,
    /// Disable Caching, Initiate Cache Write Back and Invalidation and Cache Invalid are implemented
    pub cache_writeback_and_invalidate_capable: bool,
    /// CXL Reset and its timeout are implemented
    pub cxl_reset_capable: bool,
    /// CXL Reset Timeout
    pub cxl_reset_timeout: CxlResetTimeout,
    /// Volatile HDM ranges can be cleared or randomized at CXL Reset
    pub cxl_reset_mem_clr_capable: bool,
    /// A Logical Device in an MLD
    pub multiple_logical_device: bool,
    /// Viral handling is supported
    pub viral_capable: bool,
    /// The Power Management Initialization Complete flag is supported
    pub pm_init_completion_reporting_capable: bool,
}

impl CxlCapability {
    /// The fields of the register value `word`.
    pub open spec fn spec_from(word: u16) -> Self {
        CxlCapability {
            cache_capable: flag(word as u32, 0),
            io_capable: flag(word as u32, 1),
            mem_capable: flag(word as u32, 2),
            mem_hwinit_mode: flag(word as u32, 3),
            hdm_count: HdmCount::spec_from_bits(field(word as u32, 4, 0x3) as u8),
            cache_writeback_and_invalidate_capable: flag(word as u32, 6),
            cxl_reset_capable: flag(word as u32, 7),
            cxl_reset_timeout: CxlResetTimeout::spec_from(field(word as u32, 8, 0x7) as u8),
            cxl_reset_mem_clr_capable: flag(word as u32, 11),
            multiple_logical_device: flag(word as u32, 13),
            viral_capable: flag(word as u32, 14),
            pm_init_completion_reporting_capable: flag(word as u32, 15),
        }
    }
}

impl vstd::std_specs::convert::FromSpecImpl<u16> for CxlCapability {
    open spec fn obeys_from_spec() -> bool {
        true
    }

    open spec fn from_spec(word: u16) -> Self {
        Self::spec_from(word)
    }
}

impl From<u16> for CxlCapability {
    fn from(word: u16) -> (r: Self) {
        let w = word as u32;
        CxlCapability {
            cache_capable: get_flag(w, 0),
            io_capable: get_flag(w, 1),
            mem_capable: get_flag(w, 2),
            mem_hwinit_mode: get_flag(w, 3),
            hdm_count: HdmCount::from_bits(get_u8(w, 4, 0x3)),
            cache_writeback_and_invalidate_capable: get_flag(w, 6),
            cxl_reset_capable: get_flag(w, 7),
            cxl_reset_timeout: CxlResetTimeout::from(get_u8(w, 8, 0x7)),
            cxl_reset_mem_clr_capable: get_flag(w, 11),
            multiple_logical_device: get_flag(w, 13),
            viral_capable: get_flag(w, 14),
            pm_init_completion_reporting_capable: get_flag(w, 15),
        }
    }
}

/// Number of HDM ranges that the device implements
#[derive(Debug, Clone, Copy, PartialEq, Eq)]
pub enum HdmCount {
    /// Zero ranges
    ZeroRanges,
    /// One HDM range
    OneHdmRange,
    /// Two HDM ranges
    TwoHdmRanges,
    /// Reserved
    Reserved,
}

impl HdmCount {
    /// The value that the field `byte` encodes; a field holds less than 4.
    pub open spec fn spec_from_bits(byte: u8) -> Self {
        match byte {
            0b00 => Self::ZeroRanges,
            0b01 => Self::OneHdmRange,
            0b10 => Self::TwoHdmRanges,
            _ => Self::Reserved,
        }
    }

    /// Decodes the field `byte`.
    pub fn from_bits(byte: u8) -> (r: Self)
        requires
            byte < 4,
        ensures
            r == Self::spec_from_bits(byte),
    {
        match byte {
            0b00 => Self::ZeroRanges,
            0b01 => Self::OneHdmRange,
            0b10 => Self::TwoHdmRanges,
            _ => Self::Reserved,
        }
    }
}

/// The longest time that the device may take to complete a CXL Reset
#[derive(Debug, Clone, Copy, PartialEq, Eq)]
pub enum CxlResetTimeout {
    /// 10 ms
    MaxTime10ms,
    /// 100 ms
    MaxTime100ms,
    /// 1 s
    MaxTime1s,
    /// 10 s
    MaxTime10s,
    /// 100 s
    MaxTime100s,
    Reserved(u8),
}

impl CxlResetTimeout {
    /// The value that `byte` encodes.
    pub open spec fn spec_from(byte: u8) -> Self {
        match byte {
            0b000 => Self::MaxTime10ms,
            0b001 => Self::MaxTime100ms,
            0b010 => Self::MaxTime1s,
            0b011 => Self::MaxTime10s,
            0b100 => Self::MaxTime100s,
            _ => Self::Reserved(byte),
        }
    }
}

impl vstd::std_specs::convert::FromSpecImpl<u8> for CxlResetTimeout {
    open spec fn obeys_from_spec() -> bool {
        true
    }

    open spec fn from_spec(byte: u8) -> Self {
        Self::spec_from(byte)
    }
}

impl From<u8> for CxlResetTimeout {
    fn from(byte: u8) -> (r: Self) {
        match byte {
            0b000 => Self::MaxTime10ms,
            0b001 => Self::MaxTime100ms,
            0b010 => Self::MaxTime1s,
            0b011 => Self::MaxTime10s,
            0b100 => Self::MaxTime100s,
            _ => Self::Reserved(byte),
        }
    }
}

/// DVSEC CXL Control register
#[derive(Debug, Clone, PartialEq, Eq)]
pub struct CxlControl {
    /// Enables CXL.cache in Flex Bus.CXL mode
    pub cache_enable: bool,
    /// Enables CXL.io in Flex Bus.CXL mode
    pub io_enable: bool,
    /// Enables CXL.mem in Flex Bus.CXL mode
    pub mem_enable: bool,
    /// Snoop Filter coverage on the Host
    pub cache_sf_coverage: CacheSfCoverage,
    /// Granularity of tracking on the Host
    pub cache_sf_granularity: CacheSfGranularity,
    /// Whether clean evictions from device caches are needed
    pub cache_clean_eviction: CacheCleanEviction,
    /// Enables Viral handling
    pub viral_enable: bool,
}

impl CxlControl {
    /// The fields of the register value `word`.
    pub open spec fn spec_from(word: u16) -> Self {
        CxlControl {
            cache_enable: flag(word as u32, 0),
            io_enable: flag(word as u32, 1),
            mem_enable: flag(word as u32, 2),
            cache_sf_coverage: CacheSfCoverage::spec_from_bits(field(word as u32, 3, 0x1f) as u8),
            cache_sf_granularity: CacheSfGranularity::spec_from_bits(field(word as u32, 8, 0x7) as u8),
            cache_clean_eviction: CacheCleanEviction::spec_from(flag(word as u32, 11)),
            viral_enable: flag(word as u32, 14),
        }
    }
}

impl vstd::std_specs::convert::FromSpecImpl<u16> for CxlControl {
    open spec fn obeys_from_spec() -> bool {
        true
    }

    open spec fn from_spec(word: u16) -> Self {
        Self::spec_from(word)
    }
}

impl From<u16> for CxlControl {
    fn from(word: u16) -> (r: Self) {
        let w = word as u32;
        CxlControl {
            cache_enable: get_flag(w, 0),
            io_enable: get_flag(w, 1),
            mem_enable: get_flag(w, 2),
            cache_sf_coverage: CacheSfCoverage::from_bits(get_u8(w, 3, 0x1f)),
            cache_sf_granularity: CacheSfGranularity::from_bits(get_u8(w, 8, 0x7)),
            cache_clean_eviction: CacheCleanEviction::from(get_flag(w, 11)),
            viral_enable: get_flag(w, 14),
        }
    }
}

/// Snoop Filter coverage on the Host
#[derive(Debug, Clone, Copy, PartialEq, Eq)]
pub enum CacheSfCoverage {
    /// No Snoop Filter coverage
    NoSnoopFilter,
    /// Snoop Filter coverage of the given number of bytes
    SnoopFilter(u64),
}

impl CacheSfCoverage {
    /// The coverage that the 5-bit field `byte` encodes: none for 0, otherwise 2 to the power
    /// of the field plus 15 bytes.
    pub open spec fn spec_from_bits(byte: u8) -> Self {
        if byte == 0 {
            Self::NoSnoopFilter
        } else {
            Self::SnoopFilter(1u64 << (byte + 15) as u64)
        }
    }

    /// Decodes the 5-bit field `byte`.
    pub fn from_bits(byte: u8) -> (r: Self)
        requires
            byte < 32,
        ensures
            r == Self::spec_from_bits(byte),
    {
        if byte == 0 {
            Self::NoSnoopFilter
        } else {
            Self::SnoopFilter(1u64 << (byte as u64 + 15))
        }
    }

    /// The field: the number of trailing zeros of the coverage minus 15, wrapping.
    pub open spec fn spec_to_bits(self) -> u8 {
        match self {
            Self::NoSnoopFilter => 0,
            Self::SnoopFilter(v) => vstd::wrapping::u32_specs::wrapping_sub(
                vstd::std_specs::bits::u64_trailing_zeros(v),
                15,
            ) as u8,
        }
    }
}

impl vstd::std_specs::convert::FromSpecImpl<CacheSfCoverage> for u8 {
    open spec fn obeys_from_spec() -> bool {
        true
    }

    open spec fn from_spec(c: CacheSfCoverage) -> Self {
        c.spec_to_bits()
    }
}

impl From<CacheSfCoverage> for u8 {
    fn from(c: CacheSfCoverage) -> (r: Self) {
        match c {
            CacheSfCoverage::NoSnoopFilter => 0,
            CacheSfCoverage::SnoopFilter(v) => v.trailing_zeros().wrapping_sub(15) as u8,
        }
    }
}

/// Encoding a decoded Cache SF Coverage field gives back the field.
pub proof fn lemma_cache_sf_coverage_roundtrip(byte: u8)
    requires
        byte < 32,
    ensures
        CacheSfCoverage::spec_from_bits(byte).spec_to_bits() == byte,
{
    if byte != 0 {
        let k = (byte + 15) as u64;
        let v = 1u64 << k;
        vstd::std_specs::bits::axiom_u64_trailing_zeros(v);
        let t = vstd::std_specs::bits::u64_trailing_zeros(v);
        assert(v != 0) by (bit_vector)
            requires
                v == 1u64 << k,
                k < 64,
        ;
        assert(t == k) by {
            if (t as u64) < k {
                assert((v >> (t as u64)) & 1u64 == 0u64) by (bit_vector)
                    requires
                        v == 1u64 << k,
                        k < 64,
                        (t as u64) < k,
                ;
            } else if (t as u64) > k {
                assert((v >> k) & 1u64 == 1u64) by (bit_vector)
                    requires
                        v == 1u64 << k,
                        k < 64,
                ;
            }
        }
    }
}

/// Granularity of tracking on the Host
#[derive(Debug, Clone, Copy, PartialEq, Eq)]
pub enum CacheSfGranularity {
    /// 64 B
    Tracking64B,
    /// 128 B
    Tracking128B,
    /// 256 B
    Tracking256B,
    /// 512 B
    Tracking512B,
    /// 1 KB
    Tracking1KB,
    /// 2 KB
    Tracking2KB,
    /// 4 KB
    Tracking4KB,
    /// Reserved
    Reserved,
}

impl CacheSfGranularity {
    /// The value that the field `byte` encodes; a field holds less than 8.
    pub open spec fn spec_from_bits(byte: u8) -> Self {
        match byte {
            0b000 => Self::Tracking64B,
            0b001 => Self::Tracking128B,
            0b010 => Self::Tracking256B,
            0b011 => Self::Tracking512B,
            0b100 => Self::Tracking1KB,
            0b101 => Self::Tracking2KB,
            0b110 => Self::Tracking4KB,
            _ => Self::Reserved,
        }
    }

    /// Decodes the field `byte`.
    pub fn from_bits(byte: u8) -> (r: Self)
        requires
            byte < 8,
        ensures
            r == Self::spec_from_bits(byte),
    {
        match byte {
            0b000 => Self::Tracking64B,
            0b001 => Self::Tracking128B,
            0b010 => Self::Tracking256B,
            0b011 => Self::Tracking512B,
            0b100 => Self::Tracking1KB,
            0b101 => Self::Tracking2KB,
            0b110 => Self::Tracking4KB,
            _ => Self::Reserved,
        }
    }
}

/// Whether clean evictions from device caches are needed for best performance
#[derive(Debug, Clone, Copy, PartialEq, Eq)]
pub enum CacheCleanEviction {
    /// Clean evictions are needed
    Needed,
    /// Clean evictions are not needed
    NotNeeded,
}

impl CacheCleanEviction {
    /// The value that `b` encodes.
    pub open spec fn spec_from(b: bool) -> Self {
        if b {
            Self::NotNeeded
        } else {
            Self::Needed
        }
    }
}

impl vstd::std_specs::convert::FromSpecImpl<bool> for CacheCleanEviction {
    open spec fn obeys_from_spec() -> bool {
        true
    }

    open spec fn from_spec(b: bool) -> Self {
        Self::spec_from(b)
    }
}

impl From<bool> for CacheCleanEviction {
    fn from(b: bool) -> (r: Self) {
        if b {
            Self::NotNeeded
        } else {
            Self::Needed
        }
    }
}

/// DVSEC CXL Status register
#[derive(Debug, Clone, PartialEq, Eq)]
pub struct CxlStatus {
    /// The device has entered Viral
    pub viral_status: bool,
}

impl CxlStatus {
    /// The fields of the register value `word`.
    pub open spec fn spec_from(word: u16) -> Self {
        CxlStatus {
            viral_status: flag(word as u32, 14),
        }
    }
}

impl vstd::std_specs::convert::FromSpecImpl<u16> for CxlStatus {
    open spec fn obeys_from_spec() -> bool {
        true
    }

    open spec fn from_spec(word: u16) -> Self {
        Self::spec_from(word)
    }
}

impl From<u16> for CxlStatus {
    fn from(word: u16) -> (r: Self) {
        let w = word as u32;
        CxlStatus {
            viral_status: get_flag(w, 14),
        }
    }
}

/// DVSEC CXL Control2 register
#[derive(Debug, Clone, PartialEq, Eq)]
pub struct CxlControl2 {
    /// The device no longer caches new modified lines
    pub disable_caching: bool,
    /// The device writes back all modified lines and invalidates all lines
    pub initiate_cache_write_back_and_invalidation: bool,
    /// The device initiates a CXL Reset
    pub initiate_cxl_reset: bool,
    /// The device clears or randomizes volatile HDM ranges at CXL Reset
    pub cxl_reset_mem_clr_enable: bool,
}

impl CxlControl2 {
    /// The fields of the register value `word`.
    pub open spec fn spec_from(word: u16) -> Self {
        CxlControl2 {
            disable_caching: flag(word as u32, 0),
            initiate_cache_write_back_and_invalidation: flag(word as u32, 1),
            initiate_cxl_reset: flag(word as u32, 2),
            cxl_reset_mem_clr_enable: flag(word as u32, 3),
        }
    }
}

impl vstd::std_specs::convert::FromSpecImpl<u16> for CxlControl2 {
    open spec fn obeys_from_spec() -> bool {
        true
    }

    open spec fn from_spec(word: u16) -> Self {
        Self::spec_from(word)
    }
}

impl From<u16> for CxlControl2 {
    fn from(word: u16) -> (r: Self) {
        let w = word as u32;
        CxlControl2 {
            disable_caching: get_flag(w, 0),
            initiate_cache_write_back_and_invalidation: get_flag(w, 1),
            initiate_cxl_reset: get_flag(w, 2),
            cxl_reset_mem_clr_enable: get_flag(w, 3),
        }
    }
}

/// DVSEC CXL Status2 register
#[derive(Debug, Clone, PartialEq, Eq)]
pub struct CxlStatus2 {
    /// The device holds no valid lines and Disable Caching is set
    pub cache_invalid: bool,
    /// The device has completed a CXL Reset
    pub cxl_reset_complete: bool,
    /// The device has completed a CXL Reset with errors
    pub cxl_reset_error: bool,
    /// The device has completed Power Management Initialization
    pub power_management_initialization_complete: bool,
}

impl CxlStatus2 {
    /// The fields of the register value `word`.
    pub open spec fn spec_from(word: u16) -> Self {
        CxlStatus2 {
            cache_invalid: flag(word as u32, 0),
            cxl_reset_complete: flag(word as u32, 1),
            cxl_reset_error: flag(word as u32, 2),
            power_management_initialization_complete: flag(word as u32, 15),
        }
    }
}

impl vstd::std_specs::convert::FromSpecImpl<u16> for CxlStatus2 {
    open spec fn obeys_from_spec() -> bool {
        true
    }

    open spec fn from_spec(word: u16) -> Self {
        Self::spec_from(word)
    }
}

impl From<u16> for CxlStatus2 {
    fn from(word: u16) -> (r: Self) {
        let w = word as u32;
        CxlStatus2 {
            cache_invalid: get_flag(w, 0),
            cxl_reset_complete: get_flag(w, 1),
            cxl_reset_error: get_flag(w, 2),
            power_management_initialization_complete: get_flag(w, 15),
        }
    }
}

/// DVSEC CXL Lock register
#[derive(Debug, Clone, PartialEq, Eq)]
pub struct CxlLock {
    /// The RWL fields of the capability are read only
    pub config_lock: bool,
}

impl CxlLock {
    /// The fields of the register value `word`.
    pub open spec fn spec_from(word: u16) -> Self {
        CxlLock {
            config_lock: flag(word as u32, 0),
        }
    }
}

impl vstd::std_specs::convert::FromSpecImpl<u16> for CxlLock {
    open spec fn obeys_from_spec() -> bool {
        true
    }

    open spec fn from_spec(word: u16) -> Self {
        Self::spec_from(word)
    }
}

impl From<u16> for CxlLock {
    fn from(word: u16) -> (r: Self) {
        let w = word as u32;
        CxlLock {
            config_lock: get_flag(w, 0),
        }
    }
}

/// DVSEC CXL Capability2 register
#[derive(Debug, Clone, PartialEq, Eq)]
pub struct CxlCapability2 {
    /// Unit of the cache size
    pub cache_size_unit: CacheSizeUnit,
    /// Cache size in units
    pub cache_size: u8,
}

impl CxlCapability2 {
    /// The fields of the register value `word`.
    pub open spec fn spec_from(word: u16) -> Self {
        CxlCapability2 {
            cache_size_unit: CacheSizeUnit::spec_from(field(word as u32, 0, 0xf) as u8),
            cache_size: field(word as u32, 8, 0xff) as u8,
        }
    }
}

impl vstd::std_specs::convert::FromSpecImpl<u16> for CxlCapability2 {
    open spec fn obeys_from_spec() -> bool {
        true
    }

    open spec fn from_spec(word: u16) -> Self {
        Self::spec_from(word)
    }
}

impl From<u16> for CxlCapability2 {
    fn from(word: u16) -> (r: Self) {
        let w = word as u32;
        CxlCapability2 {
            cache_size_unit: CacheSizeUnit::from(get_u8(w, 0, 0xf)),
            cache_size: get_u8(w, 8, 0xff),
        }
    }
}

/// Unit of the cache size
#[derive(Debug, Clone, Copy, PartialEq, Eq)]
pub enum CacheSizeUnit {
    /// The cache size is not reported
    NotReported,
    /// 64 KB
    Unit64K,
    /// 1 MB
    Unit1MB,
    Reserved(u8),
}

impl CacheSizeUnit {
    /// The value that `byte` encodes.
    pub open spec fn spec_from(byte: u8) -> Self {
        match byte {
            0b0000 => Self::NotReported,
            0b0001 => Self::Unit64K,
            0b0010 => Self::Unit1MB,
            _ => Self::Reserved(byte),
        }
    }
}

impl vstd::std_specs::convert::FromSpecImpl<u8> for CacheSizeUnit {
    open spec fn obeys_from_spec() -> bool {
        true
    }

    open spec fn from_spec(byte: u8) -> Self {
        Self::spec_from(byte)
    }
}

impl From<u8> for CacheSizeUnit {
    fn from(byte: u8) -> (r: Self) {
        match byte {
            0b0000 => Self::NotReported,
            0b0001 => Self::Unit64K,
            0b0010 => Self::Unit1MB,
            _ => Self::Reserved(byte),
        }
    }
}

/// DVSEC CXL Range Size: memory information and the size of the range
#[derive(Debug, Clone, PartialEq, Eq)]
pub struct CxlRangeSize {
    pub memory_info_valid: bool,
    pub memory_active: bool,
    pub media_type: MediaType,
    pub memory_class: MemoryClass,
    pub desired_interleave: DesiredInterleave,
    pub memory_active_timeout: MemoryActiveTimeout,
    pub memory_size: u64,
}

impl CxlRangeSize {
    /// Size of the registers in bytes
    pub const SIZE: usize = 8;

    /// The fields of the low and high register values: the size has bits 28 to 31 of the low
    /// register at bits 28 to 31 and the high register above them.
    pub open spec fn spec_new(low: u32, high: u32) -> Self {
        CxlRangeSize {
            memory_info_valid: flag(low, 0),
            memory_active: flag(low, 1),
            media_type: MediaType::spec_from(field(low, 2, 0x7) as u8),
            memory_class: MemoryClass::spec_from(field(low, 5, 0x7) as u8),
            desired_interleave: DesiredInterleave::spec_from(field(low, 8, 0x1f) as u8),
            memory_active_timeout: MemoryActiveTimeout::spec_from(field(low, 13, 0x7) as u8),
            memory_size: ((field(low, 28, 0xf) as u64) << 28u64) | ((high as u64) << 32u64),
        }
    }

    /// Decodes the low and high register values.
    pub fn new(low: u32, high: u32) -> (r: Self)
        ensures
            r == Self::spec_new(low, high),
    {
        CxlRangeSize {
            memory_info_valid: get_flag(low, 0),
            memory_active: get_flag(low, 1),
            media_type: MediaType::from(get_u8(low, 2, 0x7)),
            memory_class: MemoryClass::from(get_u8(low, 5, 0x7)),
            desired_interleave: DesiredInterleave::from(get_u8(low, 8, 0x1f)),
            memory_active_timeout: MemoryActiveTimeout::from(get_u8(low, 13, 0x7)),
            memory_size: ((get_u8(low, 28, 0xf) as u64) << 28u64) | ((high as u64) << 32u64),
        }
    }
}

/// The memory media characteristics
#[derive(Debug, Clone, Copy, PartialEq, Eq)]
pub enum MediaType {
    /// Volatile memory
    Volatile,
    /// Non-volatile memory
    NonVolatile,
    /// The characteristics are given by CDAT
    Cdat,
    Reserved(u8),
}

impl MediaType {
    /// The value that `byte` encodes.
    pub open spec fn spec_from(byte: u8) -> Self {
        match byte {
            0b000 => Self::Volatile,
            0b001 => Self::NonVolatile,
            0b010 => Self::Cdat,
            _ => Self::Reserved(byte),
        }
    }
}

impl vstd::std_specs::convert::FromSpecImpl<u8> for MediaType {
    open spec fn obeys_from_spec() -> bool {
        true
    }

    open spec fn from_spec(byte: u8) -> Self {
        Self::spec_from(byte)
    }
}

impl From<u8> for MediaType {
    fn from(byte: u8) -> (r: Self) {
        match byte {
            0b000 => Self::Volatile,
            0b001 => Self::NonVolatile,
            0b010 => Self::Cdat,
            _ => Self::Reserved(byte),
        }
    }
}

/// The class of memory
#[derive(Debug, Clone, Copy, PartialEq, Eq)]
pub enum MemoryClass {
    /// Memory class, such as normal DRAM
    Memory,
    /// Storage class
    Storage,
    /// The class is given by CDAT
    Cdat,
    Reserved(u8),
}

impl MemoryClass {
    /// The value that `byte` encodes.
    pub open spec fn spec_from(byte: u8) -> Self {
        match byte {
            0b000 => Self::Memory,
            0b001 => Self::Storage,
            0b010 => Self::Cdat,
            _ => Self::Reserved(byte),
        }
    }
}

impl vstd::std_specs::convert::FromSpecImpl<u8> for MemoryClass {
    open spec fn obeys_from_spec() -> bool {
        true
    }

    open spec fn from_spec(byte: u8) -> Self {
        Self::spec_from(byte)
    }
}

impl From<u8> for MemoryClass {
    fn from(byte: u8) -> (r: Self) {
        match byte {
            0b000 => Self::Memory,
            0b001 => Self::Storage,
            0b010 => Self::Cdat,
            _ => Self::Reserved(byte),
        }
    }
}

/// The memory interleaving that the device desires
#[derive(Debug, Clone, Copy, PartialEq, Eq)]
pub enum DesiredInterleave {
    /// No interleave
    NoInterleave,
    /// 256 bytes
    Granularity256B,
    /// 4 KB
    Granularity4KB,
    /// 512 bytes
    Granularity512B,
    /// 1 KB
    Granularity1KB,
    /// 2 KB
    Granularity2KB,
    /// 8 KB
    Granularity8KB,
    /// 16 KB
    Granularity16KB,
    Reserved(u8),
}

impl DesiredInterleave {
    /// The value that `byte` encodes.
    pub open spec fn spec_from(byte: u8) -> Self {
        match byte {
            0b00000 => Self::NoInterleave,
            0b00001 => Self::Granularity256B,
            0b00010 => Self::Granularity4KB,
            0b00011 => Self::Granularity512B,
            0b00100 => Self::Granularity1KB,
            0b00101 => Self::Granularity2KB,
            0b00110 => Self::Granularity8KB,
            0b00111 => Self::Granularity16KB,
            _ => Self::Reserved(byte),
        }
    }
}

impl vstd::std_specs::convert::FromSpecImpl<u8> for DesiredInterleave {
    open spec fn obeys_from_spec() -> bool {
        true
    }

    open spec fn from_spec(byte: u8) -> Self {
        Self::spec_from(byte)
    }
}

impl From<u8> for DesiredInterleave {
    fn from(byte: u8) -> (r: Self) {
        match byte {
            0b00000 => Self::NoInterleave,
            0b00001 => Self::Granularity256B,
            0b00010 => Self::Granularity4KB,
            0b00011 => Self::Granularity512B,
            0b00100 => Self::Granularity1KB,
            0b00101 => Self::Granularity2KB,
            0b00110 => Self::Granularity8KB,
            0b00111 => Self::Granularity16KB,
            _ => Self::Reserved(byte),
        }
    }
}

/// The longest time that the device may take to set Memory_Active after a reset
#[derive(Debug, Clone, Copy, PartialEq, Eq)]
pub enum MemoryActiveTimeout {
    /// 1 s
    MaxTime1s,
    /// 4 s
    MaxTime4s,
    /// 16 s
    MaxTime16s,
    /// 64 s
    MaxTime64s,
    /// 256 s
    MaxTime256s,
    Reserved(u8),
}

impl MemoryActiveTimeout {
    /// The value that `byte` encodes.
    pub open spec fn spec_from(byte: u8) -> Self {
        match byte {
            0b000 => Self::MaxTime1s,
            0b001 => Self::MaxTime4s,
            0b010 => Self::MaxTime16s,
            0b011 => Self::MaxTime64s,
            0b100 => Self::MaxTime256s,
            _ => Self::Reserved(byte),
        }
    }
}

impl vstd::std_specs::convert::FromSpecImpl<u8> for MemoryActiveTimeout {
    open spec fn obeys_from_spec() -> bool {
        true
    }

    open spec fn from_spec(byte: u8) -> Self {
        Self::spec_from(byte)
    }
}

impl From<u8> for MemoryActiveTimeout {
    fn from(byte: u8) -> (r: Self) {
        match byte {
            0b000 => Self::MaxTime1s,
            0b001 => Self::MaxTime4s,
            0b010 => Self::MaxTime16s,
            0b011 => Self::MaxTime64s,
            0b100 => Self::MaxTime256s,
            _ => Self::Reserved(byte),
        }
    }
}

/// DVSEC CXL Range Base: the base address of the range
#[derive(Debug, Clone, PartialEq, Eq)]
pub struct CxlRangeBase {
    pub memory_base: u64,
}

impl CxlRangeBase {
    /// Size of the registers in bytes
    pub const SIZE: usize = 8;

    /// The base address that the low and high register values give: the high one above
    /// the low one.
    pub open spec fn spec_new(low: u32, high: u32) -> Self {
        CxlRangeBase { memory_base: (low as u64) | ((high as u64) << 32u64) }
    }

    /// Decodes the low and high register values.
    pub fn new(low: u32, high: u32) -> (r: Self)
        ensures
            r == Self::spec_new(low, high),
    {
        CxlRangeBase { memory_base: (low as u64) | ((high as u64) << 32u64) }
    }
}

} // verus!
