use pcics::extended_capabilities::designated_vendor_specific_extended_capability::compute_express_link::pcie_dvsec_for_cxl_device::{
    CacheCleanEviction, CacheSfCoverage, CacheSfGranularity, CacheSizeUnit, CxlCapability,
    CxlCapability2, CxlControl, CxlControl2, CxlLock, CxlRangeBase, CxlRangeSize,
    CxlResetTimeout, CxlStatus, CxlStatus2, DesiredInterleave, HdmCount, MediaType,
    MemoryActiveTimeout, MemoryClass, PcieDvsecForCxlDevice,
};
use pcics::extended_capabilities::designated_vendor_specific_extended_capability::compute_express_link::ComputeExpressLink;
use pcics::extended_capabilities::designated_vendor_specific_extended_capability::{
    Dvsec, DvsecType,
};

#[test]
fn pcie_dvsec_for_cxl_device_parse() {
    let data = [
        /* 00h */ 0x23, 0x00, 0x01, 0x00, // Capability header
        /* 04h */ 0x98, 0x1E, 0x81, 0x03, // Designated Vendor-Specific Header 1
        /* 08h */ 0x00, 0x00,             // Designated Vendor-Specific Header 2
                  0x55, 0xAA,             // CXL Capability
        /* 0Ch */ 0x55, 0x55,             // CXL Control
                  0x00, 0x40,             // CXL Status
        /* 10h */ 0x0A, 0x00,             // CXL Control2
                  0x0A, 0x80,             // CXL Status2
        /* 14h */ 0xFE, 0xFF,             // CXL Lock
                  0x01, 0xAA,             // CXL Capability2
        /* 18h */ 0x11, 0x22, 0x33, 0x44, // Range 1 Size High
        /* 1Ch */ 0x0A, 0x44, 0x00, 0x00, // Range 1 Size Low
        /* 20h */ 0x55, 0x66, 0x77, 0x88, // Range 1 Base High
        /* 24h */ 0x00, 0x00, 0x00, 0x40, // Range 1 Base Low
        /* 28h */ 0x99, 0xAA, 0xBB, 0xCC, // Range 2 Size High
        /* 2Ch */ 0x55, 0x05, 0x05, 0x85, // Range 2 Size Low
        /* 30h */ 0xDD, 0xEE, 0xFF, 0x00, // Range 2 Base High
        /* 34h */ 0x00, 0x00, 0x00, 0xC0, // Range 2 Base Low
    ];

    let result: Dvsec = data.as_slice().try_into().unwrap();

    let sample = PcieDvsecForCxlDevice {
        cxl_capability: CxlCapability {
            cache_capable: true,
            io_capable: false,
            mem_capable: true,
            mem_hwinit_mode: false,
            hdm_count: HdmCount::OneHdmRange,
            cache_writeback_and_invalidate_capable: true,
            cxl_reset_capable: false,
            cxl_reset_timeout: CxlResetTimeout::MaxTime1s,
            cxl_reset_mem_clr_capable: true,
            multiple_logical_device: true,
            viral_capable: false,
            pm_init_completion_reporting_capable: true,
        },
        cxl_control: CxlControl {
            cache_enable: true,
            io_enable: false,
            mem_enable: true,
            cache_sf_coverage: CacheSfCoverage::SnoopFilter(1 << (0b01010 + 15)),
            cache_sf_granularity: CacheSfGranularity::Tracking2KB,
            cache_clean_eviction: CacheCleanEviction::Needed,
            viral_enable: true,
        },
        cxl_status: CxlStatus { viral_status: true },
        cxl_control2: CxlControl2 {
            disable_caching: false,
            initiate_cache_write_back_and_invalidation: true,
            initiate_cxl_reset: false,
            cxl_reset_mem_clr_enable: true,
        },
        cxl_status2: CxlStatus2 {
            cache_invalid: false,
            cxl_reset_complete: true,
            cxl_reset_error: false,
            power_management_initialization_complete: true,
        },
        cxl_lock: CxlLock { config_lock: false },
        cxl_capability2: CxlCapability2 {
            cache_size_unit: CacheSizeUnit::Unit64K,
            cache_size: 0xAA,
        },
        cxl_range_1_size: CxlRangeSize {
            memory_info_valid: false,
            memory_active: true,
            media_type: MediaType::Cdat,
            memory_class: MemoryClass::Memory,
            desired_interleave: DesiredInterleave::Granularity1KB,
            memory_active_timeout: MemoryActiveTimeout::MaxTime16s,
            memory_size: 0x4433221100000000,
        },
        cxl_range_1_base: CxlRangeBase {
            memory_base: 0x8877665540000000,
        },
        cxl_range_2_size: CxlRangeSize {
            memory_info_valid: true,
            memory_active: false,
            media_type: MediaType::Reserved(0b101),
            memory_class: MemoryClass::Cdat,
            desired_interleave: DesiredInterleave::Granularity2KB,
            memory_active_timeout: MemoryActiveTimeout::MaxTime1s,
            memory_size: 0xCCBBAA9980000000,
        },
        cxl_range_2_base: CxlRangeBase {
            memory_base: 0xFFEEDDC0000000,
        },
    };
    let sample = Dvsec {
        dvsec_vendor_id: 0x1e98,
        dvsec_revision: 1,
        dvsec_length: 0x38,
        dvsec_id: 0,
        dvsec_type: DvsecType::ComputeExpressLink(
            ComputeExpressLink::PcieDvsecForCxlDevice(sample)
        ),
    };

    assert_eq!(sample, result);
}

#[test]
fn compute_express_link_undefined_id() {
    let data = [
        /* 00h */ 0x23, 0x00, 0x01, 0x00, // Capability header
        /* 04h */ 0x98, 0x1E, 0xC1, 0x00, // Designated Vendor-Specific Header 1
        /* 08h */ 0x55, 0x55,             // Designated Vendor-Specific Header 2
                  0x55, 0x55,             // Reserved
    ];

    let result: Dvsec = data.as_slice().try_into().unwrap();

    let sample = Dvsec {
        dvsec_vendor_id: 0x1e98,
        dvsec_revision: 1,
        dvsec_length: 0x0C,
        dvsec_id: 0x5555,
        dvsec_type: DvsecType::ComputeExpressLink(ComputeExpressLink::Undefined(0x5555))
    };

    assert_eq!(sample, result);
}
