use pcics::capabilities::flattening_portal_bridge::{FlatteningPortalBridge, FpbCapabilities, FpbMemHighVectorControl, FpbMemHighVectorGranularity, FpbMemHighVectorSizeSupported, FpbMemLowVectorControl, FpbMemLowVectorGranularity, FpbMemLowVectorSizeSupported, FpbRidVectorControl, FpbRidVectorGranularity, FpbRidVectorSizeSupported, FpbVectorAccessControl, FpbVectorSelect};

#[test]
fn flattening_portal_bridge_parse() {
    let data = [
        0x15, 0x00, // Header
        0x00, 0x00, // Reserved
        0x55, 0x55, 0x55, 0x55, // FPB Capabilities
        0x55, 0x55, 0x55, 0x55, // FPB RID Vector Control 1
        0x55, 0x55, 0x55, 0x55, // FPB RID Vector Control 2
        0x55, 0x55, 0x55, 0x55, // FPB MEM Low Vector Control
        0x55, 0x55, 0x55, 0x55, // FPB MEM High Vector Control 1
        0x55, 0x55, 0x55, 0x55, // FPB MEM High Vector Control 2
        0x55, 0x55, 0x55, 0x55, // FPB Vector Access Control
        0x67, 0x45, 0x23, 0x01, // FPB Vector Access Data
    ];
    let sample = FlatteningPortalBridge {
        reserved: 0,
        fpb_capabilities: FpbCapabilities {
            fpb_rid_decode_mechanism_supported: true,
            fpb_mem_low_decode_mechanism_supported: false,
            fpb_mem_high_decode_mechanism_supported: true,
            fpb_num_sec_dev: 0b1010,
            fpb_rid_vector_size_supported: FpbRidVectorSizeSupported::Size8kbits,
            fpb_mem_low_vector_size_supported: FpbMemLowVectorSizeSupported::Reserved(5),
            fpb_mem_high_vector_size_supported: FpbMemHighVectorSizeSupported::Size8Kbits,
        },
        fpb_rid_vector_control: FpbRidVectorControl {
            fpb_rid_decode_mechanism_enable: true,
            fpb_rid_vector_granularity: FpbRidVectorGranularity::Granularity256RIDs,
            fpb_rid_vector_start: 0x5500,
            rid_secondary_start: 0x5550 >> 3,
        },
        fpb_mem_low_vector_control: FpbMemLowVectorControl {
            fpb_mem_low_decode_mechanism_enable: true,
            fpb_mem_low_vector_granularity: FpbMemLowVectorGranularity::Reserved(5),
            fpb_mem_low_vector_start: 0x5555_5555 & (u32::MAX << 25),
        },
        fpb_mem_high_vector_control: FpbMemHighVectorControl {
            fpb_mem_high_decode_mechanism_enable: true,
            fpb_mem_high_vector_granularity: FpbMemHighVectorGranularity::Granularity8GB,
            fpb_mem_high_vector_start: 0x5555_5555_5555_5555 & (u64::MAX << 33),
        },
        fpb_vector_access_control: FpbVectorAccessControl {
            fpb_vector_access_offset: 0x55,
            fpb_vector_select: FpbVectorSelect::MemLow,
        },
        fpb_vector_access_data: 0x1234567,
    };
    let result: FlatteningPortalBridge = data[2..].try_into().unwrap();
    assert_eq!(sample, result);
}
