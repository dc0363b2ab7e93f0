use pcics::extended_capabilities::root_complex_register_block_header::{RcrbCapabilities, RcrbControl, RootComplexRegisterBlockHeader};

#[test]
fn root_complex_register_block_header_parse() {
    let data = [
        /* 00h */ 0x0a, 0x00, 0x01, 0x00, // Capability header
        /* 04h */ 0x86, 0x80,             // Vendor ID
                  0x34, 0x3e,             // Device ID
        /* 08h */ 0b01, 0x00, 0x00, 0x00, // RCRB Capabilities
        /* 10h */ 0b01, 0x00, 0x00, 0x00, // RCRB Control
        /* 14h */ 0x00, 0x00, 0x00, 0x00, // RsvdZ
    ];

    let result: RootComplexRegisterBlockHeader = data.as_slice().try_into().unwrap();

    let sample = RootComplexRegisterBlockHeader {
        vendor_id: 0x8086,
        device_id: 0x3e34,
        rcrb_capabilities: RcrbCapabilities {
            crs_software_visibility: true,
        },
        rcrb_control: RcrbControl {
            crs_software_visibility_enable: true,
        },
    };

    assert_eq!(sample, result);
}
