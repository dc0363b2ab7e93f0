use pcics::extended_capabilities::designated_vendor_specific_extended_capability::{DesignatedVendorSpecificExtendedCapability, DvsecType};

#[test]
fn designated_vendor_specific_parse_unspecified() {
    let data = [
        /* 00h */ 0x23, 0x00, 0x01, 0x00, // Capability header
        /* 04h */ 0x86, 0x80, 0x02, 0x01, // Designated Vendor-Specific Header 1
        /* 08h */ 0x23, 0x00,             // Designated Vendor-Specific Header 2
                  0x00, 0x11,             // DVSEC vendor-specific registers
        /* 0Ch */ 0x22, 0x33, 0x44, 0x55,
    ];

    let result: DesignatedVendorSpecificExtendedCapability = data.as_slice().try_into().unwrap();

    let sample = DesignatedVendorSpecificExtendedCapability {
        dvsec_vendor_id: 0x8086,
        dvsec_revision: 2,
        dvsec_length: 0x10,
        dvsec_id: 0x23,
        dvsec_type: DvsecType::Unspecified(&[0x00, 0x11, 0x22, 0x33, 0x44, 0x55]),
    };

    assert_eq!(sample, result);
}
