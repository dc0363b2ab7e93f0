use pcics::extended_capabilities::vendor_specific_extended_capability::{VendorSpecificExtendedCapability, VsecHeader, VsecRegisters};

#[test]
fn vendor_specific_extended_capability_parse() {
    let data = [
        0x0b, 0x00, 0x41, 0x14, 0x02, 0x00, 0xc0, 0x00, 0x07, 0x30, 0x00, 0x00,
    ];
    let result: VendorSpecificExtendedCapability = data[4..].try_into().unwrap();
    let sample = VendorSpecificExtendedCapability {
        header: VsecHeader {
            vsec_id: 0x0002,
            vsec_rev: 0,
            vsec_length: 0x00c,
        },
        registers: VsecRegisters::Valid([0x07, 0x30, 0x00, 0x00].as_slice()),
    };
    assert_eq!(sample, result);
}
