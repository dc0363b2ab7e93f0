use pcics::capabilities::pci_express::SupportedLinkSpeedsVector;
use pcics::extended_capabilities::secondary_pci_express::{LaneErrorStatus, LinkControl3, SecondaryPciExpress};

#[test]
fn secondary_pci_express_parse() {
    let data = [
        0x19, 0x00, 0x01, 0x28, 0x00, 0x00, 0x00, 0x00,
        0x0f, 0x00, 0x00, 0x00, 0x78, 0x27, 0x78, 0x27,
        0x78, 0x27, 0x78, 0x27,
    ];

    let result: SecondaryPciExpress = data[4..].try_into().unwrap();

    let mut sample = result.clone();
    sample.link_control_3 = LinkControl3 {
        perform_equalization: false,
        link_equalization_request_interrupt_enable: false,
        lower_skp_os_generation_vector: SupportedLinkSpeedsVector {
            speed_2_5_gtps: false,
            speed_5_0_gtps: false,
            speed_8_0_gtps: false,
            speed_16_0_gtps: false,
            speed_32_0_gtps: false,
            speed_64_0_gtps: false,
            reserved: false,
        },
    };
    sample.lane_error_status = LaneErrorStatus(0x0f);

    assert_eq!(sample, result);
}
