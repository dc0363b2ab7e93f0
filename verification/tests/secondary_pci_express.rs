use pcics::extended_capabilities::secondary_pci_express::{EqualizationControlLanes, LaneEqualizationControl, LaneErrorStatus, LinkControl3, SecondaryPciExpress};
use pcics::capabilities::pci_express::{LinkWidth, ReceiverPresetHint, SupportedLinkSpeedsVector, TransmitterPreset};
// Capabilities: [250 v1] Secondary PCI Express
//         LnkCtl3: LnkEquIntrruptEn-, PerformEqu-
//         LaneErrStat: LaneErr at lane: 0 1 3 4 5 6 7 10 11
const DATA: [u8; 3 * 16] = [
    0x19, 0x00, 0x01, 0x28, 0x00, 0x00, 0x00, 0x00, 0xfb, 0x0c, 0x00, 0x00, 0x77, 0x27, 0x77,
    0x27, 0x77, 0x27, 0x77, 0x27, 0x77, 0x27, 0x77, 0x27, 0x77, 0x27, 0x77, 0x27, 0x77, 0x27,
    0x77, 0x27, 0x77, 0x27, 0x77, 0x27, 0x77, 0x27, 0x77, 0x27, 0x77, 0x27, 0x77, 0x27, 0x00,
    0x00, 0x00, 0x00,
];

#[test]
fn lane_error_status() {
    let result: SecondaryPciExpress = DATA[4..].try_into().unwrap();
    let link_control_3 = LinkControl3 {
        perform_equalization: false,
        link_equalization_request_interrupt_enable: false,
        lower_skp_os_generation_vector: SupportedLinkSpeedsVector {
            speed_2_5_gtps: false,
            speed_5_0_gtps: false,
            speed_8_0_gtps: false,
            speed_16_0_gtps: false,
            speed_32_0_gtps: false,
            speed_64_0_gtps: false,
            reserved: false,
        },
    };
    assert_eq!(link_control_3, result.link_control_3);
    assert_eq!(LaneErrorStatus(0b1100_1111_1011), result.lane_error_status);
    // The Lane Equalization Control registers start 12 bytes into the capability
    let mut lanes = result.equalization_control_lanes(LinkWidth::X16);
    let mut expected = EqualizationControlLanes::new(&DATA[4 + 4 + 4..4 + 4 + 4 + 32]);
    assert_eq!(expected.entries(), lanes.entries());
}

#[test]
fn equalization_control_lanes() {
    let spe: SecondaryPciExpress = DATA[4..].try_into().unwrap();
    let mut lanes = spe.equalization_control_lanes(LinkWidth::X8);
    let result = lanes.entries();
    let sample = std::iter::repeat(LaneEqualizationControl {
        downstream_port_transmitter_preset: TransmitterPreset::P7,
        downstream_port_receiver_preset_hint: ReceiverPresetHint::Reserved,
        upstream_port_transmitter_preset: TransmitterPreset::P7,
        upstream_port_receiver_preset_hint: ReceiverPresetHint::Minus8dB,
    })
    .take(8)
    .collect::<Vec<_>>();
    assert_eq!(sample, result);
}
