use pcics::capabilities::pci_express::{ActiveStatePowerManagement, L0sExitLatency, L1ExitLatency, Link, LinkSpeed, LinkWidth, Root, SupportedLinkSpeedsVector};
use pcics::extended_capabilities::root_complex_internal_link_control::{RootComplexInternalLinkControl, RootComplexLinkCapabilities, RootComplexLinkControl, RootComplexLinkStatus};

#[test]
fn root_complex_internal_link_control_parse() {
    let data = [
        0x06, 0x00, 0x00, 0x00, // Extended Capability Header
        0x55, 0x55, 0x55, 0x55, // Root Complex Link Capabilities
        0x55, 0x55, // Root Complex Link Control
        0x55, 0x55, // Root Complex Link Status
    ];
    let result: RootComplexInternalLinkControl = data[4..].try_into().unwrap();
    let sample = RootComplexInternalLinkControl {
        root_complex_link_capabilities: RootComplexLinkCapabilities {
            max_link_speed: LinkSpeed::Rate32GTps,
            maximum_link_width: LinkWidth::Reserved(0x15),
            active_state_power_management_support: ActiveStatePowerManagement::L0s,
            l0s_exit_latency: L0sExitLatency::Ge1usAndLt2us,
            l1_exit_latency: L1ExitLatency::Ge2usAndLt4us,
            supported_link_speeds_vector: SupportedLinkSpeedsVector {
                speed_2_5_gtps: true,
                speed_5_0_gtps: false,
                speed_8_0_gtps: true,
                speed_16_0_gtps: false,
                speed_32_0_gtps: true,
                speed_64_0_gtps: false,
                reserved: true,
            },
        },
        root_complex_link_control: RootComplexLinkControl {
            active_state_power_management_control: ActiveStatePowerManagement::L0s,
            extended_synch: false,
        },
        root_complex_link_status: RootComplexLinkStatus {
            current_link_speed: LinkSpeed::Rate32GTps,
            negotiated_link_width: LinkWidth::Reserved(0x15),
        },
    };
    assert_eq!(sample, result);
}
