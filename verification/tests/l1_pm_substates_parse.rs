use pcics::extended_capabilities::l1_pm_substates::{L1PmSubstates, L1PmSubstatesCapabilities, L1PmSubstatesControl1, L1PmSubstatesControl2, MaxLatency, PortTPowerOn, PortTPowerOnScale};

#[test]
fn l1_pm_substates_parse_time_2us() {
    let data = [
        0x1e, 0x00, 0x01, 0x22,
        0x1f, 0x28, 0xb0, 0x00,
        0x0f, 0xff, 0x50, 0x40,
        0xb0, 0x00, 0x00, 0x00,
    ];
    let result: L1PmSubstates = data[4..].try_into().unwrap();
    let sample = L1PmSubstates {
        l1_pm_substates_capabilities: L1PmSubstatesCapabilities {
            pci_pm_l1_2_supported: true,
            pci_pm_l1_1_supported: true,
            aspm_l1_2_supported: true,
            aspm_l1_1_supported: true,
            l1_pm_substates_supported: true,
            port_common_mode_restore_time: 40,
            port_t_power_on: PortTPowerOn { value: 22, scale: PortTPowerOnScale::Time2us },
        },
        l1_pm_substates_control_1: L1PmSubstatesControl1 {
            pci_pm_l1_2_enable: true,
            pci_pm_l1_1_enable: true,
            aspm_l1_2_enable: true,
            aspm_l1_1_enable: true,
            common_mode_restore_time: 255,
            ltr_l1_2_threshold: MaxLatency { value: 80, scale: 2 },
        },
        l1_pm_substates_control_2: L1PmSubstatesControl2 {
            t_power_on: PortTPowerOn { value: 22, scale: PortTPowerOnScale::Time2us },
        },
    };
    assert_eq!(sample, result);
}
