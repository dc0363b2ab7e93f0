use pcics::extended_capabilities::l1_pm_substates::{L1PmSubstates, L1PmSubstatesCapabilities, L1PmSubstatesControl1, L1PmSubstatesControl2, MaxLatency, PortTPowerOn, PortTPowerOnScale};
use pcics::extended_capabilities::ECH_BYTES;
// Capabilities: [258 v1] L1 PM Substates
//         L1SubCap: PCI-PM_L1.2+ PCI-PM_L1.1+ ASPM_L1.2+ ASPM_L1.1+ L1_PM_Substates+
//                   PortCommonModeRestoreTime=255us PortTPowerOnTime=10us
//         L1SubCtl1: PCI-PM_L1.2+ PCI-PM_L1.1+ ASPM_L1.2- ASPM_L1.1-
//                    T_CommonMode=0us LTR1.2_Threshold=51200ns
//         L1SubCtl2: T_PwrOn=44us
const DATA: [u8; 16] = [
    0x1e, 0x00, 0x81, 0x12, 0x1f, 0xff, 0x28, 0x00, 0x03, 0x00, 0x32, 0x40, 0xb0, 0x00, 0x00,
    0x00,
];
const SAMPLE: L1PmSubstates = L1PmSubstates {
    l1_pm_substates_capabilities: L1PmSubstatesCapabilities {
        pci_pm_l1_2_supported: true,
        pci_pm_l1_1_supported: true,
        aspm_l1_2_supported: true,
        aspm_l1_1_supported: true,
        l1_pm_substates_supported: true,
        port_common_mode_restore_time: 255,
        port_t_power_on: PortTPowerOn {
            value: 5,
            scale: PortTPowerOnScale::Time2us,
        },
    },
    l1_pm_substates_control_1: L1PmSubstatesControl1 {
        pci_pm_l1_2_enable: true,
        pci_pm_l1_1_enable: true,
        aspm_l1_2_enable: false,
        aspm_l1_1_enable: false,
        common_mode_restore_time: 0,
        ltr_l1_2_threshold: MaxLatency {
            value: 50,
            scale: 2,
        },
    },
    l1_pm_substates_control_2: L1PmSubstatesControl2 {
        t_power_on: PortTPowerOn {
            value: 22,
            scale: PortTPowerOnScale::Time2us,
        },
    },
};

#[test]
fn from_bytes_into_struct() {
    let result = DATA[ECH_BYTES..].try_into().unwrap();
    assert_eq!(SAMPLE, result);
}

#[test]
fn from_capabilities_into_dword() {
    assert_eq!(
        u32::from_le_bytes([0x1f, 0xff, 0x28, 0x00]),
        SAMPLE.l1_pm_substates_capabilities.into(),
        "Capabilities"
    );
}

#[test]
fn from_control_1_into_dword() {
    assert_eq!(
        u32::from_le_bytes([0x03, 0x00, 0x32, 0x40]),
        SAMPLE.l1_pm_substates_control_1.into(),
        "Control 1"
    );
}

#[test]
fn from_control_2_into_dword() {
    assert_eq!(
        u32::from_le_bytes([0xb0, 0x00, 0x00, 0x00]),
        SAMPLE.l1_pm_substates_control_2.into(),
        "Control 2"
    );
}
