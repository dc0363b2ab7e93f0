use pcics::capabilities::power_management_interface::{AuxCurrent, Bridge, Capabilities, Control, PmeSupport, PowerManagementInterface, PowerState};

#[test]
fn power_management_interface() {
    let data = [0x02,0x7e,0x00,0x00,0x40,0x00];
    // Capabilities: [c0] Power Management version 2
    //         Flags: PMEClk- DSI- D1+ D2+ AuxCurrent=0mA PME(D0+,D1+,D2+,D3hot+,D3cold-)
    //         Status: D0 NoSoftRst- PME-Enable- DSel=0 DScale=0 PME-
    //         Bridge: PM- B3+
    let (result, _) = PowerManagementInterface::try_read(&data).unwrap();
    let sample = PowerManagementInterface {
        capabilities: Capabilities {
            version: 0b10,
            pme_clock: false,
            reserved: false,
            device_specific_initialization: false,
            aux_current: AuxCurrent::SelfPowered,
            d1_support: true,
            d2_support: true,
            pme_support: PmeSupport {
                d0: true,
                d1: true,
                d2: true,
                d3_hot: true,
                d3_cold: false,
            },
        },
        control: Control {
            power_state: PowerState::D0,
            reserved: 0b000000,
            no_soft_reset: false,
            pme_enabled: false,
            pme_status: false,
        },
        bridge: Bridge {
            reserved: 0,
            b2_b3: true,
            bpcc_enabled: false,
        },
        data: None,
    };
    assert_eq!(sample, result);
}
