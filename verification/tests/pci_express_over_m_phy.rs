use pcics::extended_capabilities::pci_express_over_m_phy::{LaneWidthStatus, LaneWidthSupported, MpcieCapabilities, MpcieControl, MpcieLinkSpeed, MpciePhyControlAddress, MpciePhyControlData, MpcieStatus, PciExpressOverMphy, PhyLocation};

#[test]
fn pci_express_over_m_phy_parse() {
    let data = [
        /* 00h */ 0x20, 0x00, 0x01, 0x00, // Capability header
        /* 04h */ 0x01, 0x80, 0x0f, 0x0f, // M-PCIe Capabilities
        /* 08h */ 0x01, 0x00, 0x00, 0x00, // M-PCIe Control
        /* 0Ch */ 0x01, 0x80, 0x0C, 0x0C, // M-PCIe Status
        /* 10h */ 0x00, 0x11, 0x22, 0x33, // M-PCIe LANE Error Status
        /* 14h */ 0x55, 0x00, 0x0A, 0xC1, // M-PCIe Phy Control Address
        /* 18h */ 0x13, 0x00, 0x00, 0x40, // M-PCIe Phy Control Data
    ];

    let result: PciExpressOverMphy = data.as_slice().try_into().unwrap();

    let sample = PciExpressOverMphy {
        mpcie_capabilities: MpcieCapabilities {
            mpcie_link_speed_capability: MpcieLinkSpeed {
                hs_g1: true,
                hs_g2: false,
            },
            configuration_software_supported: true,
            maximum_tx_lane_width_capability: LaneWidthSupported {
                x1: true,
                x2: true,
                x4: true,
                x8: true,
                x12: false,
                x16: false,
                x32: false,
            },
            maximum_rx_lane_width_capability: LaneWidthSupported {
                x1: true,
                x2: true,
                x4: true,
                x8: true,
                x12: false,
                x16: false,
                x32: false,
            },
        },
        mpcie_control: MpcieControl {
            mpcie_target_link_speed_control: MpcieLinkSpeed {
                hs_g1: true,
                hs_g2: false,
            },
        },
        mpcie_status: MpcieStatus {
            mpcie_current_link_speed_status: MpcieLinkSpeed {
                hs_g1: true,
                hs_g2: false,
            },
            mpcie_configuration_software_status: true,
            tx_lane_width_status: LaneWidthStatus::X12,
            rx_lane_width_status: LaneWidthStatus::X12,
        },
        mpcie_lane_error_status: 0x33221100,
        mpcie_phy_control_address: MpciePhyControlAddress {
            lower_addr: 0x55,
            upper_addr: 0x2a,
            phy_location: PhyLocation::LocalPhy,
            read: true,
            config: true,
        },
        mpcie_phy_control_data: MpciePhyControlData {
            phy_register_data: 0x13,
            phy_control_error: false,
            rrap_abort_a: true,
            phy_control_pending: false,
        },
    };

    assert_eq!(sample, result);
}
