use pcics::extended_capabilities::protocol_multiplexing::{PmuxCapability, PmuxControl, PmuxProtocolArray, PmuxProtocolArrayEntry, PmuxStatus, PmuxSupportedLinkSpeeds, ProtocolMultiplexing};

#[test]
fn protocol_multiplexing_parse() {
    let data = [
        /* 00h */ 0x01, 0x00, 0x01, 0x00, // Capability header
        /* 04h */ 0x02, 0b1100, 0x00, 0x00, // PMUX Capability
        /* 08h */ 0x01, 0x02, 0x03, 0x04, // PMUX Control
        /* 0Ch */ 0b000, 0b001, 0b010, 0b100, // PMUX Status
        /* 10h */ 0x12, 0x34, 0x56, 0x78, // PMUX Protocol Array [1]
        /* 14h */ 0x11, 0x22, 0x33, 0x44, // PMUX Protocol Array [2]
    ];

    let result: ProtocolMultiplexing = data.as_slice().try_into().unwrap();

    let protocol_array_bytes = [
        PmuxProtocolArrayEntry {
            protocol_id: 0x3412,
            authority_id: 0x7856,
        },
        PmuxProtocolArrayEntry {
            protocol_id: 0x2211,
            authority_id: 0x4433,
        },
    ]
    .map(Into::<[u8; 4]>::into)
    .into_iter()
    .flatten()
    .collect::<Vec<_>>();

    let sample = ProtocolMultiplexing {
        pmux_capability: PmuxCapability {
            pmux_protocol_array_size: 2,
            pmux_supported_link_speeds: PmuxSupportedLinkSpeeds {
                speed_2_5_gtps: false,
                speed_5_0_gtps: false,
                speed_8_0_gtps: true,
                speed_16_0_gtps: true,
            },
        },
        pmux_control: PmuxControl {
            pmux_channel_0_assignment: 1,
            pmux_channel_1_assignment: 2,
            pmux_channel_2_assignment: 3,
            pmux_channel_3_assignment: 4,
        },
        pmux_status: PmuxStatus {
            pmux_channel_0_disabled_link_speed: false,
            pmux_channel_0_disabled_link_width: false,
            pmux_channel_0_disabled_link_protocol_specific: false,
            pmux_channel_1_disabled_link_speed: true,
            pmux_channel_1_disabled_link_width: false,
            pmux_channel_1_disabled_link_protocol_specific: false,
            pmux_channel_2_disabled_link_speed: false,
            pmux_channel_2_disabled_link_width: true,
            pmux_channel_2_disabled_link_protocol_specific: false,
            pmux_channel_3_disabled_link_speed: false,
            pmux_channel_3_disabled_link_width: false,
            pmux_channel_3_disabled_link_protocol_specific: true,
        },
        pmux_protocol_array: PmuxProtocolArray::new(&protocol_array_bytes),
    };

    assert_eq!(sample, result);
}
