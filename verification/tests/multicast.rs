use pcics::extended_capabilities::multicast::{McBaseAddress, McOverlayBar, Multicast, MulticastCapability, MulticastControl};

#[test]
fn multicast_parse() {
    let data = [
        /* 00h */ 0x0c, 0x00, 0x01, 0x00, // Capability header
        /* 04h */ 0x2a, 0x8f, // Multicast Capability
                  0x20, 0x80, // Multicast Control
        /* 08h */ 0x0f, 0x10, 0x20, 0x30, 0x40, 0x50, 0x60, 0x70, // MC_Base_Address
        /* 10h */ 0x00, 0x00, 0x00, 0x00, 0x11, 0x11, 0x11, 0x11, // MC_Receive
        /* 18h */ 0x22, 0x22, 0x22, 0x22, 0x33, 0x33, 0x33, 0x33, // MC_Block_All
        /* 20h */ 0x44, 0x44, 0x44, 0x44, 0x55, 0x55, 0x55, 0x55, // MC_Block_Untranslated
        /* 28h */ 0x0a, 0x11, 0x22, 0x33, 0x44, 0x55, 0x66, 0x77, // MC_Overlay_BAR
    ];

    let result: Multicast = data.as_slice().try_into().unwrap();

    let sample = Multicast {
        multicast_capability: MulticastCapability {
            mc_max_group: 42,
            mc_window_size_requested: 0x0f,
            mc_ecrc_regeneration_supported: true,
        },
        multicast_control: MulticastControl {
            mc_num_group: 32,
            mc_enable: true,
        },
        mc_base_address: McBaseAddress {
            mc_index_position: 15,
            mc_base_address: 0x7060504030201000,
        },
        mc_receive: 0x1111111100000000,
        mc_block_all: 0x3333333322222222,
        mc_block_untranslated: 0x5555555544444444,
        mc_overlay_bar: Some(McOverlayBar {
            mc_overlay_size: 10,
            mc_overlay_bar: 0x7766554433221100,
        }),
    };

    assert_eq!(sample, result);
}
