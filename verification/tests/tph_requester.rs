use pcics::extended_capabilities::tph_requester::{StModeSelect, StTable, TphRequester, TphRequesterCapability, TphRequesterControl, TphRequesterEnable};

#[test]
fn tph_requester_parse() {
    let data = [
        0x17, 0x00, 0x01, 0x1c, 0x05, 0x02, 0x07, 0x00,
        0x00, 0x00, 0x00, 0x00, 0x00, 0x00, 0x00, 0x00,
        0x00, 0x00, 0x00, 0x00, 0x00, 0x00, 0x00, 0x00,
        0x00, 0x00, 0x00, 0x00,
    ];
    let result: TphRequester = data[4..].try_into().unwrap();
    let sample = TphRequester {
        tph_requester_capability: TphRequesterCapability {
            no_st_mode_supported: true,
            interrupt_vector_mode_supported: false,
            device_specific_mode_supported: true,
            extended_tph_requester_supported: false,
            st_table: StTable::Valid { size: 0x07, data: [0u8; 16].as_slice() },
        },
        tph_requester_control: TphRequesterControl {
            st_mode_select: StModeSelect::NoStMode,
            tph_requester_enable: TphRequesterEnable::NotPermitted,
        },
    };
    assert_eq!(sample, result);
}
