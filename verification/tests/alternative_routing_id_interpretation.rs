use pcics::extended_capabilities::alternative_routing_id_interpolation::{AlternativeRoutingIdInterpretation, AriCapability, AriControl};

#[test]
fn alternative_routing_id_interpretation_parse() {
    let data = [
        0x0e, 0x00, 0x01, 0x16, 0x00, 0x01, 0x00, 0x00,
    ];
    let result: AlternativeRoutingIdInterpretation = data[4..].try_into().unwrap();
    let sample = AlternativeRoutingIdInterpretation {
        ari_capability: AriCapability {
            mfvc_function_groups_capability: false,
            acs_function_groups_capability: false,
            next_function_number: 1,
        },
        ari_control: AriControl {
            mfvc_function_groups_enable: false,
            acs_function_groups_enable: false,
            function_group: 0,
        }
    };
    assert_eq!(sample, result);
}
