use pcics::extended_capabilities::access_control_services::{AccessControlServices, AcsCapability, AcsControl};

#[test]
fn access_control_services_parse() {
    let data = [
        0x0d, 0x00, 0x01, 0x00, 0x0f, 0x00, 0x00, 0x00,
    ];
    let result: AccessControlServices = data[4..].try_into().unwrap();
    let mut sample = result.clone();
    sample.acs_capability = AcsCapability {
        acs_source_validation: true,
        acs_translation_blocking: true,
        acs_p2p_request_redirect: true,
        acs_p2p_completion_redirect: true,
        acs_upstream_forwarding: false,
        acs_p2p_egress_control: false,
        acs_direct_translated_p2p: false,
        egress_control_vector_size: 0,
    };
    sample.acs_control = AcsControl {
        acs_source_validation_enable: false,
        acs_translation_blocking_enable: false,
        acs_p2p_request_redirect_enable: false,
        acs_p2p_completion_redirect_enable: false,
        acs_upstream_forwarding_enable: false,
        acs_p2p_egress_control_enable: false,
        acs_direct_translated_p2p_enable: false,
    };
    assert_eq!(sample, result);
}
