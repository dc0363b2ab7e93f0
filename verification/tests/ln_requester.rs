use pcics::extended_capabilities::ln_requester::{LnRequester, LnrCapability, LnrControl};

#[test]
fn ln_requester_parse() {
    let data = [
        /* 00h */ 0x1C, 0x00, 0x01, 0x00, // Capability header
        /* 04h */ 0x01, 0x13, // LNR Capability
                  0x01, 0x13, // LNR Control
    ];

    let result: LnRequester = data.as_slice().try_into().unwrap();

    let sample = LnRequester {
        lnr_capability: LnrCapability {
            lnr_64_supported: true,
            lnr_128_supported: false,
            lnr_registration_max: 0x13,
        },
        lnr_control: LnrControl {
            lnr_enable: true,
            lnr_cls: false,
            lnr_registration_limit: 0x13,
        },
    };

    assert_eq!(sample, result);
}
