use pcics::extended_capabilities::precision_time_measurement::{PrecisionTimeMeasurement, PtmCapability, PtmControl};

#[test]
fn precision_time_measurement_parse() {
    let data = [
        0x1f, 0x00, 0x01, 0x22, 0x06, 0x04, 0x00, 0x00, 0x00, 0x00, 0x00, 0x00,
    ];
    let sample = PrecisionTimeMeasurement {
        ptm_capability: PtmCapability {
            ptm_requester_capable: false,
            ptm_responder_capable: true,
            ptm_root_capable: true,
            local_clock_granularity: 4,
        },
        ptm_control: PtmControl {
            ptm_enable: false,
            root_select: false,
            effective_granularity: 0x00,
        },
    };
    let result: PrecisionTimeMeasurement = data[4..].try_into().unwrap();
    assert_eq!(sample, result);
}
