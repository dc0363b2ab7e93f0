use pcics::extended_capabilities::configuration_access_correlation::ConfigurationAccessCorrelation;

#[test]
fn configuration_access_correlation_parse() {
    let data = [
        /* 00h */ 0x0c, 0x00, 0x01, 0x00, // Capability header
        /* 04h */ 0x00, 0x11, 0x22, 0x33, // Device Correlation
    ];

    let result: ConfigurationAccessCorrelation = data.as_slice().try_into().unwrap();

    let sample = ConfigurationAccessCorrelation {
        device_correlation: 0x33221100,
    };

    assert_eq!(sample, result);
}
