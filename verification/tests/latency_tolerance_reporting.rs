use pcics::extended_capabilities::latency_tolerance_reporting::{LatencyToleranceReporting, MaxLatency};

#[test]
fn latency_tolerance_reporting_parse() {
    let data = [
        0x18, 0x00, 0x01, 0x1d, 0x46, 0x08, 0x46, 0x08,
    ];
    let result: LatencyToleranceReporting = data[4..].try_into().unwrap();
    let sample = LatencyToleranceReporting {
        max_snoop_latency: MaxLatency { value: 70, scale: 2 },
        max_no_snoop_latency: MaxLatency { value: 70, scale: 2 },
    };
    assert_eq!(sample, result);
}
