use pcics::capabilities::pci_express::LinkWidth;
use pcics::extended_capabilities::l1_pm_substates::{PortTPowerOn, PortTPowerOnScale};
use pcics::extended_capabilities::latency_tolerance_reporting::MaxLatency;
use pcics::extended_capabilities::readiness_time_reporting::ReadinessTime;

#[test]
fn max_latency_in_nanoseconds() {
    // Max snoop latency: 71680ns
    assert_eq!(71680, MaxLatency { value: 70, scale: 2 }.value());
    assert_eq!(70, MaxLatency { value: 70, scale: 0 }.value());
    assert_eq!(1023 << 25, MaxLatency { value: 1023, scale: 5 }.value());
    // Scales above 5 are not allowed
    assert_eq!(0, MaxLatency { value: 1, scale: 6 }.value());
}

#[test]
fn port_t_power_on_in_microseconds() {
    let t = PortTPowerOn { value: 22, scale: PortTPowerOnScale::Time2us };
    assert_eq!(Some(44), t.value());
    let t = PortTPowerOn { value: 5, scale: PortTPowerOnScale::Time100us };
    assert_eq!(Some(500), t.value());
    let t = PortTPowerOn { value: 5, scale: PortTPowerOnScale::Reserved };
    assert_eq!(None, t.value());
    assert_eq!(Some(10), PortTPowerOnScale::Time10us.micros());
}

#[test]
fn readiness_time_actual_value() {
    let t = ReadinessTime { value: 0x132, scale: 1 };
    assert_eq!(0x132 * 32, t.actual_time_value());
    let t = ReadinessTime { value: 0x44, scale: 0 };
    assert_eq!(0x44, t.actual_time_value());
}

#[test]
fn link_width_number_of_lanes() {
    assert_eq!(1, LinkWidth::X1.value());
    assert_eq!(12, LinkWidth::X12.value());
    assert_eq!(32, LinkWidth::X32.value());
    assert_eq!(0, LinkWidth::Reserved(3).value());
}
