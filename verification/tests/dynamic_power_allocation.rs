use pcics::extended_capabilities::dynamic_power_allocation::{DpaCapability, DpaControl, DpaPowerAllocationArray, DpaStatus, DynamicPowerAllocation, PowerAllocationScale, TransitionLatencyUnit};

#[test]
fn dynamic_power_allocation_parse() {
    let data = [
        /* 00h */ 0x0c, 0x00, 0x01, 0x00, // Capability header
        /* 04h */ 0x03, 0x22, 0x55, 0xAA, // DPA Capability
        /* 08h */ 0x00, 0x11, 0x22, 0x33, // DPA Latency Indicator
        /* 0Ch */ 0x03, 0x01, // DPA Status
                  0x03, 0x00, // DPA Control
        /* 10h */ 0x00, 0x11, 0x22, 0x33, // DPA Power Allocation Array
    ];

    let result: DynamicPowerAllocation = data.as_slice().try_into().unwrap();

    let sample = DynamicPowerAllocation {
        dpa_capability: DpaCapability {
            substate_max: 3,
            transition_latency_unit: TransitionLatencyUnit::Unit100ms,
            power_allocation_scale: PowerAllocationScale::Mul0_1,
            transition_latency_value_0: 0x55,
            transition_latency_value_1: 0xAA,
        },
        dpa_latency_indicator: 0x33221100,
        dpa_status: DpaStatus {
            substate_status: 3,
            substate_control_enabled: true,
        },
        dpa_control: DpaControl {
            substate_control: 3,
        },
        dpa_power_allocation_array: DpaPowerAllocationArray(&[0x00, 0x11, 0x22, 0x33]),
    };

    assert_eq!(sample, result);
}
