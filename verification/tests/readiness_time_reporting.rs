use pcics::extended_capabilities::readiness_time_reporting::{ReadinessTime, ReadinessTimeReporting};

#[test]
fn readiness_time_reporting_parse() {
    let data = [
        /* 00h */ 0x22, 0x00, 0x01, 0x00, // Capability header
        /* 04h */ 0x11, 0x22, 0x33, 0x80, // Readiness Time Reporting 1
        /* 08h */ 0x44, 0x55, 0x66, 0x00, // Readiness Time Reporting 2
    ];

    let result: ReadinessTimeReporting = data.as_slice().try_into().unwrap();

    let sample = ReadinessTimeReporting {
        reset_time: ReadinessTime {
            value: 0x11,
            scale: 0b001,
        },
        dl_up_time: ReadinessTime {
            value: 0x32 | 0x100,
            scale: 0b001,
        },
        valid: true,
        flr_time: ReadinessTime {
            value: 0x44 | 0x100,
            scale: 0b010,
        },
        d3hot_to_d0_time: ReadinessTime {
            value: 0x65,
            scale: 0b011,
        },
    };

    assert_eq!(sample, result);
}
