use pcics::extended_capabilities::multifunction_virtual_channel::{ExtendedVirtualChannel, ExtendedVirtualChannels, FunctionArbitrationCapability, FunctionArbitrationSelect, FunctionArbitrationTable, FunctionArbitrationTableEntry, VcResourceCapability, VcResourceControl, VcResourceStatus};

#[test]
fn function_arbitration_table_1_bit_entry() {
    let data = [0b10101010, 0b11001100, 0b11110000, 0xff];
    let sample = (0..32).fold(
        vec![FunctionArbitrationTableEntry(0); 32],
        |mut sample, i| {
            sample[i] = FunctionArbitrationTableEntry(((i >> (i / 8)) % 2) as u8);
            sample
        },
    );
    let mut table = FunctionArbitrationTable::new(data.as_slice(), 1);
    let result: Vec<_> = table.entries();
    assert_eq!(sample, result);
}

#[test]
fn function_arbitration_table_2_bit_entry() {
    let data = [
        0x00, 0b01010101, 0b10101010, 0b00110011, 0b11001100, 0b00001111, 0b11110000, 0xff,
    ];
    let sample = (0..32).fold(
        vec![FunctionArbitrationTableEntry(0); 32],
        |mut sample, i| {
            let v = match i {
                4..=7 => 0b01,
                8..=11 => 0b10,
                12 | 14 | 17 | 19 | 20 | 21 | 26 | 27 | 28..=31 => 0b11,
                _ => 0b00,
            };
            sample[i] = FunctionArbitrationTableEntry(v as u8);
            sample
        },
    );
    let mut table = FunctionArbitrationTable::new(data.as_slice(), 2);
    let result: Vec<_> = table.entries();
    assert_eq!(sample, result);
}

#[test]
fn function_arbitration_table_4_bit_entry() {
    let data = [
        0x00, 0x11, 0x22, 0x33, 0x44, 0x55, 0x66, 0x77, 0x88, 0x99, 0xaa, 0xbb, 0xcc, 0xdd,
        0xee, 0xff,
    ];
    let sample = (0..32).fold(
        vec![FunctionArbitrationTableEntry(0); 32],
        |mut sample, i| {
            sample[i] = FunctionArbitrationTableEntry((i / 2) as u8);
            sample
        },
    );
    let mut table = FunctionArbitrationTable::new(data.as_slice(), 4);
    let result: Vec<_> = table.entries();
    assert_eq!(sample, result);
}

#[test]
fn function_arbitration_table_8_bit_entry() {
    let data = [
        0x00, 0x01, 0x02, 0x03, 0x04, 0x05, 0x06, 0x07, 0x08, 0x09, 0x0a, 0x0b, 0x0c, 0x0d,
        0x0e, 0x0f, 0x00, 0x10, 0x20, 0x30, 0x40, 0x50, 0x60, 0x70, 0x80, 0x90, 0xa0, 0xb0,
        0xc0, 0xd0, 0xe0, 0xf0,
    ];
    let sample = (0..32).fold(
        vec![FunctionArbitrationTableEntry(0); 32],
        |mut sample, i| {
            sample[i] = FunctionArbitrationTableEntry(if i < 16 { i } else { i << 4 } as u8);
            sample
        },
    );
    let mut table = FunctionArbitrationTable::new(data.as_slice(), 8);
    let result: Vec<_> = table.entries();
    assert_eq!(sample, result);
}

#[test]
fn extended_virtual_channels() {
        let data = [
        /* 00h */ 0x08, 0x00, 0x01, 0x00,             // Capability header
        /* 04h */ 0b0_000_0_001, 0b1_00, 0x00, 0x00,  // Port VC Capability Register 1
        /* 08h */ 0b1111, 0x00, 0x00, 0x00,           // Port VC Capability Register 2
        /* 0Ch */ 0b0010, 0x00,                       // Port VC Control Register
                  0x00, 0x00,                         // Port VC Status Register
        /* 10h */ 0b111, 0x00, 0x00, 0x04,            // VC Resource Capability Register (0)
        /* 14h */ 0x0f, 0x00, 0x04, 0x80,             // VC Resource Control Register (0)
        /* 18h */ 0x00, 0x00,                         // RsvdP
                  0b10, 0x00,                         // VC Resource Status Register (0)
        /* 1Ch */ 0b11000, 0x00, 0x7f, 0x05,          // VC Resource Capability Register (1)
        /* 20h */ 0xf0, 0x00, 0b100_0, 0x80,          // VC Resource Control Register (1)
        /* 24h */ 0x00, 0x00,                         // RsvdP
                  0b01, 0x00,                         // VC Resource Status Register (1)
    ];
    let mut evcs = ExtendedVirtualChannels::new(data.as_slice(), 1, 0);
    let result: Vec<_> = evcs.entries();

    let sample = vec![
        ExtendedVirtualChannel {
            vc_resource_capability: VcResourceCapability {
                function_arbitration_capability: FunctionArbitrationCapability {
                    hardware_fixed_arbitration: true,
                    wrr_32_phases: true,
                    wrr_64_phases: true,
                    wrr_128_phases: false,
                    time_based_wrr_128_phases: false,
                    wrr_256_phases: false,
                    reserved: 0,
                },
                maximum_time_slots: 0,
                function_arbitration_table_offset: 0x40 / 0x10,
            },
            vc_resource_control: VcResourceControl {
                tc_to_vc_map: 0x0f,
                load_function_arbitration_table: false,
                function_arbitration_select: FunctionArbitrationSelect::Wrr64phases,
                vc_id: 0,
                vc_enable: true,
            },
            vc_resource_status: VcResourceStatus {
                function_arbitration_table_status: false,
                vc_negotiation_pending: true,
            },
            function_arbitration_table: None,
        },
        ExtendedVirtualChannel {
            vc_resource_capability: VcResourceCapability {
                function_arbitration_capability: FunctionArbitrationCapability {
                    hardware_fixed_arbitration: false,
                    wrr_32_phases: false,
                    wrr_64_phases: false,
                    wrr_128_phases: true,
                    time_based_wrr_128_phases: true,
                    wrr_256_phases: false,
                    reserved: 0,
                },
                maximum_time_slots: 0x7f,
                function_arbitration_table_offset: 0x50 / 0x10,
            },
            vc_resource_control: VcResourceControl {
                tc_to_vc_map: 0xf0,
                load_function_arbitration_table: false,
                function_arbitration_select: FunctionArbitrationSelect::TimeBasedWrr128phases,
                vc_id: 0,
                vc_enable: true,
            },
            vc_resource_status: VcResourceStatus {
                function_arbitration_table_status: true,
                vc_negotiation_pending: false,
            },
            function_arbitration_table: None,
        },
    ];

    assert_eq!(sample, result);
}
