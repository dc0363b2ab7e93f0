use pcics::extended_capabilities::multifunction_virtual_channel::{ExtendedVirtualChannel, ExtendedVirtualChannels, FunctionArbitrationCapability, FunctionArbitrationSelect, FunctionArbitrationTableEntrySize, MultifunctionVirtualChannel, PortVcCapability1, PortVcCapability2, PortVcControl, PortVcStatus, ReferenceClock, VcArbitrationCapability, VcArbitrationSelect, VcResourceCapability, VcResourceControl, VcResourceStatus};

#[test]
fn multifunction_virtual_channel_parse() {
    let data = [
        /* 00h */ 0x08, 0x00, 0x01, 0x00,             // Capability header
        /* 04h */ 0b0_000_0_001, 0b1_00, 0x00, 0x00,  // Port VC Capability Register 1
        /* 08h */ 0b1111, 0x00, 0x00, 0x00,           // Port VC Capability Register 2
        /* 0Ch */ 0b0010, 0x00,                       // Port VC Control Register
                  0x00, 0x00,                         // Port VC Status Register
        /* 10h */ 0b111, 0x00, 0x00, 0x00,            // VC Resource Capability Register (0)
        /* 14h */ 0xff, 0x00, 0x04, 0x80,             // VC Resource Control Register (0)
        /* 18h */ 0x00, 0x00,                         // RsvdP
                  0b10, 0x00,                         // VC Resource Status Register (0)
    ];

    let result: MultifunctionVirtualChannel = data.as_slice().try_into().unwrap();

    let mut evcs_sample_data = [0u8; 0x1C];
    evcs_sample_data[..0x10].clone_from_slice(&data[..0x10]);
    evcs_sample_data[0x10..].clone_from_slice({
        let evc = ExtendedVirtualChannel {
            vc_resource_capability: VcResourceCapability {
                function_arbitration_capability: FunctionArbitrationCapability {
                    hardware_fixed_arbitration: true,
                    wrr_32_phases: true,
                    wrr_64_phases: true,
                    wrr_128_phases: false,
                    time_based_wrr_128_phases: false,
                    wrr_256_phases: false,
                    reserved: 0,
                },
                maximum_time_slots: 0,
                function_arbitration_table_offset: 0,
            },
            vc_resource_control: VcResourceControl {
                tc_to_vc_map: 0xff,
                load_function_arbitration_table: false,
                function_arbitration_select: FunctionArbitrationSelect::Wrr64phases,
                vc_id: 0,
                vc_enable: true,
            },
            vc_resource_status: VcResourceStatus {
                function_arbitration_table_status: false,
                vc_negotiation_pending: true,
            },
            function_arbitration_table: None,
        };
        Into::<[u8; ExtendedVirtualChannel::SIZE]>::into(evc).as_slice()
    });

    let sample = MultifunctionVirtualChannel {
        port_vc_capability_1: PortVcCapability1 {
            extended_vc_count: 1,
            low_priority_extended_vc_count: 0,
            reference_clock: ReferenceClock::Rc100ns,
            function_arbitration_table_entry_size: FunctionArbitrationTableEntrySize(0b01),
        },
        port_vc_capability_2: PortVcCapability2 {
            vc_arbitration_capability: VcArbitrationCapability {
                hardware_fixed_arbitration: true,
                wrr_32_phases: true,
                wrr_64_phases: true,
                wrr_128_phases: true,
                reserved: 0,
            },
            vc_arbitration_table_offset: 0,
        },
        port_vc_control: PortVcControl {
            load_vc_arbitration_table: false,
            vc_arbitration_select: VcArbitrationSelect::Wrr32phases,
        },
        port_vc_status: PortVcStatus {
            vc_arbitration_table_status: false,
        },
        vc_arbitration_table: None,
        extended_virtual_channels: ExtendedVirtualChannels::new(evcs_sample_data.as_slice(), 1, 2),
    };

    assert_eq!(sample, result);
}
