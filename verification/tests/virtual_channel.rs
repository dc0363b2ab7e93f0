use pcics::extended_capabilities::virtual_channel::{
    PortVcCapability1, PortVcCapability2, PortVcControl, PortVcStatus, ReferenceClock,
    VcArbitrationCapability, VcArbitrationSelect, VcArbitrationTable, VcArbitrationTableEntry,
    VirtualChannel,
};
use pcics::extended_capabilities::ExtendedCapabilityDataError;

#[test]
fn virtual_channel_parse() {
    let data = [
        /* 04h */ 0x01, 0x00, 0x00, 0x00, // Port VC Capability Register 1
        /* 08h */ 0x03, 0x00, 0x00, 0x03, // Port VC Capability Register 2
        /* 0Ch */ 0x03, 0x00, // Port VC Control Register
        /*     */ 0x01, 0x00, // Port VC Status Register
        /* 10h */ 0xaa, 0xbb,
    ];
    let result = VirtualChannel::try_from(data.as_slice()).unwrap();
    let sample = VirtualChannel {
        port_vc_capability_1: PortVcCapability1 {
            extended_vc_count: 1,
            low_priority_extended_vc_count: 0,
            reference_clock: ReferenceClock::Rc100ns,
            port_arbitration_table_entry_size: 0,
        },
        port_vc_capability_2: PortVcCapability2 {
            vc_arbitration_capability: VcArbitrationCapability {
                hardware_fixed_arbitration: true,
                wrr_32_phases: true,
                wrr_64_phases: false,
                wrr_128_phases: false,
                reserved: 0,
            },
            vc_arbitration_table_offset: 3,
        },
        port_vc_control: PortVcControl {
            load_vc_arbitration_table: true,
            vc_arbitration_select: VcArbitrationSelect::Wrr32phases,
        },
        port_vc_status: PortVcStatus {
            vc_arbitration_table_status: true,
        },
        data: &[0xaa, 0xbb],
    };
    assert_eq!(sample, result);
    assert_eq!(32, result.port_vc_control.vc_arbitration_select.vc_arbitration_table_length());
}

#[test]
fn virtual_channel_too_short() {
    let data = [0u8; 11];
    assert_eq!(
        Err(ExtendedCapabilityDataError {
            name: "Virtual Channel",
            size: 12
        }),
        VirtualChannel::try_from(data.as_slice())
    );
}

#[test]
fn vc_arbitration_table_entries() {
    let data = [0x21, 0x43, 0xf0];
    let table = VcArbitrationTable::new(&data);
    let sample = [1, 2, 3, 4, 0, 0xf].map(VcArbitrationTableEntry).to_vec();
    assert_eq!(sample, table.entries());
}
