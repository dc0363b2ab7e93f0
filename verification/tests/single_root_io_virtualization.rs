use pcics::extended_capabilities::single_root_io_virtualization::{BaseAddressesNormal, PageSizes, SingleRootIoVirtualization, SriovCapabilities, SriovControl, SriovStatus};

// IOVCap: Migration-, Interrupt Message Number: 000
// IOVCtl: Enable- Migration- Interrupt- MSE- ARIHierarchy-
// IOVSta: Migration-
// Initial VFs: 8, Total VFs: 8, Number of VFs: 0, Function Dependency Link: 00
// VF offset: 384, stride: 4, Device ID: 1520
// Supported Page Size: 00000553, System Page Size: 00000001
// Region 0: Memory at 00000000a0180000 (64-bit, prefetchable)
// Region 3: Memory at 00000000a01a0000 (64-bit, prefetchable)
const DATA: [u8; 60] = [
                        0x02,0x00,0x00,0x00,0x00,0x00,0x00,0x00,0x08,0x00,0x08,0x00,
    0x00,0x00,0x00,0x00,0x80,0x01,0x04,0x00,0x00,0x00,0x20,0x15,0x53,0x05,0x00,0x00,
    0x01,0x00,0x00,0x00,0x0c,0x00,0x18,0xa0,0x00,0x00,0x00,0x00,0x00,0x00,0x00,0x00,
    0x0c,0x00,0x1a,0xa0,0x00,0x00,0x00,0x00,0x00,0x00,0x00,0x00,0x00,0x00,0x00,0x00
];

#[test]
fn single_root_io_virtualization_parse_full_struct() {
    let result: SingleRootIoVirtualization = DATA.into();

    let sample = SingleRootIoVirtualization {
        sriov_capabilities: SriovCapabilities {
            vf_migration_capable: false,
            ari_capable_hierarchy_preserved: true,
            vf_10bit_tag_requester_supported: false,
            vf_migration_interrupt_message_number: 0,
        },
        sriov_control: SriovControl {
            vf_enable: false,
            vf_migration_enable: false,
            vf_migration_interrupt_enable: false,
            vf_mse: false,
            ari_capable_hierarchy: false,
            vf_10bit_tag_requester_enable: false,
        },
        sriov_status: SriovStatus {
            vf_migration_status: false
        },
        initial_vfs: 8,
        total_vfs: 8,
        num_vfs: 0,
        function_dependency_link: 0,
        first_vf_offset: 384,
        vf_stride: 4,
        vf_device_id: 0x1520,
        page_sizes: PageSizes {
            supported: 0x00000553,
            system: 0x00000001,
        },
        base_addresses: BaseAddressesNormal([0xa018000c, 0, 0, 0xa01a000c, 0, 0]),
        vf_migration_state_array_offset: 0,
    };
    
    assert_eq!(sample, result);
}
