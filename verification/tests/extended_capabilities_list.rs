use pcics::extended_capabilities::latency_tolerance_reporting::MaxLatency;
use pcics::extended_capabilities::{ConfigurationAccessCorrelation, LatencyToleranceReporting};
use pcics::extended_capabilities::advanced_error_reporting::AdvancedErrorReportingError;
use pcics::extended_capabilities::downstream_port_containment::DownstreamPortContainmentError;
use pcics::extended_capabilities::dynamic_power_allocation::DynamicPowerAllocationError;
use pcics::extended_capabilities::multifunction_virtual_channel::MultifunctionVirtualChannelError;
use pcics::extended_capabilities::root_complex_link_declaration::RootComplexLinkDeclarationError;
use pcics::extended_capabilities::vf_resizable_bar::{
    ResizableBarCapability, ResizableBarControl, ResizableBarEntry, ResizableBarError,
};
use pcics::extended_capabilities::{
    DeviceSerialNumber, ExtendedCapabilities, ExtendedCapability, ExtendedCapabilityDataError,
    ExtendedCapabilityError, ExtendedCapabilityHeader, ExtendedCapabilityKind,
    MultiRootIoVirtualization, ECH_BYTES,
};

fn header(id: u16, version: u8, next: u16) -> [u8; 4] {
    ((id as u32) | (version as u32) << 16 | (next as u32) << 20).to_le_bytes()
}

fn collect(mut ecaps: ExtendedCapabilities) -> Vec<Result<ExtendedCapability, ExtendedCapabilityError>> {
    let mut result = Vec::new();
    // A list that loops would not end: no test here has one
    while let Some(c) = ecaps.next() {
        result.push(c);
    }
    result
}

#[test]
fn extended_capabilities_device_serial_number() {
    let data = [
        0x03, 0x00, 0x01, 0x00, 0xfe, 0x85, 0x54, 0x45, 0x00, 0x50, 0x56, 0xff, 0x00, 0x00, 0x00,
        0x00,
    ];
    let result = collect(ExtendedCapabilities::new(&data));
    let sample = vec![Ok(ExtendedCapability {
        version: 1,
        offset: 0x100,
        kind: ExtendedCapabilityKind::DeviceSerialNumber(DeviceSerialNumber {
            lower_dword: 0x455485fe,
            upper_dword: 0xff565000,
        }),
    })];
    assert_eq!(sample, result);
}

#[test]
fn extended_capabilities_list_ids_offsets_versions() {
    let mut ecs = vec![0u8; 0x100];
    ecs[0x00..0x04].copy_from_slice(&header(0x000b, 0, 0x110));
    ecs[0x04..0x08].copy_from_slice(&(0x0002u32 | 0x00c << 20).to_le_bytes());
    ecs[0x10..0x14].copy_from_slice(&header(0x000d, 1, 0x148));
    ecs[0x48..0x4c].copy_from_slice(&header(0x0001, 2, 0x000));
    let result = collect(ExtendedCapabilities::new(&ecs))
        .into_iter()
        .map(|ecap| ecap.map(|ecap| (ecap.offset, ecap.id(), ecap.version)))
        .collect::<Vec<_>>();
    let sample = vec![Ok((0x100, 0x000b, 0)), Ok((0x110, 0x000d, 1)), Ok((0x148, 0x0001, 2))];
    assert_eq!(sample, result);
}

#[test]
fn extended_capabilities_empty_header_ends_the_list() {
    let ecs = [0u8; 0x40];
    let mut ecaps = ExtendedCapabilities::new(&ecs);
    assert!(ecaps.next().is_none());
    assert!(ecaps.next().is_none());
}

#[test]
fn extended_capabilities_offset_below_extended_space() {
    let mut ecs = [0u8; 0x10];
    ecs[..4].copy_from_slice(&header(0x0011, 1, 0x0f0));
    let mut ecaps = ExtendedCapabilities::new(&ecs);
    assert_eq!(
        Some(Ok(ExtendedCapability {
            kind: ExtendedCapabilityKind::MultiRootIoVirtualization(MultiRootIoVirtualization),
            version: 1,
            offset: 0x100,
        })),
        ecaps.next()
    );
    assert_eq!(Some(Err(ExtendedCapabilityError::Offset)), ecaps.next());
    assert!(ecaps.next().is_none());
}

#[test]
fn extended_capabilities_header_beyond_data() {
    let mut ecs = [0u8; 0x10];
    ecs[..4].copy_from_slice(&header(0x0040, 3, 0x200));
    let mut ecaps = ExtendedCapabilities::new(&ecs);
    let first = ecaps.next().unwrap().unwrap();
    assert_eq!(ExtendedCapabilityKind::Reserved(0x40), first.kind);
    assert_eq!(0x40, first.id());
    assert_eq!(Some(Err(ExtendedCapabilityError::Header { offset: 0x200 })), ecaps.next());
    assert!(ecaps.next().is_none());
}

fn first_error(id: u16, len: usize) -> ExtendedCapabilityError {
    let mut ecs = vec![0u8; len];
    ecs[..4].copy_from_slice(&header(id, 1, 0));
    ExtendedCapabilities::new(&ecs).next().unwrap().unwrap_err()
}

#[test]
fn extended_capabilities_errors_of_each_kind() {
    assert_eq!(
        ExtendedCapabilityError::Data {
            offset: 0x100,
            source: ExtendedCapabilityDataError { name: "Device Serial Number", size: 8 },
        },
        first_error(0x0003, 8)
    );
    assert_eq!(
        ExtendedCapabilityError::AdvancedErrorReporting {
            offset: 0x100,
            source: AdvancedErrorReportingError::Common,
        },
        first_error(0x0001, 20)
    );
    assert_eq!(
        ExtendedCapabilityError::DownstreamPortContainment {
            offset: 0x100,
            source: DownstreamPortContainmentError::Mandatory,
        },
        first_error(0x001d, 8)
    );
    assert_eq!(
        ExtendedCapabilityError::RootComplexLinkDeclaration {
            offset: 0x100,
            source: RootComplexLinkDeclarationError::ElementSelfDescription,
        },
        first_error(0x0005, 6)
    );
    assert_eq!(
        ExtendedCapabilityError::MultifunctionVirtualChannel {
            offset: 0x100,
            source: MultifunctionVirtualChannelError::PortVcData,
        },
        first_error(0x0008, 12)
    );
    assert_eq!(
        ExtendedCapabilityError::ResizableBar {
            offset: 0x100,
            source: ResizableBarError::FirstEntry,
        },
        first_error(0x0015, 8)
    );
    assert_eq!(
        ExtendedCapabilityError::DynamicPowerAllocation {
            offset: 0x100,
            source: DynamicPowerAllocationError::Mandatory,
        },
        first_error(0x0016, 12)
    );
}

#[test]
fn extended_capability_header_fields() {
    let h = ExtendedCapabilityHeader::from(0x1481000du32);
    assert_eq!(
        ExtendedCapabilityHeader {
            extended_capability_id: 0x000d,
            capability_version: 1,
            next_capability_offset: 0x148,
        },
        h
    );
    assert_eq!(4, ExtendedCapabilityHeader::SIZE);
    assert_eq!(4, ECH_BYTES);
    assert_eq!(4, ExtendedCapability::HEADER_SIZE);
}

#[test]
fn extended_capabilities_chain_of_two_kinds() {
    let mut ecs = [0u8; 0x20];
    ecs[0x00..0x04].copy_from_slice(&header(0x000c, 1, 0x110));
    ecs[0x04..0x08].copy_from_slice(&[0x00, 0x11, 0x22, 0x33]);
    ecs[0x10..0x14].copy_from_slice(&header(0x0018, 1, 0x000));
    ecs[0x14..0x18].copy_from_slice(&[0x46, 0x08, 0x46, 0x08]);
    let result = collect(ExtendedCapabilities::new(&ecs));
    let sample = vec![
        Ok(ExtendedCapability {
            version: 1,
            offset: 0x100,
            kind: ExtendedCapabilityKind::ConfigurationAccessCorrelation(
                ConfigurationAccessCorrelation {
                    device_correlation: 0x33221100,
                },
            ),
        }),
        Ok(ExtendedCapability {
            version: 1,
            offset: 0x110,
            kind: ExtendedCapabilityKind::LatencyToleranceReporting(LatencyToleranceReporting {
                max_snoop_latency: MaxLatency { value: 70, scale: 2 },
                max_no_snoop_latency: MaxLatency { value: 70, scale: 2 },
            }),
        }),
    ];
    assert_eq!(sample, result);
}

#[test]
fn extended_capabilities_resizable_bar_after_another_capability() {
    let ecs = [
        0x11, 0x00, 0x81, 0x10, 0x00, 0x00, 0x00, 0x00, // MR-IOV at 100h, next at 108h
        0x15, 0x00, 0x01, 0x00, // Resizable BAR at 108h
        0x00, 0x00, 0x10, 0x00, // Resizable BAR Capability (0)
        0x20, 0x00, 0x00, 0x00, // Resizable BAR Control (0): one BAR
    ];
    let result = collect(ExtendedCapabilities::new(&ecs));
    assert_eq!(2, result.len());
    let rebar = match &result[1] {
        Ok(ExtendedCapability {
            kind: ExtendedCapabilityKind::ResizableBar(rebar),
            version: 1,
            offset: 0x108,
        }) => rebar.clone(),
        other => panic!("{:?}", other),
    };
    let entries = rebar.clone().entries();
    assert_eq!(
        vec![ResizableBarEntry {
            capability: ResizableBarCapability {
                support_map_from_1mb_to_128tb: 0x0010_0000,
            },
            control: ResizableBarControl {
                bar_index: 0,
                number_of_resizable_bars: 1,
                bar_size: 0,
                support_map_from_256tb_to_8eb: 0,
            },
        }],
        entries
    );
}
