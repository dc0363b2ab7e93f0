use pcics::capabilities::bridge_subsystem_vendor_id::BridgeSubsystemVendorId;
use pcics::capabilities::{Capability, CapabilityKind};
use pcics::extended_capabilities::vendor_specific_extended_capability::VendorSpecificExtendedCapability;
use pcics::extended_capabilities::{ExtendedCapability, ExtendedCapabilityKind};
use pcics::{Capabilities, ExtendedCapabilities, DDR_OFFSET, ECS_OFFSET};

/// A configuration space with a Bridge Subsystem Vendor ID capability at 40h, behind a Debug
/// Port at 50h, and a Vendor-Specific extended capability at 110h, behind ACS at 100h.
fn conf_space_data() -> Vec<u8> {
    let mut data = vec![0u8; 0x1000];
    data[0x34] = 0x50;
    data[0x50..0x54].copy_from_slice(&[0x0a, 0x40, 0xa0, 0x20]);
    data[0x40..0x48].copy_from_slice(&[0x0d, 0x00, 0x00, 0x00, 0x86, 0x80, 0x00, 0x00]);
    data[0x100..0x108].copy_from_slice(&[0x0d, 0x00, 0x01, 0x11, 0x00, 0x00, 0x00, 0x00]);
    data[0x110..0x11c].copy_from_slice(&[
        0x0b, 0x00, 0x01, 0x00, 0x02, 0x00, 0xc0, 0x00, 0x07, 0x30, 0x00, 0x00,
    ]);
    data
}

#[test]
fn configuration_space_usage() {
    let conf_space_data = conf_space_data();
    let pointer = conf_space_data[0x34];

    let mut caps = Capabilities::new(&conf_space_data[DDR_OFFSET..ECS_OFFSET], pointer);
    let mut ssvid = None;
    while let Some(cap) = caps.next() {
        if let Ok(Capability {
            kind: CapabilityKind::BridgeSubsystemVendorId(found),
            ..
        }) = cap
        {
            ssvid = Some(found);
            break;
        }
    }
    let BridgeSubsystemVendorId {
        subsystem_vendor_id,
        ..
    } = ssvid.unwrap();
    assert_eq!(0x8086, subsystem_vendor_id);

    let mut ecaps = ExtendedCapabilities::new(&conf_space_data[ECS_OFFSET..]);
    let mut vsec = None;
    while let Some(ecap) = ecaps.next() {
        if let Ok(ExtendedCapability {
            kind: ExtendedCapabilityKind::VendorSpecificExtendedCapability(found),
            ..
        }) = ecap
        {
            vsec = Some(found);
            break;
        }
    }
    let VendorSpecificExtendedCapability { header, .. } = vsec.unwrap();
    assert_eq!(0x0c, header.vsec_length);
}
