use pcics::capabilities::advanced_features::{
    AdvancedFeatures, Capabilities as AfCapabilities, Control as AfControl, Status as AfStatus,
};
use pcics::capabilities::sata::{BarLocation, BarOffset, Revision, Sata};
use pcics::capabilities::slot_identification::{ExpansionSlot, SlotIdentification};
use pcics::capabilities::{
    BridgeSubsystemVendorId, CapabilityDataError, DebugPort, VitalProductData,
};

#[test]
fn advanced_features_parse() {
    let data = [0x13, 0x00, 0x06, 0x03, 0x00, 0x00];
    let result: AdvancedFeatures = data[2..].try_into().unwrap();
    let sample = AdvancedFeatures {
        length: 6,
        capabilities: AfCapabilities {
            transactions_pending: true,
            function_level_reset: true,
        },
        control: AfControl { initiate_flr: false },
        status: AfStatus {
            transactions_pending: false,
        },
    };
    assert_eq!(sample, result);
}

#[test]
fn advanced_features_too_short() {
    let data = [0x06, 0x03, 0x00];
    let result: Result<AdvancedFeatures, _> = data[..].try_into();
    assert!(result.is_err());
}

#[test]
fn slot_identification_parse() {
    let data = [0x04, 0x00, 0x22, 0x02];
    let result: SlotIdentification = data[2..].try_into().unwrap();
    let sample = SlotIdentification {
        expansion_slot: ExpansionSlot {
            expansion_slots_provided: 2,
            first_in_chassis: true,
        },
        chassis_number: 2,
    };
    assert_eq!(sample, result);
}

#[test]
fn vital_product_data_parse() {
    let data = [0x03, 0x58, 0x8c, 0x81, 0x00, 0x00, 0x00, 0x78];
    let result: VitalProductData = data[2..].try_into().unwrap();
    let sample = VitalProductData {
        vpd_address: 0x018c,
        transfer_completed: true,
        vpd_data: 0x78000000,
    };
    assert_eq!(sample, result);
}

#[test]
fn bridge_subsystem_vendor_id_parse() {
    let data = [0x00, 0x00, 0x11, 0x22, 0x33, 0x44];
    let result: BridgeSubsystemVendorId = data.into();
    let sample = BridgeSubsystemVendorId {
        reserved: 0x0000,
        subsystem_vendor_id: 0x2211,
        subsystem_id: 0x4433,
    };
    assert_eq!(sample, result);
    let from_slice: BridgeSubsystemVendorId = data[..].try_into().unwrap();
    assert_eq!(sample, from_slice);
}

#[test]
fn sata_parse() {
    let data = [0x12, 0x00, 0x10, 0x00, 0x48, 0x00, 0x00, 0x00];
    let result: Sata = data[2..].try_into().unwrap();
    let sample = Sata {
        revision: Revision { minor: 0, major: 1 },
        bar_offset: BarOffset(0x04),
        bar_location: BarLocation::Bar4,
    };
    assert_eq!(sample, result);
    assert_eq!(0x10, result.bar_offset.value());
}

#[test]
fn debug_port_parse() {
    let data = [0x0a, 0x98, 0xa0, 0x20];
    let dp: DebugPort = data[2..].try_into().unwrap();
    assert_eq!(
        DebugPort {
            offset: 0x00a0,
            bar_number: 1
        },
        dp
    );
}

#[test]
fn debug_port_too_short() {
    let data = [0xa0];
    let result: Result<DebugPort, CapabilityDataError> = data[..].try_into();
    assert!(result.is_err());
}
