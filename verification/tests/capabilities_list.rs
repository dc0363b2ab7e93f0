use pcics::capabilities::message_signaled_interrups::{
    MessageAddress, MessageControl, MultipleMessage,
};
use pcics::capabilities::power_management_interface::{
    AuxCurrent, Bridge, Capabilities as PmCapabilities, Control, PmeSupport, PowerState,
};
use pcics::capabilities::sata::{BarLocation, BarOffset, Revision};
use pcics::capabilities::{
    is_invalid_capability, Agp8x, Capabilities, Capability, CapabilityDataError, CapabilityError, CapabilityKind,
    MessageSignaledInterrups, PowerManagementInterface, Sata,
};

const DEVICE_DEPENDENT_REGION: [u8; 0xc0] = [
    // 0    1    2    3    4    5    6    7    8    9    A    B    C    D    E    F
    0x00, 0x80, 0x00, 0x80, 0x00, 0x00, 0x00, 0x00, 0x00, 0x00, 0x00, 0x00, 0x00, 0x00, 0x00, 0x00, // 0x40
    0x00, 0x00, 0x00, 0x00, 0x00, 0x00, 0x00, 0x00, 0x00, 0x00, 0x00, 0x00, 0x00, 0x00, 0x00, 0x00, // 0x50
    0x00, 0x00, 0x00, 0x00, 0x00, 0x00, 0x00, 0x00, 0x00, 0x00, 0x00, 0x00, 0x00, 0x00, 0x00, 0x00, // 0x60
    0x01, 0xa8, 0x03, 0x40, 0x08, 0x00, 0x00, 0x00, 0x00, 0x00, 0x00, 0x00, 0x00, 0x00, 0x00, 0x00, // 0x70
    0x05, 0x70, 0x01, 0x00, 0x58, 0x03, 0xe0, 0xfe, 0x00, 0x00, 0x00, 0x00, 0x00, 0x00, 0x00, 0x00, // 0x80
    0x60, 0x1c, 0x23, 0x83, 0x83, 0x01, 0x00, 0x1c, 0x20, 0x02, 0x1c, 0x20, 0x20, 0x00, 0x00, 0x80, // 0x90
    0xa8, 0x00, 0x00, 0x00, 0x00, 0x00, 0x00, 0x00, 0x12, 0x00, 0x10, 0x00, 0x48, 0x00, 0x00, 0x00, // 0xa0
    0x00, 0x00, 0x00, 0x00, 0x00, 0x00, 0x00, 0x00, 0x00, 0x00, 0x00, 0x00, 0x00, 0x00, 0x00, 0x00, // 0xb0
    0x00, 0x00, 0x00, 0x00, 0x00, 0x00, 0x00, 0x00, 0x00, 0x00, 0x00, 0x00, 0x00, 0x00, 0x00, 0x00, // 0xc0
    0x00, 0x00, 0x00, 0x00, 0x00, 0x00, 0x00, 0x00, 0x00, 0x00, 0x00, 0x00, 0x00, 0x00, 0x00, 0x00, // 0xd0
    0x00, 0x00, 0x00, 0x00, 0x00, 0x00, 0x00, 0x00, 0x00, 0x00, 0x00, 0x00, 0x00, 0x00, 0x00, 0x00, // 0xe0
    0x00, 0x00, 0x00, 0x00, 0x00, 0x00, 0x00, 0x00, 0xb1, 0x0f, 0x06, 0x08, 0x00, 0x00, 0x00, 0x00, // 0xf0
];

fn collect(mut caps: Capabilities) -> Vec<Result<Capability, CapabilityError>> {
    let mut result = Vec::new();
    while let Some(c) = caps.next() {
        result.push(c);
    }
    result
}

#[test]
fn capabilities_list_of_msi_power_management_and_sata() {
    let result = collect(Capabilities::new(&DEVICE_DEPENDENT_REGION, 0x80));
    let sample = vec![
        Ok(Capability {
            pointer: 0x80,
            kind: CapabilityKind::MessageSignaledInterrups(MessageSignaledInterrups {
                message_control: MessageControl {
                    msi_enable: true,
                    multiple_message_capable: MultipleMessage(0),
                    multiple_message_enable: MultipleMessage(0),
                    per_vector_masking_capable: false,
                    a_64_bit_address_capable: false,
                    extended_message_data_capable: false,
                    extended_message_data_enable: false,
                },
                message_address: MessageAddress::Dword(0xfee00358),
                message_data: 0x0000,
                mask_bits: None,
                pending_bits: None,
                extended_message_data: 0,
            }),
        }),
        Ok(Capability {
            pointer: 0x70,
            kind: CapabilityKind::PowerManagementInterface(PowerManagementInterface {
                capabilities: PmCapabilities {
                    version: 0b11,
                    pme_clock: false,
                    reserved: false,
                    device_specific_initialization: false,
                    aux_current: AuxCurrent::SelfPowered,
                    d1_support: false,
                    d2_support: false,
                    pme_support: PmeSupport {
                        d0: false,
                        d1: false,
                        d2: false,
                        d3_hot: true,
                        d3_cold: false,
                    },
                },
                control: Control {
                    power_state: PowerState::D0,
                    reserved: 0b000010,
                    no_soft_reset: true,
                    pme_enabled: false,
                    pme_status: false,
                },
                bridge: Bridge { reserved: 0, b2_b3: false, bpcc_enabled: false },
                data: None,
            }),
        }),
        Ok(Capability {
            pointer: 0xa8,
            kind: CapabilityKind::Sata(Sata {
                revision: Revision { major: 1, minor: 0 },
                bar_offset: BarOffset(0x00000004),
                bar_location: BarLocation::Bar4,
            }),
        }),
    ];
    assert_eq!(sample, result);
}

#[test]
fn capabilities_null_pointer_ends_the_list() {
    let mut caps = Capabilities::new(&DEVICE_DEPENDENT_REGION, 0);
    assert!(caps.next().is_none());
    assert!(caps.next().is_none());
}

#[test]
fn capabilities_pointer_below_device_dependent_region() {
    let mut caps = Capabilities::new(&DEVICE_DEPENDENT_REGION, 0x3f);
    assert_eq!(Some(Err(CapabilityError::Pointer)), caps.next());
    assert!(caps.next().is_none());
}

#[test]
fn capabilities_header_beyond_region() {
    let region = [0u8; 0x10];
    let mut caps = Capabilities::new(&region, 0x4f);
    assert_eq!(Some(Err(CapabilityError::Header { ptr: 0x4f })), caps.next());
    assert_eq!(None, caps.next());
    let mut caps = Capabilities::new(&[0x05], 0x40);
    assert_eq!(Some(Err(CapabilityError::Header { ptr: 0x40 })), caps.next());
    assert_eq!(None, caps.next());
}

#[test]
fn capabilities_data_error_and_reserved() {
    // A Sata capability at 40h whose data is cut short, then a reserved ID at 44h
    let region = [0x12, 0x44, 0x10, 0x00, 0x7f, 0x00];
    let mut caps = Capabilities::new(&region[..4], 0x40);
    assert_eq!(
        Some(Err(CapabilityError::Data {
            ptr: 0x40,
            source: CapabilityDataError { name: "Serial ATA", size: 6 },
        })),
        caps.next()
    );
    let mut caps = Capabilities::new(&region, 0x44);
    assert_eq!(
        Some(Ok(Capability { pointer: 0x44, kind: CapabilityKind::Reserved(0x7f) })),
        caps.next()
    );
    assert!(caps.next().is_none());
}

#[test]
fn capabilities_agp_8x() {
    let mut ddr = [0u8; 0x10];
    ddr[0] = 0x0e;
    let result = collect(Capabilities::new(&ddr, 0x40));
    assert_eq!(
        vec![Ok(Capability {
            pointer: 0x40,
            kind: CapabilityKind::Agp8x(Agp8x),
        })],
        result
    );
}

#[test]
fn capabilities_invalid_power_management_data_select() {
    let mut ddr = [0u8; 0x10];
    // Power Management Interface whose Data Select is 1111b while the Data register is nonzero
    ddr[..8].copy_from_slice(&[0x01, 0x00, 0x03, 0x00, 0x00, 0x1e, 0x00, 0x01]);
    assert!(is_invalid_capability(&ddr, 0x40));
    ddr[7] = 0x00;
    assert!(!is_invalid_capability(&ddr, 0x40));
    ddr[7] = 0x01;
    ddr[5] = 0x12;
    assert!(!is_invalid_capability(&ddr, 0x40));
    assert!(!is_invalid_capability(&ddr, 0x00));
    assert!(!is_invalid_capability(&ddr, 0x80));
}
