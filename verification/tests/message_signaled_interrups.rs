use pcics::capabilities::message_signaled_interrups::{MessageAddress, MessageControl, MessageSignaledInterrups, MultipleMessage};

/// The first bytes of the 4 KiB of random data that the capability is read from; the rest,
/// which the capability does not reach, is zero.
fn random_4k() -> [u8; 4096] {
    let mut data = [0u8; 4096];
    let head = [
        0x00, 0x00, 0x00, 0x00, 0xdc, 0xe4, 0xf8, 0x95, 0x86, 0xcb, 0x87, 0x1a, 0xb6, 0x5e, 0x73,
        0x32, 0xd5, 0x26, 0xe2, 0x6a, 0xd8, 0xee, 0xff, 0x5f,
    ];
    data[..head.len()].copy_from_slice(&head);
    data
}
#[test]
fn message_address_32bit() {
    let mut data = random_4k();
    let control = 0b0_0000_0000u16.to_le_bytes();
    data[2] = control[0];
    data[3] = control[1];
    let result: MessageSignaledInterrups = data[2..].try_into().unwrap();
    let sample = MessageSignaledInterrups {
        message_control: MessageControl {
            msi_enable: false,
            multiple_message_capable: MultipleMessage(0),
            multiple_message_enable: MultipleMessage(0),
            per_vector_masking_capable: false,
            a_64_bit_address_capable: false,
            extended_message_data_capable: false,
            extended_message_data_enable: false,
        },
        message_address: MessageAddress::Dword(0x95f8e4dc),
        message_data: 0xcb86,
        mask_bits: None,
        pending_bits: None,
        extended_message_data: 0x1a87,
    };
    assert_eq!(sample, result);
}

#[test]
fn message_address_64bit() {
    let mut data = random_4k();
    let control = 0b0_1000_0000u16.to_le_bytes();
    data[2] = control[0];
    data[3] = control[1];
    let result: MessageSignaledInterrups = data[2..].try_into().unwrap();
    let sample = MessageSignaledInterrups {
        message_control: MessageControl {
            msi_enable: false,
            multiple_message_capable: MultipleMessage(0),
            multiple_message_enable: MultipleMessage(0),
            per_vector_masking_capable: false,
            a_64_bit_address_capable: true,
            extended_message_data_capable: false,
            extended_message_data_enable: false,
        },
        message_address: MessageAddress::Qword(0x1A87CB8695F8E4DC),
        message_data: 0x5eb6,
        mask_bits: None,
        pending_bits: None,
        extended_message_data: 0x3273,
    };
    assert_eq!(sample, result);
}

#[test]
fn message_address_32bit_per_vector_masking() {
    let mut data = random_4k();
    let control = 0b1_0000_0000u16.to_le_bytes();
    data[2] = control[0];
    data[3] = control[1];
    let result: MessageSignaledInterrups = data[2..].try_into().unwrap();
    let sample = MessageSignaledInterrups {
        message_control: MessageControl {
            msi_enable: false,
            multiple_message_capable: MultipleMessage(0),
            multiple_message_enable: MultipleMessage(0),
            per_vector_masking_capable: true,
            a_64_bit_address_capable: false,
            extended_message_data_capable: false,
            extended_message_data_enable: false,
        },
        message_address: MessageAddress::Dword(0x95f8e4dc),
        message_data: 0xcb86,
        mask_bits: Some(0x32735EB6),
        pending_bits: Some(0x6AE226D5),
        extended_message_data: 0x1a87,
    };
    assert_eq!(sample, result);
}

#[test]
fn message_address_64bit_per_vector_masking() {
    let mut data = random_4k();
    let control = 0b1_1000_0000u16.to_le_bytes();
    data[2] = control[0];
    data[3] = control[1];
    let result: MessageSignaledInterrups = data[2..].try_into().unwrap();
    let sample = MessageSignaledInterrups {
        message_control: MessageControl {
            msi_enable: false,
            multiple_message_capable: MultipleMessage(0),
            multiple_message_enable: MultipleMessage(0),
            per_vector_masking_capable: true,
            a_64_bit_address_capable: true,
            extended_message_data_capable: false,
            extended_message_data_enable: false,
        },
        message_address: MessageAddress::Qword(0x1A87CB8695F8E4DC),
        message_data: 0x5eb6,
        extended_message_data: 0x3273,
        mask_bits: Some(0x6AE226D5),
        pending_bits: Some(0x5FFFEED8),
    };
    assert_eq!(sample, result);
}
