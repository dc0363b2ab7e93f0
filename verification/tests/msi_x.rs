use pcics::capabilities::msi_x::{Bir, MessageControl, MsiX, PendingBitArray, Table};
use pcics::capabilities::CapabilityDataError;

// MSI-X: Enable+ Count=64 Masked-
//        Vector table: BAR=0 offset=00002000
//        PBA: BAR=0 offset=00003000
#[test]
fn msi_x_parse() {
    let data = [
        0x11, 0x60, // Header
        0x3f, 0x80, // Message Control
        0x00, 0x20, 0x00, 0x00, // Table Offset/Table BIR
        0x00, 0x30, 0x00, 0x00, // PBA Offset/PBA BIR
    ];
    let result: MsiX = data[2..].try_into().unwrap();
    let sample = MsiX {
        message_control: MessageControl {
            table_size: 63,
            function_mask: false,
            msi_x_enable: true,
        },
        table: Table {
            bir: Bir::Bar10h,
            offset: 0x2000,
        },
        pending_bit_array: PendingBitArray {
            bir: Bir::Bar10h,
            offset: 0x3000,
        },
    };
    assert_eq!(sample, result);
}

#[test]
fn msi_x_bir_and_offset() {
    let result = Table::from(0x1234_5675);
    assert_eq!(Bir::Bar24h, result.bir);
    assert_eq!(0x1234_5670, result.offset);
    assert_eq!(Bir::Reserved(7), PendingBitArray::from(0xffff_ffff).bir);
    assert_eq!(0xffff_fff8, PendingBitArray::from(0xffff_ffff).offset);
}

#[test]
fn msi_x_too_short() {
    let data = [0u8; 9];
    let result: Result<MsiX, CapabilityDataError> = data[..].try_into();
    assert!(result.is_err());
}
