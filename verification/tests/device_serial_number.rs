use pcics::extended_capabilities::device_serial_number::DeviceSerialNumber;

#[test]
fn device_serial_number_parse() {
    let data = [
        0x03, 0x00, 0x00, 0x00, 0x11, 0x22, 0x33, 0x44, 0x55, 0x66, 0x77, 0x88,
    ];
    let result: DeviceSerialNumber = data[4..].try_into().unwrap();
    let sample = DeviceSerialNumber {
       lower_dword: 0x44332211,
       upper_dword: 0x88776655,
    };
    assert_eq!(sample, result);
}
