use pcics::extended_capabilities::process_address_space_id::{PacidCapability, PacidControl, ProcessAddressSpaceId};

#[test]
fn process_address_space_id_parse() {
    let data = [
        0x1b, 0x00, 0x00, 0x00, 0x02, 0x04, 0x03, 0x00,
    ];
    let result: ProcessAddressSpaceId = data[4..].try_into().unwrap();
    let sample = ProcessAddressSpaceId {
        pacid_capability: PacidCapability {
            execute_permission_supported: true,
            privileged_mode_supported: false,
            max_pasid_width: 0x04,
        },
        pacid_control: PacidControl {
            pasid_enable: true,
            execute_permission_enable: true,
            privileged_mode_enable: false,
        },
    };
    assert_eq!(sample, result);
}
