use pcics::extended_capabilities::address_translation_services::{AddressTranslationServices, AtsCapability, AtsControl};

#[test]
fn address_translation_services_parse() {
    let data = [
        0x0f, 0x00, 0x00, 0x00, 0x24, 0x00, 0x02, 0x00,
    ];
    let result: AddressTranslationServices = data[4..].try_into().unwrap();
    let sample = AddressTranslationServices {
        ats_capability: AtsCapability {
            invalidate_queue_depth: 4,
            page_aligned_request: true,
            global_invalidate_supported: false,
        },
        ats_control: AtsControl {
            smallest_translation_unit: 2,
            enable: false,
        }
    };
    assert_eq!(sample, result);
}
