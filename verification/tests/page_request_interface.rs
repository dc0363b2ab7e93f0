use pcics::extended_capabilities::page_request_interface::{PageRequestControl, PageRequestInterface, PageRequestStatus};

#[test]
fn page_request_interface_parse() {
    let data = [
        0x13, 0x00, 0x00, 0x00, 0x01, 0x01, 0x01, 0x01,
        0x01, 0x01, 0x01, 0x01, 0x01, 0x01, 0x01, 0x01
    ];
    let result: PageRequestInterface = data[4..].try_into().unwrap();
    let sample = PageRequestInterface {
        page_request_control: PageRequestControl {
            enable: true,
            reset: false
        },
        page_request_status: PageRequestStatus {
            response_failure: true,
            unexpected_page_request_group_index: false,
            stopped: true,
            prg_response_pasid_required: false,
        },
        outstanding_page_request_capacity: 0x01010101,
        outstanding_page_request_allocation: 0x01010101,
    };
    assert_eq!(sample, result);
}
