use pcics::extended_capabilities::root_complex_event_collector_endpoint_association::RootComplexEventCollectorEndpointAssociation;

#[test]
fn root_complex_event_collector_parse() {
    let data = [
        0x07, 0x00, 0x00, 0x00, // Extended Capability Header
        0x44, 0x33, 0x22, 0x11, // Association Bitmap for RCiEPs
    ];
    let result: RootComplexEventCollectorEndpointAssociation = data[4..].try_into().unwrap();
    let sample = RootComplexEventCollectorEndpointAssociation {
        association_bitmap_for_rcieps: 0x11223344
    };
    assert_eq!(sample, result);
}
