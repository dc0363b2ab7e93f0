use pcics::extended_capabilities::root_complex_link_declaration::{ElementSelfDescription, ElementType, LinkAddress, LinkDescription, LinkEntries, LinkEntriesState, LinkEntry, RootComplexLinkDeclaration};

#[test]
fn link_description() {
    let result: LinkDescription = 0b10101010_10101010_0000000000000_1_0_1u32.into();
    let sample = LinkDescription {
        link_valid: true,
        link_type: 0,
        associate_rcrb_header: true,
        target_component_id: 0xAA,
        target_port_number: 0xAA,
    };
    assert_eq!(sample, result);
}

#[test]
fn link_address_memory_mapped_space() {
    let data = [0b1111_1111_1111_1111_1111_0000_0000_0000u32, 0x33221100];
    let result = LinkAddress::new(0, data[0], data[1]);
    let sample = LinkAddress::MemoryMappedSpace(0x33221100FFFFF000);
    assert_eq!(sample, result);
}

#[test]
fn link_address_configuration_space() {
    //           address    bus  dev   fn  reserved  N
    let data = [0b11111111_0101_01010_101_000000000_100u32, 0x33221100];
    let result = LinkAddress::new(1, data[0], data[1]);
    let sample = LinkAddress::ConfigurationSpace {
        n: 4,
        reserved: 0,
        function: 0b101,
        device: 0b01010,
        bus: 0b0101,
        address: 0x33221100FF000000,
    };
    assert_eq!(sample, result);
}

#[test]
fn link_address_into() {
    let data = [
        [0x00, 0x00],
        [0xaa, 0xaa],
        [0x55, 0x55],
        [0x0f, 0x0f],
        [0xf0, 0xf0],
        [0xff, 0xff],
    ];
    for sample in data {
        let la = LinkAddress::new(1, sample[0], sample[1]);
        let result: [u32; 2] = la.clone().into();
        assert_eq!(sample, result, "{:04x?}", (sample, la));
    }
}

#[test]
fn link_entries() {
    // Link0:  Desc:   TargetPort=00 TargetComponent=01 AssocRCRB- LinkType=MemMapped LinkValid+
    //         Addr:   00000000fed19000
    let data = [
        0x01, 0x00, 0x01, 0x00, // Link entry 1 description
        0x00, 0x00, 0x00, 0x00, // Link entry 1 reserved
        0x00, 0x90, 0xd1, 0xfe, 0x00, 0x00, 0x00, 0x00, // Link entry 1 address
    ];
    let mut le = LinkEntries::new(data.as_slice(), 1);

    assert_eq!(LinkEntriesState::Valid, le.state, "State");

    let result = le.entries();

    let sample = vec![LinkEntry {
        link_description: LinkDescription {
            link_valid: true,
            link_type: 0,
            associate_rcrb_header: false,
            target_component_id: 0x01,
            target_port_number: 0x00,
        },
        link_address: LinkAddress::MemoryMappedSpace(0x00000000fed19000),
    }];
    assert_eq!(sample, result, "Entry");
}

#[test]
fn root_complex_link_declaration_parse_full_struct() {
    // Desc:   PortNumber=02 ComponentID=01 EltType=Config
    // Link0:  Desc:   TargetPort=00 TargetComponent=01 AssocRCRB- LinkType=MemMapped LinkValid+
    //         Addr:   00000000fed19000
    let data = [
        0x05, 0x00, 0x01,
        0x1c, // Root Complex Link Declaration Extended Capability Header
        0x00, 0x01, 0x01, 0x02, // Element self description
        0x00, 0x00, 0x00, 0x00, 0x00, 0x00, 0x00, 0x00, // reserved
        0x01, 0x00, 0x01, 0x00, // Link entry 1 description
        0x00, 0x00, 0x00, 0x00, // Link entry 1 reserved
        0x00, 0x90, 0xd1, 0xfe, 0x00, 0x00, 0x00, 0x00, // Link entry 1 address
    ];
    let result: RootComplexLinkDeclaration = data[4..].try_into().unwrap();

    let sample = RootComplexLinkDeclaration {
        element_self_description: ElementSelfDescription {
            element_type: ElementType::ConfigurationSpaceElement,
            reserved: 0,
            number_of_link_entries: 1,
            component_id: 0x01,
            port_number: 0x02,
        },
        link_entries: LinkEntries::new(&data[0x10..], 1),
    };
    assert_eq!(sample, result);
}
