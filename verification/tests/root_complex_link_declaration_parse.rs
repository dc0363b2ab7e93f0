use pcics::extended_capabilities::root_complex_link_declaration::{ElementSelfDescription, ElementType, LinkAddress, LinkDescription, LinkEntries, LinkEntry, RootComplexLinkDeclaration};

#[test]
fn root_complex_link_declaration_first_link_entry() {
    let data = [
        0x05, 0x00, 0x01, 0x1c, // Extended Capability Header
        0x00, 0x01, 0x01, 0x03, // Element Self Description
        0x00, 0x00, 0x00, 0x00, 0x00, 0x00, 0x00, 0x00, // Reserved
        0x01, 0x00, 0x01, 0x00, // Link Entry 1 Description
        0x00, 0x00, 0x00, 0x00, // Link Entry 1 Reserved
        0x00, 0x90, 0xd1, 0xfe, // Link Entry 1 Address First DWORD
        0x00, 0x00, 0x00, 0x00, // Link Entry 1 Address Second DWORD
    ];
    let mut rcld_result: RootComplexLinkDeclaration = data[4..].try_into().unwrap();
    let rcld_sample = RootComplexLinkDeclaration {
        element_self_description: ElementSelfDescription {
            port_number: 3,
            component_id: 1,
            element_type: ElementType::ConfigurationSpaceElement,
            reserved: 0,
            number_of_link_entries: 1,
        },
        link_entries: LinkEntries::new(&data[0x10..0x20], 1),
    };

    assert_eq!(rcld_sample, rcld_result);
    let le_result = rcld_result.link_entries.next().unwrap();
    let le_sample = LinkEntry {
        link_description: LinkDescription {
            target_port_number: 0,
            target_component_id: 1,
            associate_rcrb_header: false,
            link_type: 0,
            link_valid: true,
        },
        link_address: LinkAddress::MemoryMappedSpace(0xfed19000),
    };
    assert_eq!(le_sample, le_result);
}
