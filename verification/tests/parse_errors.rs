use pcics::capabilities::enhanced_allocation::{EnhancedAllocation, EnhancedAllocationError};
use pcics::capabilities::message_signaled_interrups::{
    MessageSignaledInterrups, MessageSignaledInterrupsError,
};
use pcics::capabilities::pci_express::{PciExpress, PciExpressError};
use pcics::capabilities::pci_x::{PciX, PciXBridge, PciXBridgeError, PciXError};
use pcics::capabilities::vendor_specific::{VendorSpecific, VendorSpecificError};
use pcics::extended_capabilities::advanced_error_reporting::{
    AdvancedErrorReporting, AdvancedErrorReportingError, TlpPrefixLog,
};
use pcics::extended_capabilities::designated_vendor_specific_extended_capability::compute_express_link::ComputeExpressLinkError;
use pcics::extended_capabilities::designated_vendor_specific_extended_capability::{
    Dvsec, DvsecError,
};
use pcics::extended_capabilities::downstream_port_containment::{
    DownstreamPortContainment, DownstreamPortContainmentError,
};
use pcics::extended_capabilities::dynamic_power_allocation::{
    DynamicPowerAllocation, DynamicPowerAllocationError,
};
use pcics::extended_capabilities::multifunction_virtual_channel::{
    MultifunctionVirtualChannel, MultifunctionVirtualChannelError,
};
use pcics::extended_capabilities::protocol_multiplexing::{
    ProtocolMultiplexing, ProtocolMultiplexingError,
};
use pcics::extended_capabilities::root_complex_link_declaration::{
    ElementSelfDescription, ElementType, RootComplexLinkDeclaration,
    RootComplexLinkDeclarationError,
};
use pcics::extended_capabilities::ExtendedCapabilityDataError;
use pcics::extended_capabilities::SingleRootIoVirtualization;

#[test]
fn enhanced_allocation_errors() {
    let data = [0x01, 0x00, 0x00, 0x00];
    assert_eq!(
        Err(EnhancedAllocationError::NumEntries),
        EnhancedAllocation::try_new(&data[..1], false)
    );
    // A bridge whose second double word is missing
    assert_eq!(
        Err(EnhancedAllocationError::Type1SecondDw),
        EnhancedAllocation::try_new(&data, true)
    );
    assert_eq!(
        Err(EnhancedAllocationError::NumEntries),
        EnhancedAllocation::try_new(&data[..1], true)
    );
    let ea = EnhancedAllocation::try_new(&data, false).unwrap();
    assert_eq!(1, ea.num_entries);
    assert_eq!(None, ea.type_1_second_dw);
}

#[test]
fn vendor_specific_errors() {
    assert_eq!(Err(VendorSpecificError::Length), VendorSpecific::parse(&[]));
    assert_eq!(Err(VendorSpecificError::Length), VendorSpecific::parse(&[0x00, 0x01]));
    assert_eq!(
        Err(VendorSpecificError::Data { size: 3 }),
        VendorSpecific::parse(&[0x03, 0x01, 0x02])
    );
    assert_eq!(
        Ok(VendorSpecific(&[0x01, 0x02, 0x03])),
        VendorSpecific::parse(&[0x03, 0x01, 0x02, 0x03, 0x04])
    );
}

#[test]
fn message_signaled_interrups_errors() {
    let data = [0u8; 22];
    let parse = |control: u16, len: usize| {
        let mut d = data;
        d[..2].copy_from_slice(&control.to_le_bytes());
        MessageSignaledInterrups::try_from(&d[..len])
    };
    assert_eq!(Err(MessageSignaledInterrupsError::MessageControl), parse(0, 1));
    assert_eq!(Err(MessageSignaledInterrupsError::Size32bit), parse(0, 9));
    assert!(parse(0, 10).is_ok());
    assert_eq!(Err(MessageSignaledInterrupsError::Size64bit), parse(1 << 7, 13));
    assert!(parse(1 << 7, 14).is_ok());
    assert_eq!(
        Err(MessageSignaledInterrupsError::Size32bitPerVector),
        parse(1 << 8, 17)
    );
    assert!(parse(1 << 8, 18).is_ok());
    assert_eq!(
        Err(MessageSignaledInterrupsError::Size64bitPerVector),
        parse(1 << 7 | 1 << 8, 21)
    );
    assert!(parse(1 << 7 | 1 << 8, 22).is_ok());
}

#[test]
fn pci_express_errors() {
    let data = [0u8; 60];
    assert_eq!(
        Err(PciExpressError::RequiredBytesSlice),
        PciExpress::try_from(&data[..25])
    );
    // Root Port: the root registers are missing
    let mut root_port = data;
    root_port[0] = 0x42;
    assert_eq!(
        Err(PciExpressError::RootBytesSlice),
        PciExpress::try_from(&root_port[..33])
    );
    assert!(PciExpress::try_from(&root_port[..34]).is_ok());
    assert!(PciExpress::try_from(&data[..26]).is_ok());
}

#[test]
fn pci_x_errors() {
    let data = [0u8; 30];
    assert_eq!(Err(PciXError::CommandAndStatus), PciX::try_from(&data[..5]));
    let mut mode2 = data;
    mode2[1] = 0x10;
    assert_eq!(Err(PciXError::EccMode2Only), PciX::try_from(&mode2[..21]));
    assert!(PciX::try_from(&mode2[..22]).is_ok());
    let mut mode12 = data;
    mode12[1] = 0x20;
    assert_eq!(Err(PciXError::EccMode1OrMode2), PciX::try_from(&mode12[..21]));
    assert!(PciX::try_from(&mode12[..22]).is_ok());

    assert_eq!(Err(PciXBridgeError::Mandatory), PciXBridge::try_from(&data[..13]));
    let mut bridge2 = data;
    bridge2[1] = 0x10;
    assert_eq!(
        Err(PciXBridgeError::BridgeEccMode2Only),
        PciXBridge::try_from(&bridge2[..29])
    );
    let mut bridge12 = data;
    bridge12[1] = 0x20;
    assert_eq!(
        Err(PciXBridgeError::BridgeEccMode1OrMode2),
        PciXBridge::try_from(&bridge12[..29])
    );
    assert!(PciXBridge::try_from(&bridge12[..30]).is_ok());
}

#[test]
fn multifunction_virtual_channel_errors() {
    let mut data = [0u8; 0x40];
    assert_eq!(
        Err(MultifunctionVirtualChannelError::PortVcData),
        MultifunctionVirtualChannel::try_from(&data[..15])
    );
    // VC Arbitration Table Offset 1 points into the port registers
    data[8 + 3] = 0x01;
    assert_eq!(
        Err(MultifunctionVirtualChannelError::VcArbitrationTableOffset),
        MultifunctionVirtualChannel::try_from(&data[..])
    );
    // Offset 5 (0x50) lies beyond the data
    data[8 + 3] = 0x05;
    assert_eq!(
        Err(MultifunctionVirtualChannelError::VcArbitrationTableData),
        MultifunctionVirtualChannel::try_from(&data[..])
    );
    // Offset 3 (0x30) with a 32 phase table (16 bytes) that does not fit
    data[8 + 3] = 0x03;
    data[12] = 0b0010;
    assert_eq!(
        Err(MultifunctionVirtualChannelError::VcArbitrationTableLength {
            expected: 16,
            real: 8
        }),
        MultifunctionVirtualChannel::try_from(&data[..0x38])
    );
    assert!(MultifunctionVirtualChannel::try_from(&data[..]).is_ok());
}

#[test]
fn downstream_port_containment_errors() {
    let mut data = [0u8; 60];
    assert_eq!(
        Err(DownstreamPortContainmentError::Mandatory),
        DownstreamPortContainment::try_from(&data[..7])
    );
    // RP Extensions for DPC, RP PIO Log Size 4
    data[0] = 0x20;
    data[1] = 0x04;
    assert_eq!(
        Err(DownstreamPortContainmentError::RpExtensions),
        DownstreamPortContainment::try_from(&data[..43])
    );
    assert!(DownstreamPortContainment::try_from(&data[..44]).is_ok());
    // RP PIO Log Size 5: the ImpSpec Log follows the Header Log
    data[1] = 0x05;
    assert_eq!(
        Err(DownstreamPortContainmentError::RpPioImpspecLog),
        DownstreamPortContainment::try_from(&data[..47])
    );
    // RP PIO Log Size 8: three TLP Prefix Log words
    data[1] = 0x08;
    assert_eq!(
        Err(DownstreamPortContainmentError::RpPioTlpPrefixLog { number: 2 }),
        DownstreamPortContainment::try_from(&data[..56])
    );
    assert!(DownstreamPortContainment::try_from(&data[..60]).is_ok());
}

#[test]
fn designated_vendor_specific_errors() {
    let mut data = [0u8; 0x38];
    data[0] = 0x23;
    assert_eq!(Err(DvsecError::Mandatory), Dvsec::try_from(&data[..9]));
    // Length 0x40 is longer than the data
    data[4..8].copy_from_slice(&(0x8086u32 | 1 << 16 | 0x40 << 20).to_le_bytes());
    assert_eq!(
        Err(DvsecError::VendorSpecificRegisters {
            dvsec_vendor_id: 0x8086,
            dvsec_revision: 1,
            dvsec_length: 0x40,
            dvsec_id: 0,
            real: 0x38,
        }),
        Dvsec::try_from(&data[..])
    );
    // A CXL Device DVSEC whose registers are too short
    data[4..8].copy_from_slice(&(0x1e98u32 | 1 << 16 | 0x20 << 20).to_le_bytes());
    assert_eq!(
        Err(DvsecError::ComputeExpressLink {
            source: ComputeExpressLinkError::PcieDvsecForCxlDevice
        }),
        Dvsec::try_from(&data[..])
    );
}

#[test]
fn dynamic_power_allocation_errors() {
    let mut data = [0u8; 0x20];
    assert_eq!(
        Err(DynamicPowerAllocationError::Mandatory),
        DynamicPowerAllocation::try_from(&data[..15])
    );
    // Substate Max 3: four allocation bytes
    data[4] = 3;
    assert_eq!(
        Err(DynamicPowerAllocationError::DpaAllocationArray {
            expected: 3,
            found: 2
        }),
        DynamicPowerAllocation::try_from(&data[..18])
    );
    let dpa = DynamicPowerAllocation::try_from(&data[..20]).unwrap();
    assert_eq!(4, dpa.dpa_power_allocation_array.0.len());
}

#[test]
fn advanced_error_reporting_errors() {
    let mut data = [0u8; 0x44];
    assert_eq!(
        Err(AdvancedErrorReportingError::Common),
        AdvancedErrorReporting::try_from(&data[..39])
    );
    let aer = AdvancedErrorReporting::try_from(&data[..40]).unwrap();
    assert_eq!(None, aer.root_error_command);
    // TLP Prefix Log Present
    data[20 + 1] = 0x08;
    assert_eq!(
        Err(AdvancedErrorReportingError::TlpPrefixLog),
        AdvancedErrorReporting::try_from(&data[..0x43])
    );
    // The TLP Prefix Log follows the Error Source Identification register
    for (i, b) in data[0x34..0x44].iter_mut().enumerate() {
        *b = i as u8;
    }
    let aer = AdvancedErrorReporting::try_from(&data[..]).unwrap();
    assert_eq!(
        Some(TlpPrefixLog([0x03020100, 0x07060504, 0x0b0a0908, 0x0f0e0d0c])),
        aer.tlp_prefix_log
    );
    assert!(aer.root_error_command.is_some());
}

#[test]
fn protocol_multiplexing_errors() {
    let mut data = [0u8; 0x18];
    assert_eq!(
        Err(ProtocolMultiplexingError::Mandatory),
        ProtocolMultiplexing::try_from(&data[..15])
    );
    data[4] = 2;
    assert_eq!(
        Err(ProtocolMultiplexingError::PmuxProtocolArray {
            expected: 8,
            found: 4
        }),
        ProtocolMultiplexing::try_from(&data[..20])
    );
    assert!(ProtocolMultiplexing::try_from(&data[..]).is_ok());
}

#[test]
fn root_complex_link_declaration_errors() {
    let mut data = [0u8; 28];
    assert_eq!(
        Err(RootComplexLinkDeclarationError::ElementSelfDescription),
        RootComplexLinkDeclaration::try_from(&data[..3])
    );
    let esd = |n: u8| ElementSelfDescription {
        element_type: ElementType::ConfigurationSpaceElement,
        reserved: 0,
        number_of_link_entries: n,
        component_id: 0,
        port_number: 0,
    };
    assert_eq!(
        Err(RootComplexLinkDeclarationError::NumberOfLinkEntries {
            element_self_description: esd(0)
        }),
        RootComplexLinkDeclaration::try_from(&data[..])
    );
    data[1] = 1;
    assert_eq!(
        Err(RootComplexLinkDeclarationError::ReservedSpace {
            element_self_description: esd(1)
        }),
        RootComplexLinkDeclaration::try_from(&data[..11])
    );
    assert_eq!(
        Err(RootComplexLinkDeclarationError::LinkEntry1 {
            element_self_description: esd(1)
        }),
        RootComplexLinkDeclaration::try_from(&data[..27])
    );
    assert!(RootComplexLinkDeclaration::try_from(&data[..]).is_ok());
}

#[test]
fn single_root_io_virtualization_too_short() {
    let data = [0u8; 60];
    assert_eq!(
        Err(ExtendedCapabilityDataError {
            name: "Single Root I/O Virtualization",
            size: 60
        }),
        SingleRootIoVirtualization::try_from(&data[..59])
    );
    assert!(SingleRootIoVirtualization::try_from(&data[..]).is_ok());
}
