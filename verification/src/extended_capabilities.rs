//! PCI Express extended capabilities of the extended configuration space.
//!
//! The extended capabilities lie in the configuration space from offset 100h on. Each starts
//! with a double word header: a 16-bit capability ID, a 4-bit version and a 12-bit offset of
//! the next capability; a null offset ends the list, and a header of zero means that there is
//! no capability at all.
use vstd::prelude::*;
use crate::ECS_OFFSET;
use crate::bits::{field, get_u16, get_u8, le_u16, le_u32, read_u32};
pub use self::access_control_services::AccessControlServices;
pub use self::address_translation_services::AddressTranslationServices;
pub use self::advanced_error_reporting::AdvancedErrorReporting;
use self::advanced_error_reporting::AdvancedErrorReportingError;
pub use self::alternative_routing_id_interpolation::AlternativeRoutingIdInterpretation;
pub use self::configuration_access_correlation::ConfigurationAccessCorrelation;
pub use self::device_serial_number::DeviceSerialNumber;
pub use self::downstream_port_containment::DownstreamPortContainment;
use self::downstream_port_containment::DownstreamPortContainmentError;
pub use self::dynamic_power_allocation::DynamicPowerAllocation;
use self::dynamic_power_allocation::DynamicPowerAllocationError;
pub use self::l1_pm_substates::L1PmSubstates;
pub use self::latency_tolerance_reporting::LatencyToleranceReporting;
pub use self::multicast::Multicast;
pub use self::multifunction_virtual_channel::MultifunctionVirtualChannel;
use self::multifunction_virtual_channel::MultifunctionVirtualChannelError;
pub use self::page_request_interface::PageRequestInterface;
pub use self::power_budgeting::PowerBudgeting;
pub use self::precision_time_measurement::PrecisionTimeMeasurement;
pub use self::process_address_space_id::ProcessAddressSpaceId;
pub use self::root_complex_event_collector_endpoint_association::RootComplexEventCollectorEndpointAssociation;
pub use self::root_complex_internal_link_control::RootComplexInternalLinkControl;
pub use self::root_complex_link_declaration::RootComplexLinkDeclaration;
use self::root_complex_link_declaration::RootComplexLinkDeclarationError;
pub use self::root_complex_register_block_header::RootComplexRegisterBlockHeader;
pub use self::secondary_pci_express::SecondaryPciExpress;
pub use self::single_root_io_virtualization::SingleRootIoVirtualization;
use self::single_root_io_virtualization::SingleRootIoVirtualizationError;
pub use self::tph_requester::TphRequester;
pub use self::vendor_specific_extended_capability::VendorSpecificExtendedCapability;
pub use self::vf_resizable_bar::ResizableBar;
use self::vf_resizable_bar::ResizableBarError;
pub use self::virtual_channel::VirtualChannel;

pub mod access_control_services;
pub mod address_translation_services;
pub mod advanced_error_reporting;
pub mod alternative_routing_id_interpolation;
pub mod configuration_access_correlation;
pub mod designated_vendor_specific_extended_capability;
pub mod device_serial_number;
pub mod downstream_port_containment;
pub mod dynamic_power_allocation;
pub mod l1_pm_substates;
pub mod latency_tolerance_reporting;
pub mod ln_requester;
pub mod multicast;
pub mod multifunction_virtual_channel;
pub mod page_request_interface;
pub mod pci_express_over_m_phy;
pub mod power_budgeting;
pub mod precision_time_measurement;
pub mod process_address_space_id;
pub mod protocol_multiplexing;
pub mod readiness_time_reporting;
pub mod root_complex_event_collector_endpoint_association;
pub mod root_complex_internal_link_control;
pub mod root_complex_link_declaration;
pub mod root_complex_register_block_header;
pub mod secondary_pci_express;
pub mod single_root_io_virtualization;
pub mod tph_requester;
pub mod vendor_specific_extended_capability;
pub mod vf_resizable_bar;
pub mod virtual_channel;

verus! {

broadcast use crate::bits::lemma_field_le_mask;

/// Extended capability header length in bytes
pub const ECH_BYTES: usize = 4;

/// Extended capability parsing error
#[derive(Debug, Clone, PartialEq, Eq)]
pub enum ExtendedCapabilityError {
    /// The offset of an extended capability should be at least 100h
    Offset,
    /// The header of the capability at `offset` is not there
    Header { offset: u16 },
    /// The header of the capability at `offset` is zero
    EmptyHeader { offset: u16 },
    /// The data of the capability at `offset` cannot be read
    Data { offset: u16, source: ExtendedCapabilityDataError },
    /// Root Complex Link Declaration error
    RootComplexLinkDeclaration { offset: u16, source: RootComplexLinkDeclarationError },
    /// Multi-Function Virtual Channel error
    MultifunctionVirtualChannel { offset: u16, source: MultifunctionVirtualChannelError },
    /// Single Root I/O Virtualization error
    SingleRootIoVirtualization { offset: u16, source: SingleRootIoVirtualizationError },
    /// Advanced Error Reporting error
    AdvancedErrorReporting { offset: u16, source: AdvancedErrorReportingError },
    /// Downstream Port Containment error
    DownstreamPortContainment { offset: u16, source: DownstreamPortContainmentError },
    /// Resizable BAR error
    ResizableBar { offset: u16, source: ResizableBarError },
    /// Dynamic Power Allocation error
    DynamicPowerAllocation { offset: u16, source: DynamicPowerAllocationError },
}

/// Common error for reading extended capability data: the capability and the size it needs
#[derive(Debug, Clone, Copy, PartialEq, Eq)]
pub struct ExtendedCapabilityDataError {
    pub name: &'static str,
    pub size: usize,
}

/// The Extended Capabilities list: the extended configuration space and the offset of the next
/// capability
#[derive(Debug, Clone, Copy, PartialEq, Eq)]
pub struct ExtendedCapabilities<'a> {
    ecs: &'a [u8],
    next_capability_offset: u16,
}

impl<'a> ExtendedCapabilities<'a> {
    /// The extended configuration space, from offset 100h on.
    pub closed spec fn spec_ecs(&self) -> Seq<u8> {
        self.ecs@
    }

    /// The offset of the next capability in the configuration space; zero once the list ends.
    pub closed spec fn spec_next_capability_offset(&self) -> u16 {
        self.next_capability_offset
    }

    /// The list in the extended configuration space `ecs`, starting at offset 100h.
    pub fn new(ecs: &'a [u8]) -> (r: Self)
        ensures
            r.spec_ecs() == ecs@,
            r.spec_next_capability_offset() == 0x100,
    {
        ExtendedCapabilities { ecs, next_capability_offset: ECS_OFFSET as u16 }
    }

    /// Reads the capability at the next offset, unless the offset is null or the header there
    /// is zero (see `spec_empty_header`).
    pub fn next(&mut self) -> (r: Option<Result<ExtendedCapability<'a>, ExtendedCapabilityError>>)
        ensures
            final(self).spec_ecs() == old(self).spec_ecs(),
            old(self).spec_next_capability_offset() == 0 ==> r is None && *final(self) == *old(self),
            old(self).spec_next_capability_offset() != 0 && spec_empty_header(
                old(self).spec_ecs(),
                old(self).spec_next_capability_offset(),
            ) ==> r is None && *final(self) == *old(self),
            old(self).spec_next_capability_offset() != 0 && !spec_empty_header(
                old(self).spec_ecs(),
                old(self).spec_next_capability_offset(),
            ) ==> (r matches Some(c) && spec_parse_ecap(
                old(self).spec_ecs(),
                old(self).spec_next_capability_offset(),
                c,
                final(self).spec_next_capability_offset(),
            )),
    {
        if self.next_capability_offset == 0 {
            return None;
        }
        let mut offset = self.next_capability_offset;
        let c = parse_ecap(self.ecs, &mut offset);
        self.next_capability_offset = offset;
        match c {
            Err(ExtendedCapabilityError::EmptyHeader { .. }) => {
                proof {
                    if !spec_empty_header(self.ecs@, old(self).next_capability_offset) {
                        let at = old(self).next_capability_offset - 0x100;
                        let header = ExtendedCapabilityHeader::spec_from(le_u32(self.ecs@, at));
                        lemma_parse_kind_error(
                            header.extended_capability_id,
                            self.ecs@,
                            self.ecs@.skip(at + 4),
                            old(self).next_capability_offset,
                            c->Err_0,
                        );
                    }
                }
                None
            },
            v => Some(v),
        }
    }
}

/// Whether the header at `offset` in the extended configuration space `bytes` is there and
/// zero: there is no capability.
pub open spec fn spec_empty_header(bytes: Seq<u8>, offset: u16) -> bool {
    &&& offset >= 0x100
    &&& bytes.len() >= offset - 0x100 + 4
    &&& le_u32(bytes, offset - 0x100) == 0
}

/// No capability that is read fails with a zero header: only the list does.
pub proof fn lemma_parse_kind_error<'a>(
    id: u16,
    bytes: Seq<u8>,
    data: Seq<u8>,
    offset: u16,
    e: ExtendedCapabilityError,
)
    requires
        spec_parse_kind(id, bytes, data, offset, Err::<ExtendedCapabilityKind<'a>, ExtendedCapabilityError>(e)),
    ensures
        !(e is EmptyHeader),
{
}

/// PCI Express Extended Capability Header
#[derive(Debug, Clone, Copy, PartialEq, Eq)]
pub struct ExtendedCapabilityHeader {
    /// The nature and format of the capability, a number defined by the PCI-SIG
    pub extended_capability_id: u16,
    /// The version of the capability structure, defined by the PCI-SIG
    pub capability_version: u8,
    /// The offset of the next capability, or 0 where there is none
    pub next_capability_offset: u16,
}

impl ExtendedCapabilityHeader {
    /// Size of the header in bytes
    pub const SIZE: usize = 4;

    /// The fields of the header `dword`.
    pub open spec fn spec_from(dword: u32) -> Self {
        ExtendedCapabilityHeader {
            extended_capability_id: field(dword, 0, 0xffff) as u16,
            capability_version: field(dword, 16, 0xf) as u8,
            next_capability_offset: field(dword, 20, 0xfff) as u16,
        }
    }
}

impl vstd::std_specs::convert::FromSpecImpl<u32> for ExtendedCapabilityHeader {
    open spec fn obeys_from_spec() -> bool {
        true
    }

    open spec fn from_spec(dword: u32) -> Self {
        Self::spec_from(dword)
    }
}

impl From<u32> for ExtendedCapabilityHeader {
    fn from(dword: u32) -> (r: Self) {
        ExtendedCapabilityHeader {
            extended_capability_id: get_u16(dword, 0, 0xffff),
            capability_version: get_u8(dword, 16, 0xf),
            next_capability_offset: get_u16(dword, 20, 0xfff),
        }
    }
}

/// Whether reading the capability at `offset` in the extended configuration space `bytes`
/// gives `r` and leaves the next offset `next`: an offset below 100h fails and ends the list,
/// as does a header beyond the data; a zero header fails and leaves the offset; otherwise the
/// offset moves to the one that the header names and the capability is read from its own bytes:
/// those after its header, or, for the kinds that are read with their header, those from it.
pub open spec fn spec_parse_ecap<'a>(
    bytes: Seq<u8>,
    offset: u16,
    r: Result<ExtendedCapability<'a>, ExtendedCapabilityError>,
    next: u16,
) -> bool {
    let at = offset - 0x100;
    if offset < 0x100 {
        r == Err::<ExtendedCapability<'a>, ExtendedCapabilityError>(ExtendedCapabilityError::Offset)
            && next == 0
    } else if bytes.len() < at + 4 {
        r == Err::<ExtendedCapability<'a>, ExtendedCapabilityError>(
            ExtendedCapabilityError::Header { offset },
        ) && next == 0
    } else if le_u32(bytes, at) == 0 {
        r == Err::<ExtendedCapability<'a>, ExtendedCapabilityError>(
            ExtendedCapabilityError::EmptyHeader { offset },
        ) && next == offset
    } else {
        let header = ExtendedCapabilityHeader::spec_from(le_u32(bytes, at));
        &&& next == header.next_capability_offset
        &&& match r {
            Ok(c) => c.offset == offset && c.version == header.capability_version && spec_parse_kind(
                header.extended_capability_id,
                bytes.skip(at),
                bytes.skip(at + 4),
                offset,
                Ok::<ExtendedCapabilityKind<'a>, ExtendedCapabilityError>(c.kind),
            ),
            Err(e) => spec_parse_kind(
                header.extended_capability_id,
                bytes.skip(at),
                bytes.skip(at + 4),
                offset,
                Err::<ExtendedCapabilityKind<'a>, ExtendedCapabilityError>(e),
            ),
        }
    }
}

/// Reads the capability at `*next_capability_offset` in the extended configuration space
/// `bytes` and moves the offset on (see `spec_parse_ecap`).
fn parse_ecap<'a>(bytes: &'a [u8], next_capability_offset: &mut u16) -> (r: Result<
    ExtendedCapability<'a>,
    ExtendedCapabilityError,
>)
    ensures
        spec_parse_ecap(bytes@, *old(next_capability_offset), r, *final(next_capability_offset)),
{
    let offset = *next_capability_offset;
    if (offset as usize) < ECS_OFFSET {
        *next_capability_offset = 0;
        return Err(ExtendedCapabilityError::Offset);
    }
    let ecs_offset = offset as usize - ECS_OFFSET;
    let ecap_data_offset = ecs_offset + ECH_BYTES;
    if bytes.len() < ecap_data_offset {
        *next_capability_offset = 0;
        return Err(ExtendedCapabilityError::Header { offset });
    }
    let dword = read_u32(bytes, ecs_offset);
    if dword == 0 {
        return Err(ExtendedCapabilityError::EmptyHeader { offset });
    }
    let header = ExtendedCapabilityHeader::from(dword);
    *next_capability_offset = header.next_capability_offset;
    let ecap_bytes = &bytes[ecs_offset..bytes.len()];
    let ecap_data = &bytes[ecap_data_offset..bytes.len()];
    assert(ecap_bytes@ == bytes@.skip(ecs_offset as int));
    assert(ecap_data@ == bytes@.skip(ecap_data_offset as int));
    match parse_kind(header.extended_capability_id, ecap_bytes, ecap_data, offset) {
        Ok(kind) => Ok(ExtendedCapability { kind, version: header.capability_version, offset }),
        Err(e) => Err(e),
    }
}

/// Extended capability
#[derive(Debug, Clone, PartialEq, Eq)]
pub struct ExtendedCapability<'a> {
    pub kind: ExtendedCapabilityKind<'a>,
    /// Capability Version
    pub version: u8,
    /// Offset of the capability in the configuration space
    pub offset: u16,
}

/// Extended capability, by its ID
#[derive(Debug, Clone, PartialEq, Eq)]
pub enum ExtendedCapabilityKind<'a> {
    /// Null Capability: no registers besides the extended capability header
    Null,
    /// Advanced Error Reporting (AER)
    AdvancedErrorReporting(AdvancedErrorReporting),
    /// Virtual Channel (VC), used where no MFVC capability is present
    VirtualChannel(VirtualChannel<'a>),
    /// Device Serial Number
    DeviceSerialNumber(DeviceSerialNumber),
    /// Power Budgeting
    PowerBudgeting(PowerBudgeting),
    /// Root Complex Link Declaration
    RootComplexLinkDeclaration(RootComplexLinkDeclaration<'a>),
    /// Root Complex Internal Link Control
    RootComplexInternalLinkControl(RootComplexInternalLinkControl),
    /// Root Complex Event Collector Endpoint Association
    RootComplexEventCollectorEndpointAssociation(RootComplexEventCollectorEndpointAssociation),
    /// Multi-Function Virtual Channel (MFVC)
    MultifunctionVirtualChannel(MultifunctionVirtualChannel<'a>),
    /// Virtual Channel (VC), used where an MFVC capability is present
    VirtualChannelMfvcPresent(VirtualChannel<'a>),
    /// Root Complex Register Block (RCRB) Header
    RootComplexRegisterBlockHeader(RootComplexRegisterBlockHeader),
    /// Vendor-Specific Extended Capability (VSEC)
    VendorSpecificExtendedCapability(VendorSpecificExtendedCapability<'a>),
    /// Configuration Access Correlation (CAC)
    ConfigurationAccessCorrelation(ConfigurationAccessCorrelation),
    /// Access Control Services (ACS)
    AccessControlServices(AccessControlServices<'a>),
    /// Alternative Routing-ID Interpretation (ARI)
    AlternativeRoutingIdInterpretation(AlternativeRoutingIdInterpretation),
    /// Address Translation Services (ATS)
    AddressTranslationServices(AddressTranslationServices),
    /// Single Root I/O Virtualization (SR-IOV)
    SingleRootIoVirtualization(SingleRootIoVirtualization),
    /// Multi-Root I/O Virtualization (MR-IOV), defined in the Multi-Root I/O Virtualization and Sharing Specification
    MultiRootIoVirtualization(MultiRootIoVirtualization),
    /// Multicast
    Multicast(Multicast),
    /// Page Request Interface (PRI)
    PageRequestInterface(PageRequestInterface),
    /// Reserved for AMD
    ReservedForAmd(ReservedForAmd),
    /// Resizable BAR
    ResizableBar(ResizableBar<'a>),
    /// Dynamic Power Allocation (DPA)
    DynamicPowerAllocation(DynamicPowerAllocation<'a>),
    /// TPH Requester
    TphRequester(TphRequester<'a>),
    /// Latency Tolerance Reporting (LTR)
    LatencyToleranceReporting(LatencyToleranceReporting),
    /// Secondary PCI Express
    SecondaryPciExpress(SecondaryPciExpress<'a>),
    /// Protocol Multiplexing (PMUX)
    ProtocolMultiplexing(ProtocolMultiplexing),
    /// Process Address Space ID (PASID)
    ProcessAddressSpaceId(ProcessAddressSpaceId),
    /// LN Requester (LNR)
    LnRequester(LnRequester),
    /// Downstream Port Containment (DPC)
    DownstreamPortContainment(DownstreamPortContainment),
    /// L1 PM Substates
    L1PmSubstates(L1PmSubstates),
    /// Precision Time Measurement (PTM)
    PrecisionTimeMeasurement(PrecisionTimeMeasurement),
    /// PCI Express over M-PHY (M-PCIe)
    PciExpressOverMphy(PciExpressOverMphy),
    /// FRS Queueing
    FrsQueueing(FrsQueueing),
    /// Readiness Time Reporting
    ReadinessTimeReporting(ReadinessTimeReporting),
    /// Designated Vendor-Specific Extended Capability
    DesignatedVendorSpecificExtendedCapability(DesignatedVendorSpecificExtendedCapability),
    /// VF Resizable BAR
    VfResizableBar(VfResizableBar),
    /// Data Link Feature
    DataLinkFeature(DataLinkFeature),
    /// Physical Layer 16.0 GT/s
    PhysicalLayer16GTps(PhysicalLayer16GTps),
    /// Lane Margining at the Receiver
    LaneMarginingAtTheReceiver(LaneMarginingAtTheReceiver),
    /// Hierarchy ID
    HierarchyId(HierarchyId),
    /// Native PCIe Enclosure Management (NPEM)
    NativePcieEnclosureManagement(NativePcieEnclosureManagement),
    /// Physical Layer 32.0 GT/s
    PhysicalLayer32GTps(PhysicalLayer32GTps),
    /// Alternate Protocol
    AlternateProtocol(AlternateProtocol),
    /// System Firmware Intermediary (SFI)
    SystemFirmwareIntermediary(SystemFirmwareIntermediary),
    /// Shadow Functions
    ShadowFunctions(ShadowFunctions),
    /// Data Object Exchange
    DataObjectExchange(DataObjectExchange),
    /// Device 3
    Device3(Device3),
    /// Integrity and Data Encryption (IDE)
    IntegrityAndDataEncryption(IntegrityAndDataEncryption),
    /// Physical Layer 64.0 GT/s
    PhysicalLayer64GTps(PhysicalLayer64GTps),
    /// Flit Logging
    FlitLogging(FlitLogging),
    /// Flit Performance Measurement
    FlitPerformanceMeasurement(FlitPerformanceMeasurement),
    /// Flit Error Injection
    FlitErrorInjection(FlitErrorInjection),
    /// An ID with no capability defined
    Reserved(u16),
}

impl<'a> ExtendedCapabilityKind<'a> {
    /// The extended capability ID of the kind.
    pub open spec fn spec_id(&self) -> u16 {
        match self {
            ExtendedCapabilityKind::Null => 0x0000,
            ExtendedCapabilityKind::AdvancedErrorReporting(_) => 0x0001,
            ExtendedCapabilityKind::VirtualChannel(_) => 0x0002,
            ExtendedCapabilityKind::DeviceSerialNumber(_) => 0x0003,
            ExtendedCapabilityKind::PowerBudgeting(_) => 0x0004,
            ExtendedCapabilityKind::RootComplexLinkDeclaration(_) => 0x0005,
            ExtendedCapabilityKind::RootComplexInternalLinkControl(_) => 0x0006,
            ExtendedCapabilityKind::RootComplexEventCollectorEndpointAssociation(_) => 0x0007,
            ExtendedCapabilityKind::MultifunctionVirtualChannel(_) => 0x0008,
            ExtendedCapabilityKind::VirtualChannelMfvcPresent(_) => 0x0009,
            ExtendedCapabilityKind::RootComplexRegisterBlockHeader(_) => 0x000A,
            ExtendedCapabilityKind::VendorSpecificExtendedCapability(_) => 0x000B,
            ExtendedCapabilityKind::ConfigurationAccessCorrelation(_) => 0x000C,
            ExtendedCapabilityKind::AccessControlServices(_) => 0x000D,
            ExtendedCapabilityKind::AlternativeRoutingIdInterpretation(_) => 0x000E,
            ExtendedCapabilityKind::AddressTranslationServices(_) => 0x000F,
            ExtendedCapabilityKind::SingleRootIoVirtualization(_) => 0x0010,
            ExtendedCapabilityKind::MultiRootIoVirtualization(_) => 0x0011,
            ExtendedCapabilityKind::Multicast(_) => 0x0012,
            ExtendedCapabilityKind::PageRequestInterface(_) => 0x0013,
            ExtendedCapabilityKind::ReservedForAmd(_) => 0x0014,
            ExtendedCapabilityKind::ResizableBar(_) => 0x0015,
            ExtendedCapabilityKind::DynamicPowerAllocation(_) => 0x0016,
            ExtendedCapabilityKind::TphRequester(_) => 0x0017,
            ExtendedCapabilityKind::LatencyToleranceReporting(_) => 0x0018,
            ExtendedCapabilityKind::SecondaryPciExpress(_) => 0x0019,
            ExtendedCapabilityKind::ProtocolMultiplexing(_) => 0x001A,
            ExtendedCapabilityKind::ProcessAddressSpaceId(_) => 0x001B,
            ExtendedCapabilityKind::LnRequester(_) => 0x001C,
            ExtendedCapabilityKind::DownstreamPortContainment(_) => 0x001D,
            ExtendedCapabilityKind::L1PmSubstates(_) => 0x001E,
            ExtendedCapabilityKind::PrecisionTimeMeasurement(_) => 0x001F,
            ExtendedCapabilityKind::PciExpressOverMphy(_) => 0x0020,
            ExtendedCapabilityKind::FrsQueueing(_) => 0x0021,
            ExtendedCapabilityKind::ReadinessTimeReporting(_) => 0x0022,
            ExtendedCapabilityKind::DesignatedVendorSpecificExtendedCapability(_) => 0x0023,
            ExtendedCapabilityKind::VfResizableBar(_) => 0x0024,
            ExtendedCapabilityKind::DataLinkFeature(_) => 0x0025,
            ExtendedCapabilityKind::PhysicalLayer16GTps(_) => 0x0026,
            ExtendedCapabilityKind::LaneMarginingAtTheReceiver(_) => 0x0027,
            ExtendedCapabilityKind::HierarchyId(_) => 0x0028,
            ExtendedCapabilityKind::NativePcieEnclosureManagement(_) => 0x0029,
            ExtendedCapabilityKind::PhysicalLayer32GTps(_) => 0x002A,
            ExtendedCapabilityKind::AlternateProtocol(_) => 0x002B,
            ExtendedCapabilityKind::SystemFirmwareIntermediary(_) => 0x002C,
            ExtendedCapabilityKind::ShadowFunctions(_) => 0x002D,
            ExtendedCapabilityKind::DataObjectExchange(_) => 0x002E,
            ExtendedCapabilityKind::Device3(_) => 0x002F,
            ExtendedCapabilityKind::IntegrityAndDataEncryption(_) => 0x0030,
            ExtendedCapabilityKind::PhysicalLayer64GTps(_) => 0x0031,
            ExtendedCapabilityKind::FlitLogging(_) => 0x0032,
            ExtendedCapabilityKind::FlitPerformanceMeasurement(_) => 0x0033,
            ExtendedCapabilityKind::FlitErrorInjection(_) => 0x0034,
            ExtendedCapabilityKind::Reserved(v) => *v,
        }
    }
}

impl<'a> ExtendedCapability<'a> {
    /// Size of the extended capability header in bytes
    pub const HEADER_SIZE: usize = 4;

    /// The extended capability ID of the capability.
    pub fn id(&self) -> (r: u16)
        ensures
            r == self.kind.spec_id(),
    {
        match &self.kind {
            ExtendedCapabilityKind::Null => 0x0000,
            ExtendedCapabilityKind::AdvancedErrorReporting(_) => 0x0001,
            ExtendedCapabilityKind::VirtualChannel(_) => 0x0002,
            ExtendedCapabilityKind::DeviceSerialNumber(_) => 0x0003,
            ExtendedCapabilityKind::PowerBudgeting(_) => 0x0004,
            ExtendedCapabilityKind::RootComplexLinkDeclaration(_) => 0x0005,
            ExtendedCapabilityKind::RootComplexInternalLinkControl(_) => 0x0006,
            ExtendedCapabilityKind::RootComplexEventCollectorEndpointAssociation(_) => 0x0007,
            ExtendedCapabilityKind::MultifunctionVirtualChannel(_) => 0x0008,
            ExtendedCapabilityKind::VirtualChannelMfvcPresent(_) => 0x0009,
            ExtendedCapabilityKind::RootComplexRegisterBlockHeader(_) => 0x000A,
            ExtendedCapabilityKind::VendorSpecificExtendedCapability(_) => 0x000B,
            ExtendedCapabilityKind::ConfigurationAccessCorrelation(_) => 0x000C,
            ExtendedCapabilityKind::AccessControlServices(_) => 0x000D,
            ExtendedCapabilityKind::AlternativeRoutingIdInterpretation(_) => 0x000E,
            ExtendedCapabilityKind::AddressTranslationServices(_) => 0x000F,
            ExtendedCapabilityKind::SingleRootIoVirtualization(_) => 0x0010,
            ExtendedCapabilityKind::MultiRootIoVirtualization(_) => 0x0011,
            ExtendedCapabilityKind::Multicast(_) => 0x0012,
            ExtendedCapabilityKind::PageRequestInterface(_) => 0x0013,
            ExtendedCapabilityKind::ReservedForAmd(_) => 0x0014,
            ExtendedCapabilityKind::ResizableBar(_) => 0x0015,
            ExtendedCapabilityKind::DynamicPowerAllocation(_) => 0x0016,
            ExtendedCapabilityKind::TphRequester(_) => 0x0017,
            ExtendedCapabilityKind::LatencyToleranceReporting(_) => 0x0018,
            ExtendedCapabilityKind::SecondaryPciExpress(_) => 0x0019,
            ExtendedCapabilityKind::ProtocolMultiplexing(_) => 0x001A,
            ExtendedCapabilityKind::ProcessAddressSpaceId(_) => 0x001B,
            ExtendedCapabilityKind::LnRequester(_) => 0x001C,
            ExtendedCapabilityKind::DownstreamPortContainment(_) => 0x001D,
            ExtendedCapabilityKind::L1PmSubstates(_) => 0x001E,
            ExtendedCapabilityKind::PrecisionTimeMeasurement(_) => 0x001F,
            ExtendedCapabilityKind::PciExpressOverMphy(_) => 0x0020,
            ExtendedCapabilityKind::FrsQueueing(_) => 0x0021,
            ExtendedCapabilityKind::ReadinessTimeReporting(_) => 0x0022,
            ExtendedCapabilityKind::DesignatedVendorSpecificExtendedCapability(_) => 0x0023,
            ExtendedCapabilityKind::VfResizableBar(_) => 0x0024,
            ExtendedCapabilityKind::DataLinkFeature(_) => 0x0025,
            ExtendedCapabilityKind::PhysicalLayer16GTps(_) => 0x0026,
            ExtendedCapabilityKind::LaneMarginingAtTheReceiver(_) => 0x0027,
            ExtendedCapabilityKind::HierarchyId(_) => 0x0028,
            ExtendedCapabilityKind::NativePcieEnclosureManagement(_) => 0x0029,
            ExtendedCapabilityKind::PhysicalLayer32GTps(_) => 0x002A,
            ExtendedCapabilityKind::AlternateProtocol(_) => 0x002B,
            ExtendedCapabilityKind::SystemFirmwareIntermediary(_) => 0x002C,
            ExtendedCapabilityKind::ShadowFunctions(_) => 0x002D,
            ExtendedCapabilityKind::DataObjectExchange(_) => 0x002E,
            ExtendedCapabilityKind::Device3(_) => 0x002F,
            ExtendedCapabilityKind::IntegrityAndDataEncryption(_) => 0x0030,
            ExtendedCapabilityKind::PhysicalLayer64GTps(_) => 0x0031,
            ExtendedCapabilityKind::FlitLogging(_) => 0x0032,
            ExtendedCapabilityKind::FlitPerformanceMeasurement(_) => 0x0033,
            ExtendedCapabilityKind::FlitErrorInjection(_) => 0x0034,
            ExtendedCapabilityKind::Reserved(v) => *v,
        }
    }
}

/// Whether `r` is what reading the extended capability with ID `id` gives, for the capability
/// at `offset` whose bytes from its header on are `bytes` and whose data after the header is
/// `data`. The capabilities that are read from data with their header are read from `bytes`.
pub open spec fn spec_parse_kind<'a>(
    id: u16,
    bytes: Seq<u8>,
    data: Seq<u8>,
    offset: u16,
    r: Result<ExtendedCapabilityKind<'a>, ExtendedCapabilityError>,
) -> bool {
    if id == 0x0000 {
        r == Ok::<ExtendedCapabilityKind<'a>, ExtendedCapabilityError>(ExtendedCapabilityKind::Null)
    } else if id == 0x0001 {
        r == match AdvancedErrorReporting::spec_parse(data) {
            Ok(v) => Ok(ExtendedCapabilityKind::AdvancedErrorReporting(v)),
            Err(source) => Err(ExtendedCapabilityError::AdvancedErrorReporting { offset, source: source }),
        }
    } else if id == 0x0002 {
        ||| r matches Ok(ExtendedCapabilityKind::VirtualChannel(v)) && VirtualChannel::spec_parse(data, Ok(v))
        ||| r matches Err(ExtendedCapabilityError::Data { offset: o, source }) && o == offset && VirtualChannel::spec_parse(data, Err(source))
    } else if id == 0x0003 {
        r == match DeviceSerialNumber::spec_parse(data) {
            Ok(v) => Ok(ExtendedCapabilityKind::DeviceSerialNumber(v)),
            Err(source) => Err(ExtendedCapabilityError::Data { offset, source: source }),
        }
    } else if id == 0x0004 {
        r == match PowerBudgeting::spec_parse(data) {
            Ok(v) => Ok(ExtendedCapabilityKind::PowerBudgeting(v)),
            Err(source) => Err(ExtendedCapabilityError::Data { offset, source: source }),
        }
    } else if id == 0x0005 {
        ||| r matches Ok(ExtendedCapabilityKind::RootComplexLinkDeclaration(v)) && RootComplexLinkDeclaration::spec_parse(data, Ok(v))
        ||| r matches Err(ExtendedCapabilityError::RootComplexLinkDeclaration { offset: o, source }) && o == offset && RootComplexLinkDeclaration::spec_parse(data, Err(source))
    } else if id == 0x0006 {
        r == match RootComplexInternalLinkControl::spec_parse(data) {
            Ok(v) => Ok(ExtendedCapabilityKind::RootComplexInternalLinkControl(v)),
            Err(source) => Err(ExtendedCapabilityError::Data { offset, source: source }),
        }
    } else if id == 0x0007 {
        r == match RootComplexEventCollectorEndpointAssociation::spec_parse(data) {
            Ok(v) => Ok(ExtendedCapabilityKind::RootComplexEventCollectorEndpointAssociation(v)),
            Err(source) => Err(ExtendedCapabilityError::Data { offset, source: source }),
        }
    } else if id == 0x0008 {
        ||| r matches Ok(ExtendedCapabilityKind::MultifunctionVirtualChannel(v)) && MultifunctionVirtualChannel::spec_parse(bytes, Ok(v))
        ||| r matches Err(ExtendedCapabilityError::MultifunctionVirtualChannel { offset: o, source }) && o == offset && MultifunctionVirtualChannel::spec_parse(bytes, Err(source))
    } else if id == 0x0009 {
        ||| r matches Ok(ExtendedCapabilityKind::VirtualChannelMfvcPresent(v)) && VirtualChannel::spec_parse(data, Ok(v))
        ||| r matches Err(ExtendedCapabilityError::Data { offset: o, source }) && o == offset && VirtualChannel::spec_parse(data, Err(source))
    } else if id == 0x000A {
        r == match RootComplexRegisterBlockHeader::spec_parse(bytes) {
            Ok(v) => Ok(ExtendedCapabilityKind::RootComplexRegisterBlockHeader(v)),
            Err(source) => Err(ExtendedCapabilityError::Data { offset, source: source }),
        }
    } else if id == 0x000B {
        ||| r matches Ok(ExtendedCapabilityKind::VendorSpecificExtendedCapability(v)) && VendorSpecificExtendedCapability::spec_parse(data, Ok(v))
        ||| r matches Err(ExtendedCapabilityError::Data { offset: o, source }) && o == offset && VendorSpecificExtendedCapability::spec_parse(data, Err(source))
    } else if id == 0x000C {
        r == match ConfigurationAccessCorrelation::spec_parse(bytes) {
            Ok(v) => Ok(ExtendedCapabilityKind::ConfigurationAccessCorrelation(v)),
            Err(source) => Err(ExtendedCapabilityError::Data { offset, source: source }),
        }
    } else if id == 0x000D {
        ||| r matches Ok(ExtendedCapabilityKind::AccessControlServices(v)) && AccessControlServices::spec_parse(data, Ok(v))
        ||| r matches Err(ExtendedCapabilityError::Data { offset: o, source }) && o == offset && AccessControlServices::spec_parse(data, Err(source))
    } else if id == 0x000E {
        r == match AlternativeRoutingIdInterpretation::spec_parse(data) {
            Ok(v) => Ok(ExtendedCapabilityKind::AlternativeRoutingIdInterpretation(v)),
            Err(source) => Err(ExtendedCapabilityError::Data { offset, source: source }),
        }
    } else if id == 0x000F {
        r == match AddressTranslationServices::spec_parse(data) {
            Ok(v) => Ok(ExtendedCapabilityKind::AddressTranslationServices(v)),
            Err(source) => Err(ExtendedCapabilityError::Data { offset, source: source }),
        }
    } else if id == 0x0010 {
        r == match SingleRootIoVirtualization::spec_parse(data) {
            Ok(v) => Ok(ExtendedCapabilityKind::SingleRootIoVirtualization(v)),
            Err(source) => Err(ExtendedCapabilityError::Data { offset, source: source }),
        }
    } else if id == 0x0011 {
        r == Ok::<ExtendedCapabilityKind<'a>, ExtendedCapabilityError>(ExtendedCapabilityKind::MultiRootIoVirtualization(MultiRootIoVirtualization))
    } else if id == 0x0012 {
        r == match Multicast::spec_parse(bytes) {
            Ok(v) => Ok(ExtendedCapabilityKind::Multicast(v)),
            Err(source) => Err(ExtendedCapabilityError::Data { offset, source: source }),
        }
    } else if id == 0x0013 {
        r == match PageRequestInterface::spec_parse(data) {
            Ok(v) => Ok(ExtendedCapabilityKind::PageRequestInterface(v)),
            Err(source) => Err(ExtendedCapabilityError::Data { offset, source: source }),
        }
    } else if id == 0x0014 {
        r == Ok::<ExtendedCapabilityKind<'a>, ExtendedCapabilityError>(ExtendedCapabilityKind::ReservedForAmd(ReservedForAmd))
    } else if id == 0x0015 {
        ||| r matches Ok(ExtendedCapabilityKind::ResizableBar(v)) && ResizableBar::spec_parse(bytes, Ok(v))
        ||| r matches Err(ExtendedCapabilityError::ResizableBar { offset: o, source }) && o == offset && ResizableBar::spec_parse(bytes, Err(source))
    } else if id == 0x0016 {
        ||| r matches Ok(ExtendedCapabilityKind::DynamicPowerAllocation(v)) && DynamicPowerAllocation::spec_parse(bytes, Ok(v))
        ||| r matches Err(ExtendedCapabilityError::DynamicPowerAllocation { offset: o, source }) && o == offset && DynamicPowerAllocation::spec_parse(bytes, Err(source))
    } else if id == 0x0017 {
        ||| r matches Ok(ExtendedCapabilityKind::TphRequester(v)) && TphRequester::spec_parse(data, Ok(v))
        ||| r matches Err(ExtendedCapabilityError::Data { offset: o, source }) && o == offset && TphRequester::spec_parse(data, Err(source))
    } else if id == 0x0018 {
        r == match LatencyToleranceReporting::spec_parse(data) {
            Ok(v) => Ok(ExtendedCapabilityKind::LatencyToleranceReporting(v)),
            Err(source) => Err(ExtendedCapabilityError::Data { offset, source: source }),
        }
    } else if id == 0x0019 {
        ||| r matches Ok(ExtendedCapabilityKind::SecondaryPciExpress(v)) && SecondaryPciExpress::spec_parse(data, Ok(v))
        ||| r matches Err(ExtendedCapabilityError::Data { offset: o, source }) && o == offset && SecondaryPciExpress::spec_parse(data, Err(source))
    } else if id == 0x001A {
        r == Ok::<ExtendedCapabilityKind<'a>, ExtendedCapabilityError>(ExtendedCapabilityKind::ProtocolMultiplexing(ProtocolMultiplexing))
    } else if id == 0x001B {
        r == match ProcessAddressSpaceId::spec_parse(data) {
            Ok(v) => Ok(ExtendedCapabilityKind::ProcessAddressSpaceId(v)),
            Err(source) => Err(ExtendedCapabilityError::Data { offset, source: source }),
        }
    } else if id == 0x001C {
        r == Ok::<ExtendedCapabilityKind<'a>, ExtendedCapabilityError>(ExtendedCapabilityKind::LnRequester(LnRequester))
    } else if id == 0x001D {
        r == match DownstreamPortContainment::spec_parse(data) {
            Ok(v) => Ok(ExtendedCapabilityKind::DownstreamPortContainment(v)),
            Err(source) => Err(ExtendedCapabilityError::DownstreamPortContainment { offset, source: source }),
        }
    } else if id == 0x001E {
        r == match L1PmSubstates::spec_parse(data) {
            Ok(v) => Ok(ExtendedCapabilityKind::L1PmSubstates(v)),
            Err(source) => Err(ExtendedCapabilityError::Data { offset, source: source }),
        }
    } else if id == 0x001F {
        r == match PrecisionTimeMeasurement::spec_parse(data) {
            Ok(v) => Ok(ExtendedCapabilityKind::PrecisionTimeMeasurement(v)),
            Err(source) => Err(ExtendedCapabilityError::Data { offset, source: source }),
        }
    } else if id == 0x0020 {
        r == Ok::<ExtendedCapabilityKind<'a>, ExtendedCapabilityError>(ExtendedCapabilityKind::PciExpressOverMphy(PciExpressOverMphy))
    } else if id == 0x0021 {
        r == Ok::<ExtendedCapabilityKind<'a>, ExtendedCapabilityError>(ExtendedCapabilityKind::FrsQueueing(FrsQueueing))
    } else if id == 0x0022 {
        r == Ok::<ExtendedCapabilityKind<'a>, ExtendedCapabilityError>(ExtendedCapabilityKind::ReadinessTimeReporting(ReadinessTimeReporting))
    } else if id == 0x0023 {
        r == Ok::<ExtendedCapabilityKind<'a>, ExtendedCapabilityError>(ExtendedCapabilityKind::DesignatedVendorSpecificExtendedCapability(DesignatedVendorSpecificExtendedCapability))
    } else if id == 0x0024 {
        r == Ok::<ExtendedCapabilityKind<'a>, ExtendedCapabilityError>(ExtendedCapabilityKind::VfResizableBar(VfResizableBar))
    } else if id == 0x0025 {
        r == Ok::<ExtendedCapabilityKind<'a>, ExtendedCapabilityError>(ExtendedCapabilityKind::DataLinkFeature(DataLinkFeature))
    } else if id == 0x0026 {
        r == Ok::<ExtendedCapabilityKind<'a>, ExtendedCapabilityError>(ExtendedCapabilityKind::PhysicalLayer16GTps(PhysicalLayer16GTps))
    } else if id == 0x0027 {
        r == Ok::<ExtendedCapabilityKind<'a>, ExtendedCapabilityError>(ExtendedCapabilityKind::LaneMarginingAtTheReceiver(LaneMarginingAtTheReceiver))
    } else if id == 0x0028 {
        r == Ok::<ExtendedCapabilityKind<'a>, ExtendedCapabilityError>(ExtendedCapabilityKind::HierarchyId(HierarchyId))
    } else if id == 0x0029 {
        r == Ok::<ExtendedCapabilityKind<'a>, ExtendedCapabilityError>(ExtendedCapabilityKind::NativePcieEnclosureManagement(NativePcieEnclosureManagement))
    } else if id == 0x002A {
        r == Ok::<ExtendedCapabilityKind<'a>, ExtendedCapabilityError>(ExtendedCapabilityKind::PhysicalLayer32GTps(PhysicalLayer32GTps))
    } else if id == 0x002B {
        r == Ok::<ExtendedCapabilityKind<'a>, ExtendedCapabilityError>(ExtendedCapabilityKind::AlternateProtocol(AlternateProtocol))
    } else if id == 0x002C {
        r == Ok::<ExtendedCapabilityKind<'a>, ExtendedCapabilityError>(ExtendedCapabilityKind::SystemFirmwareIntermediary(SystemFirmwareIntermediary))
    } else {
        r == Ok::<ExtendedCapabilityKind<'a>, ExtendedCapabilityError>(ExtendedCapabilityKind::Reserved(id))
    }
}

fn parse_kind<'a>(id: u16, bytes: &'a [u8], data: &'a [u8], offset: u16) -> (r: Result<
    ExtendedCapabilityKind<'a>,
    ExtendedCapabilityError,
>)
    ensures
        spec_parse_kind(id, bytes@, data@, offset, r),
{
    if id == 0x0000 {
        Ok(ExtendedCapabilityKind::Null)
    } else if id == 0x0001 {
        match AdvancedErrorReporting::try_from(data) {
            Ok(v) => Ok(ExtendedCapabilityKind::AdvancedErrorReporting(v)),
            Err(source) => Err(ExtendedCapabilityError::AdvancedErrorReporting { offset, source: source }),
        }
    } else if id == 0x0002 {
        match VirtualChannel::parse(data) {
            Ok(v) => Ok(ExtendedCapabilityKind::VirtualChannel(v)),
            Err(source) => Err(ExtendedCapabilityError::Data { offset, source: source }),
        }
    } else if id == 0x0003 {
        match DeviceSerialNumber::try_from(data) {
            Ok(v) => Ok(ExtendedCapabilityKind::DeviceSerialNumber(v)),
            Err(source) => Err(ExtendedCapabilityError::Data { offset, source: source }),
        }
    } else if id == 0x0004 {
        match PowerBudgeting::try_from(data) {
            Ok(v) => Ok(ExtendedCapabilityKind::PowerBudgeting(v)),
            Err(source) => Err(ExtendedCapabilityError::Data { offset, source: source }),
        }
    } else if id == 0x0005 {
        match RootComplexLinkDeclaration::parse(data) {
            Ok(v) => Ok(ExtendedCapabilityKind::RootComplexLinkDeclaration(v)),
            Err(source) => Err(ExtendedCapabilityError::RootComplexLinkDeclaration { offset, source: source }),
        }
    } else if id == 0x0006 {
        match RootComplexInternalLinkControl::try_from(data) {
            Ok(v) => Ok(ExtendedCapabilityKind::RootComplexInternalLinkControl(v)),
            Err(source) => Err(ExtendedCapabilityError::Data { offset, source: source }),
        }
    } else if id == 0x0007 {
        match RootComplexEventCollectorEndpointAssociation::try_from(data) {
            Ok(v) => Ok(ExtendedCapabilityKind::RootComplexEventCollectorEndpointAssociation(v)),
            Err(source) => Err(ExtendedCapabilityError::Data { offset, source: source }),
        }
    } else if id == 0x0008 {
        match MultifunctionVirtualChannel::parse(bytes) {
            Ok(v) => Ok(ExtendedCapabilityKind::MultifunctionVirtualChannel(v)),
            Err(source) => Err(ExtendedCapabilityError::MultifunctionVirtualChannel { offset, source: source }),
        }
    } else if id == 0x0009 {
        match VirtualChannel::parse(data) {
            Ok(v) => Ok(ExtendedCapabilityKind::VirtualChannelMfvcPresent(v)),
            Err(source) => Err(ExtendedCapabilityError::Data { offset, source: source }),
        }
    } else if id == 0x000A {
        match RootComplexRegisterBlockHeader::try_from(bytes) {
            Ok(v) => Ok(ExtendedCapabilityKind::RootComplexRegisterBlockHeader(v)),
            Err(source) => Err(ExtendedCapabilityError::Data { offset, source: source }),
        }
    } else if id == 0x000B {
        match VendorSpecificExtendedCapability::parse(data) {
            Ok(v) => Ok(ExtendedCapabilityKind::VendorSpecificExtendedCapability(v)),
            Err(source) => Err(ExtendedCapabilityError::Data { offset, source: source }),
        }
    } else if id == 0x000C {
        match ConfigurationAccessCorrelation::try_from(bytes) {
            Ok(v) => Ok(ExtendedCapabilityKind::ConfigurationAccessCorrelation(v)),
            Err(source) => Err(ExtendedCapabilityError::Data { offset, source: source }),
        }
    } else if id == 0x000D {
        match AccessControlServices::parse(data) {
            Ok(v) => Ok(ExtendedCapabilityKind::AccessControlServices(v)),
            Err(source) => Err(ExtendedCapabilityError::Data { offset, source: source }),
        }
    } else if id == 0x000E {
        match AlternativeRoutingIdInterpretation::try_from(data) {
            Ok(v) => Ok(ExtendedCapabilityKind::AlternativeRoutingIdInterpretation(v)),
            Err(source) => Err(ExtendedCapabilityError::Data { offset, source: source }),
        }
    } else if id == 0x000F {
        match AddressTranslationServices::try_from(data) {
            Ok(v) => Ok(ExtendedCapabilityKind::AddressTranslationServices(v)),
            Err(source) => Err(ExtendedCapabilityError::Data { offset, source: source }),
        }
    } else if id == 0x0010 {
        match SingleRootIoVirtualization::try_from(data) {
            Ok(v) => Ok(ExtendedCapabilityKind::SingleRootIoVirtualization(v)),
            Err(source) => Err(ExtendedCapabilityError::Data { offset, source: source }),
        }
    } else if id == 0x0011 {
        Ok(ExtendedCapabilityKind::MultiRootIoVirtualization(MultiRootIoVirtualization))
    } else if id == 0x0012 {
        match Multicast::try_from(bytes) {
            Ok(v) => Ok(ExtendedCapabilityKind::Multicast(v)),
            Err(source) => Err(ExtendedCapabilityError::Data { offset, source: source }),
        }
    } else if id == 0x0013 {
        match PageRequestInterface::try_from(data) {
            Ok(v) => Ok(ExtendedCapabilityKind::PageRequestInterface(v)),
            Err(source) => Err(ExtendedCapabilityError::Data { offset, source: source }),
        }
    } else if id == 0x0014 {
        Ok(ExtendedCapabilityKind::ReservedForAmd(ReservedForAmd))
    } else if id == 0x0015 {
        match ResizableBar::parse(bytes) {
            Ok(v) => Ok(ExtendedCapabilityKind::ResizableBar(v)),
            Err(source) => Err(ExtendedCapabilityError::ResizableBar { offset, source: source }),
        }
    } else if id == 0x0016 {
        match DynamicPowerAllocation::parse(bytes) {
            Ok(v) => Ok(ExtendedCapabilityKind::DynamicPowerAllocation(v)),
            Err(source) => Err(ExtendedCapabilityError::DynamicPowerAllocation { offset, source: source }),
        }
    } else if id == 0x0017 {
        match TphRequester::parse(data) {
            Ok(v) => Ok(ExtendedCapabilityKind::TphRequester(v)),
            Err(source) => Err(ExtendedCapabilityError::Data { offset, source: source }),
        }
    } else if id == 0x0018 {
        match LatencyToleranceReporting::try_from(data) {
            Ok(v) => Ok(ExtendedCapabilityKind::LatencyToleranceReporting(v)),
            Err(source) => Err(ExtendedCapabilityError::Data { offset, source: source }),
        }
    } else if id == 0x0019 {
        match SecondaryPciExpress::parse(data) {
            Ok(v) => Ok(ExtendedCapabilityKind::SecondaryPciExpress(v)),
            Err(source) => Err(ExtendedCapabilityError::Data { offset, source: source }),
        }
    } else if id == 0x001A {
        Ok(ExtendedCapabilityKind::ProtocolMultiplexing(ProtocolMultiplexing))
    } else if id == 0x001B {
        match ProcessAddressSpaceId::try_from(data) {
            Ok(v) => Ok(ExtendedCapabilityKind::ProcessAddressSpaceId(v)),
            Err(source) => Err(ExtendedCapabilityError::Data { offset, source: source }),
        }
    } else if id == 0x001C {
        Ok(ExtendedCapabilityKind::LnRequester(LnRequester))
    } else if id == 0x001D {
        match DownstreamPortContainment::try_from(data) {
            Ok(v) => Ok(ExtendedCapabilityKind::DownstreamPortContainment(v)),
            Err(source) => Err(ExtendedCapabilityError::DownstreamPortContainment { offset, source: source }),
        }
    } else if id == 0x001E {
        match L1PmSubstates::try_from(data) {
            Ok(v) => Ok(ExtendedCapabilityKind::L1PmSubstates(v)),
            Err(source) => Err(ExtendedCapabilityError::Data { offset, source: source }),
        }
    } else if id == 0x001F {
        match PrecisionTimeMeasurement::try_from(data) {
            Ok(v) => Ok(ExtendedCapabilityKind::PrecisionTimeMeasurement(v)),
            Err(source) => Err(ExtendedCapabilityError::Data { offset, source: source }),
        }
    } else if id == 0x0020 {
        Ok(ExtendedCapabilityKind::PciExpressOverMphy(PciExpressOverMphy))
    } else if id == 0x0021 {
        Ok(ExtendedCapabilityKind::FrsQueueing(FrsQueueing))
    } else if id == 0x0022 {
        Ok(ExtendedCapabilityKind::ReadinessTimeReporting(ReadinessTimeReporting))
    } else if id == 0x0023 {
        Ok(ExtendedCapabilityKind::DesignatedVendorSpecificExtendedCapability(DesignatedVendorSpecificExtendedCapability))
    } else if id == 0x0024 {
        Ok(ExtendedCapabilityKind::VfResizableBar(VfResizableBar))
    } else if id == 0x0025 {
        Ok(ExtendedCapabilityKind::DataLinkFeature(DataLinkFeature))
    } else if id == 0x0026 {
        Ok(ExtendedCapabilityKind::PhysicalLayer16GTps(PhysicalLayer16GTps))
    } else if id == 0x0027 {
        Ok(ExtendedCapabilityKind::LaneMarginingAtTheReceiver(LaneMarginingAtTheReceiver))
    } else if id == 0x0028 {
        Ok(ExtendedCapabilityKind::HierarchyId(HierarchyId))
    } else if id == 0x0029 {
        Ok(ExtendedCapabilityKind::NativePcieEnclosureManagement(NativePcieEnclosureManagement))
    } else if id == 0x002A {
        Ok(ExtendedCapabilityKind::PhysicalLayer32GTps(PhysicalLayer32GTps))
    } else if id == 0x002B {
        Ok(ExtendedCapabilityKind::AlternateProtocol(AlternateProtocol))
    } else if id == 0x002C {
        Ok(ExtendedCapabilityKind::SystemFirmwareIntermediary(SystemFirmwareIntermediary))
    } else {
        Ok(ExtendedCapabilityKind::Reserved(id))
    }
}

/// The ID of a capability that reading gives is the ID that its header holds.
pub proof fn lemma_parse_kind_id<'a>(
    id: u16,
    bytes: Seq<u8>,
    data: Seq<u8>,
    offset: u16,
    kind: ExtendedCapabilityKind<'a>,
)
    requires
        spec_parse_kind(id, bytes, data, offset, Ok(kind)),
    ensures
        kind.spec_id() == id,
{
}

/// Reading the list at an offset whose header is not zero never fails with an empty header
/// (so the list never yields that error); a capability that fails for its offset or its
/// header ends the list; any other capability moves the list on to the offset that its header
/// names, and the ID of a capability that is read is the ID that its header holds.
pub proof fn lemma_parse_ecap_steps<'a>(
    bytes: Seq<u8>,
    offset: u16,
    r: Result<ExtendedCapability<'a>, ExtendedCapabilityError>,
    next: u16,
)
    requires
        spec_parse_ecap(bytes, offset, r, next),
    ensures
        (!spec_empty_header(bytes, offset) ==> !(r matches Err(e) && (e is EmptyHeader))),
        ((r matches Err(e) && (e is Offset || e is Header)) ==> next == 0),
        (offset >= 0x100 && bytes.len() >= offset - 0x100 + 4 && !spec_empty_header(bytes, offset)
            ==> next == ExtendedCapabilityHeader::spec_from(
            le_u32(bytes, offset - 0x100),
        ).next_capability_offset),
        (r is Ok ==> r->Ok_0.kind.spec_id() == le_u16(bytes, offset - 0x100)),
{
    if offset >= 0x100 && bytes.len() >= offset - 0x100 + 4 && le_u32(bytes, offset - 0x100) != 0 {
        let at = offset - 0x100;
        let header = ExtendedCapabilityHeader::spec_from(le_u32(bytes, at));
        match r {
            Ok(c) => {
                lemma_parse_kind_id(header.extended_capability_id, bytes.skip(at), bytes.skip(at + 4), offset, c.kind);
                let (b0, b1, b2, b3) = (bytes[at], bytes[at + 1], bytes[at + 2], bytes[at + 3]);
                assert(le_u32(bytes, at) == (b0 as int + b1 as int * 0x100 + b2 as int * 0x10000 + b3 as int * 0x1000000) as u32);
                assert(le_u16(bytes, at) == (b0 as int + b1 as int * 0x100) as u16);
                let w = le_u32(bytes, at);
                assert(field(w, 0, 0xffff) == w % 0x10000) by (bit_vector);
                assert(w % 0x10000 == b0 as int + b1 as int * 0x100);
            },
            Err(e) => {
                lemma_parse_kind_error(header.extended_capability_id, bytes.skip(at), bytes.skip(at + 4), offset, e);
            },
        }
    }
}

/// Multi-Root I/O Virtualization (MR-IOV), defined in the Multi-Root I/O Virtualization and Sharing Specification
#[derive(Debug, Clone, PartialEq, Eq)]
pub struct MultiRootIoVirtualization;

/// Reserved for AMD
#[derive(Debug, Clone, PartialEq, Eq)]
pub struct ReservedForAmd;

/// Protocol Multiplexing (PMUX)
#[derive(Debug, Clone, PartialEq, Eq)]
pub struct ProtocolMultiplexing;

/// LN Requester (LNR)
#[derive(Debug, Clone, PartialEq, Eq)]
pub struct LnRequester;

/// PCI Express over M-PHY (M-PCIe)
#[derive(Debug, Clone, PartialEq, Eq)]
pub struct PciExpressOverMphy;

/// FRS Queueing
#[derive(Debug, Clone, PartialEq, Eq)]
pub struct FrsQueueing;

/// Readiness Time Reporting
#[derive(Debug, Clone, PartialEq, Eq)]
pub struct ReadinessTimeReporting;

/// Designated Vendor-Specific Extended Capability
#[derive(Debug, Clone, PartialEq, Eq)]
pub struct DesignatedVendorSpecificExtendedCapability;

/// VF Resizable BAR
#[derive(Debug, Clone, PartialEq, Eq)]
pub struct VfResizableBar;

/// Data Link Feature
#[derive(Debug, Clone, PartialEq, Eq)]
pub struct DataLinkFeature;

/// Physical Layer 16.0 GT/s
#[derive(Debug, Clone, PartialEq, Eq)]
pub struct PhysicalLayer16GTps;

/// Lane Margining at the Receiver
#[derive(Debug, Clone, PartialEq, Eq)]
pub struct LaneMarginingAtTheReceiver;

/// Hierarchy ID
#[derive(Debug, Clone, PartialEq, Eq)]
pub struct HierarchyId;

/// Native PCIe Enclosure Management (NPEM)
#[derive(Debug, Clone, PartialEq, Eq)]
pub struct NativePcieEnclosureManagement;

/// Physical Layer 32.0 GT/s
#[derive(Debug, Clone, PartialEq, Eq)]
pub struct PhysicalLayer32GTps;

/// Alternate Protocol
#[derive(Debug, Clone, PartialEq, Eq)]
pub struct AlternateProtocol;

/// System Firmware Intermediary (SFI)
#[derive(Debug, Clone, PartialEq, Eq)]
pub struct SystemFirmwareIntermediary;

/// Shadow Functions
#[derive(Debug, Clone, PartialEq, Eq)]
pub struct ShadowFunctions;

/// Data Object Exchange
#[derive(Debug, Clone, PartialEq, Eq)]
pub struct DataObjectExchange;

/// Device 3
#[derive(Debug, Clone, PartialEq, Eq)]
pub struct Device3;

/// Integrity and Data Encryption (IDE)
#[derive(Debug, Clone, PartialEq, Eq)]
pub struct IntegrityAndDataEncryption;

/// Physical Layer 64.0 GT/s
#[derive(Debug, Clone, PartialEq, Eq)]
pub struct PhysicalLayer64GTps;

/// Flit Logging
#[derive(Debug, Clone, PartialEq, Eq)]
pub struct FlitLogging;

/// Flit Performance Measurement
#[derive(Debug, Clone, PartialEq, Eq)]
pub struct FlitPerformanceMeasurement;

/// Flit Error Injection
#[derive(Debug, Clone, PartialEq, Eq)]
pub struct FlitErrorInjection;


} // verus!
