//! PCI capabilities of the device dependent region.
//!
//! Each capability in the list starts with an 8-bit capability ID assigned by the PCI-SIG and
//! an 8-bit pointer to the next capability; a null pointer ends the list.
use vstd::prelude::*;
use crate::DDR_OFFSET;
pub use self::advanced_features::AdvancedFeatures;
pub use self::bridge_subsystem_vendor_id::BridgeSubsystemVendorId;
pub use self::debug_port::DebugPort;
pub use self::hypertransport::Hypertransport;
use self::hypertransport::HypertransportError;
pub use self::message_signaled_interrups::MessageSignaledInterrups;
use self::message_signaled_interrups::MessageSignaledInterrupsError;
pub use self::msi_x::MsiX;
pub use self::pci_express::PciExpress;
use self::pci_express::PciExpressError;
pub use self::power_management_interface::PowerManagementInterface;
pub use self::sata::Sata;
pub use self::slot_identification::SlotIdentification;
pub use self::vendor_specific::VendorSpecific;
use self::vendor_specific::VendorSpecificError;
pub use self::vital_product_data::VitalProductData;

pub mod accelerated_graphics_port;
pub mod advanced_features;
pub mod bridge_subsystem_vendor_id;
pub mod debug_port;
pub mod enhanced_allocation;
pub mod flattening_portal_bridge;
pub mod hypertransport;
pub mod message_signaled_interrups;
pub mod msi_x;
pub mod pci_express;
pub mod pci_x;
pub mod power_management_interface;
pub mod sata;
pub mod slot_identification;
pub mod vendor_specific;
pub mod vital_product_data;

verus! {

/// Each capability in the capability list consists of an 8-bit ID field assigned by the PCI SIG,
/// an 8 bit pointer in configuration space to the next capability.
pub const CAP_HEADER_LEN: usize = 2;

/// 06h CompactPCI Hot Swap
#[derive(Debug, Clone, PartialEq, Eq)]
pub struct CompactPciHotSwap;

/// 0Bh CompactPCI central resource control
#[derive(Debug, Clone, PartialEq, Eq)]
pub struct CompactPciResourceControl;

/// 0Ch PCI Hot-Plug: the device conforms to the Standard Hot-Plug Controller model
#[derive(Debug, Clone, PartialEq, Eq)]
pub struct PciHotPlug;

/// 0Eh AGP 8x
#[derive(Debug, Clone, PartialEq, Eq)]
pub struct Agp8x;

/// 0Fh Secure Device
#[derive(Debug, Clone, PartialEq, Eq)]
pub struct SecureDevice;

/// Capability parsing error
#[derive(Debug, Clone, PartialEq, Eq)]
pub enum CapabilityError {
    /// Capabilities pointer should be greater than 0x40
    Pointer,
    /// Capability header is not available
    Header { ptr: u8 },
    /// Capability data read error
    Data { ptr: u8, source: CapabilityDataError },
    /// Message Signaled Interrupts error
    MessageSignaledInterrups { ptr: u8, source: MessageSignaledInterrupsError },
    /// HyperTransport error
    Hypertransport { ptr: u8, source: HypertransportError },
    /// PCI Express error
    PciExpress { ptr: u8, source: PciExpressError },
    /// Vendor Specific error
    VendorSpecific { ptr: u8, source: VendorSpecificError },
}

/// Common error for reading capability data
#[derive(Debug, Clone, Copy, PartialEq, Eq)]
pub struct CapabilityDataError {
    pub name: &'static str,
    pub size: usize,
}

/// An iterator through the Capabilities List: the data of the device dependent region and
/// the pointer to the next capability
#[derive(Debug, Clone, Copy, PartialEq, Eq)]
pub struct Capabilities<'a> {
    data: &'a [u8],
    pointer: u8,
}

impl<'a> Capabilities<'a> {
    /// The device dependent region that the list lies in.
    pub closed spec fn spec_data(&self) -> Seq<u8> {
        self.data@
    }

    /// The pointer to the next capability; zero once the list ends.
    pub closed spec fn spec_pointer(&self) -> u8 {
        self.pointer
    }

    /// The list in the device dependent region `data` that starts at `pointer`.
    pub fn new(data: &'a [u8], pointer: u8) -> (r: Self)
        ensures
            r.spec_data() == data@,
            r.spec_pointer() == pointer,
    {
        Capabilities { data, pointer }
    }

    /// Reads the capability at the pointer, unless the pointer is null.
    pub fn next(&mut self) -> (r: Option<Result<Capability<'a>, CapabilityError>>)
        requires
            old(self).spec_pointer() != 0 ==> !spec_invalid_capability(
                old(self).spec_data(),
                old(self).spec_pointer(),
            ),
        ensures
            old(self).spec_pointer() == 0 <==> r is None,
            final(self).spec_data() == old(self).spec_data(),
            r matches Some(c) ==> spec_parse_cap(
                old(self).spec_data(),
                old(self).spec_pointer(),
                c,
                final(self).spec_pointer(),
            ),
            r is None ==> final(self).spec_pointer() == 0,
    {
        if self.pointer == 0 {
            return None;
        }
        let mut pointer = self.pointer;
        let r = parse_cap(self.data, &mut pointer);
        self.pointer = pointer;
        Some(r)
    }
}

/// Whether the capability at `pointer` in `bytes` is one that cannot be read: a Power
/// Management Interface capability whose Data Select field holds a pattern that no
/// DataSelect stands for.
pub open spec fn spec_invalid_capability(bytes: Seq<u8>, pointer: u8) -> bool {
    let offset = pointer - DDR_OFFSET;
    &&& pointer >= DDR_OFFSET
    &&& bytes.len() >= offset + 2
    &&& bytes[offset] == 0x01
    &&& PowerManagementInterface::spec_invalid_data_select(bytes.skip(offset + 2))
}

/// Whether the capability at `pointer` in the device dependent region `bytes` is one that
/// cannot be read (see `spec_invalid_capability`): a list can be walked with `next` as long as
/// this is false for its next pointer.
pub fn is_invalid_capability(bytes: &[u8], pointer: u8) -> (r: bool)
    ensures
        r == spec_invalid_capability(bytes@, pointer),
{
    if (pointer as usize) < DDR_OFFSET {
        return false;
    }
    let offset = pointer as usize - DDR_OFFSET;
    if bytes.len() < offset + 2 || bytes[offset] != 0x01 {
        return false;
    }
    let data = &bytes[offset + 2..bytes.len()];
    assert(data@ == bytes@.skip(offset + 2));
    PowerManagementInterface::is_invalid_data_select(data)
}

/// The error `e` of reading capability data, for the capability at `ptr`.
pub open spec fn data_error<T>(r: Result<T, CapabilityDataError>, ptr: u8) -> Result<
    T,
    CapabilityError,
> {
    match r {
        Ok(v) => Ok(v),
        Err(e) => Err(CapabilityError::Data { ptr, source: e }),
    }
}

/// Whether `r` is what reading the capability with ID `id` from its data `data` gives, for
/// the capability at `ptr`.
pub open spec fn spec_parse_kind<'a>(
    id: u8,
    data: Seq<u8>,
    ptr: u8,
    r: Result<CapabilityKind<'a>, CapabilityError>,
) -> bool {
    if id == 0x09 {
        if data.len() == 0 || data[0] == 0 {
            r == Err::<CapabilityKind<'a>, CapabilityError>(
                CapabilityError::VendorSpecific { ptr, source: VendorSpecificError::Length },
            )
        } else if data.len() < data[0] + 1 {
            r == Err::<CapabilityKind<'a>, CapabilityError>(
                CapabilityError::VendorSpecific {
                    ptr,
                    source: VendorSpecificError::Data { size: data[0] as usize },
                },
            )
        } else {
            r matches Ok(CapabilityKind::VendorSpecific(v)) && v.0@ == data.subrange(
                1,
                data[0] + 1,
            )
        }
    } else {
        r == spec_parse_other_kind::<'a>(id, data, ptr)
    }
}

/// What reading the capability with ID `id` (other than Vendor Specific) from its data `data`
/// gives, for the capability at `ptr`.
pub open spec fn spec_parse_other_kind<'a>(id: u8, data: Seq<u8>, ptr: u8) -> Result<
    CapabilityKind<'a>,
    CapabilityError,
> {
    if id == 0x00 {
        Ok(CapabilityKind::NullCapability)
    } else if id == 0x01 {
        match PowerManagementInterface::spec_parse(data) {
            Ok((v, _)) => Ok(CapabilityKind::PowerManagementInterface(v)),
            Err(e) => Err(CapabilityError::Data { ptr, source: e }),
        }
    } else if id == 0x03 {
        match data_error(VitalProductData::spec_parse(data), ptr) {
            Ok(v) => Ok(CapabilityKind::VitalProductData(v)),
            Err(e) => Err(e),
        }
    } else if id == 0x04 {
        match data_error(SlotIdentification::spec_parse(data), ptr) {
            Ok(v) => Ok(CapabilityKind::SlotIdentification(v)),
            Err(e) => Err(e),
        }
    } else if id == 0x05 {
        match MessageSignaledInterrups::spec_parse(data) {
            Ok(v) => Ok(CapabilityKind::MessageSignaledInterrups(v)),
            Err(e) => Err(CapabilityError::MessageSignaledInterrups { ptr, source: e }),
        }
    } else if id == 0x06 {
        Ok(CapabilityKind::CompactPciHotSwap(CompactPciHotSwap))
    } else if id == 0x08 {
        match Hypertransport::spec_parse(data) {
            Ok(v) => Ok(CapabilityKind::Hypertransport(v)),
            Err(e) => Err(CapabilityError::Hypertransport { ptr, source: e }),
        }
    } else if id == 0x0a {
        match data_error(DebugPort::spec_parse(data), ptr) {
            Ok(v) => Ok(CapabilityKind::DebugPort(v)),
            Err(e) => Err(e),
        }
    } else if id == 0x0b {
        Ok(CapabilityKind::CompactPciResourceControl(CompactPciResourceControl))
    } else if id == 0x0c {
        Ok(CapabilityKind::PciHotPlug(PciHotPlug))
    } else if id == 0x0d {
        match data_error(BridgeSubsystemVendorId::spec_parse(data), ptr) {
            Ok(v) => Ok(CapabilityKind::BridgeSubsystemVendorId(v)),
            Err(e) => Err(e),
        }
    } else if id == 0x0e {
        Ok(CapabilityKind::Agp8x(Agp8x))
    } else if id == 0x0f {
        Ok(CapabilityKind::SecureDevice(SecureDevice))
    } else if id == 0x10 {
        match PciExpress::spec_parse(data) {
            Ok(v) => Ok(CapabilityKind::PciExpress(v)),
            Err(e) => Err(CapabilityError::PciExpress { ptr, source: e }),
        }
    } else if id == 0x11 {
        match data_error(MsiX::spec_parse(data), ptr) {
            Ok(v) => Ok(CapabilityKind::MsiX(v)),
            Err(e) => Err(e),
        }
    } else if id == 0x12 {
        match data_error(Sata::spec_parse(data), ptr) {
            Ok(v) => Ok(CapabilityKind::Sata(v)),
            Err(e) => Err(e),
        }
    } else if id == 0x13 {
        match data_error(AdvancedFeatures::spec_parse(data), ptr) {
            Ok(v) => Ok(CapabilityKind::AdvancedFeatures(v)),
            Err(e) => Err(e),
        }
    } else {
        Ok(CapabilityKind::Reserved(id))
    }
}

/// Whether reading the capability at `pointer` in the device dependent region `bytes` gives
/// `r` and leaves the pointer `next`: a pointer below the region fails and ends the list, a
/// header beyond the region fails and ends the list too, and otherwise the pointer moves to
/// the next capability that the header names.
pub open spec fn spec_parse_cap<'a>(
    bytes: Seq<u8>,
    pointer: u8,
    r: Result<Capability<'a>, CapabilityError>,
    next: u8,
) -> bool {
    let offset = pointer - DDR_OFFSET;
    if pointer < DDR_OFFSET {
        r == Err::<Capability<'a>, CapabilityError>(CapabilityError::Pointer) && next == 0
    } else if bytes.len() < offset + 2 {
        r == Err::<Capability<'a>, CapabilityError>(CapabilityError::Header { ptr: pointer })
            && next == 0
    } else {
        &&& next == bytes[offset + 1]
        &&& match r {
            Ok(c) => c.pointer == pointer && spec_parse_kind(
                bytes[offset],
                bytes.skip(offset + 2),
                pointer,
                Ok::<CapabilityKind<'a>, CapabilityError>(c.kind),
            ),
            Err(e) => spec_parse_kind(
                bytes[offset],
                bytes.skip(offset + 2),
                pointer,
                Err::<CapabilityKind<'a>, CapabilityError>(e),
            ),
        }
    }
}

/// A capability that fails for its pointer or its header ends the list: the pointer it leaves
/// is null.
pub proof fn lemma_parse_cap_pointer_or_header_error_ends_list<'a>(
    bytes: Seq<u8>,
    pointer: u8,
    r: Result<Capability<'a>, CapabilityError>,
    next: u8,
)
    requires
        spec_parse_cap(bytes, pointer, r, next),
        r matches Err(e) && (e is Pointer || e is Header),
    ensures
        next == 0,
{
}

fn map_data_error<T>(r: Result<T, CapabilityDataError>, ptr: u8) -> (o: Result<T, CapabilityError>)
    ensures
        o == data_error(r, ptr),
{
    match r {
        Ok(v) => Ok(v),
        Err(e) => Err(CapabilityError::Data { ptr, source: e }),
    }
}

fn parse_kind<'a>(id: u8, data: &'a [u8], ptr: u8) -> (r: Result<CapabilityKind<'a>, CapabilityError>)
    requires
        !(id == 0x01 && PowerManagementInterface::spec_invalid_data_select(data@)),
    ensures
        spec_parse_kind(id, data@, ptr, r),
{
    if id == 0x00 {
        Ok(CapabilityKind::NullCapability)
    } else if id == 0x01 {
        match PowerManagementInterface::try_read(data) {
            Ok((v, _)) => Ok(CapabilityKind::PowerManagementInterface(v)),
            Err(e) => Err(CapabilityError::Data { ptr, source: e }),
        }
    } else if id == 0x03 {
        match map_data_error(VitalProductData::try_from(data), ptr) {
            Ok(v) => Ok(CapabilityKind::VitalProductData(v)),
            Err(e) => Err(e),
        }
    } else if id == 0x04 {
        match map_data_error(SlotIdentification::try_from(data), ptr) {
            Ok(v) => Ok(CapabilityKind::SlotIdentification(v)),
            Err(e) => Err(e),
        }
    } else if id == 0x05 {
        match MessageSignaledInterrups::try_from(data) {
            Ok(v) => Ok(CapabilityKind::MessageSignaledInterrups(v)),
            Err(e) => Err(CapabilityError::MessageSignaledInterrups { ptr, source: e }),
        }
    } else if id == 0x06 {
        Ok(CapabilityKind::CompactPciHotSwap(CompactPciHotSwap))
    } else if id == 0x08 {
        match Hypertransport::try_from(data) {
            Ok(v) => Ok(CapabilityKind::Hypertransport(v)),
            Err(e) => Err(CapabilityError::Hypertransport { ptr, source: e }),
        }
    } else if id == 0x09 {
        match VendorSpecific::parse(data) {
            Ok(v) => Ok(CapabilityKind::VendorSpecific(v)),
            Err(e) => Err(CapabilityError::VendorSpecific { ptr, source: e }),
        }
    } else if id == 0x0a {
        match map_data_error(DebugPort::try_from(data), ptr) {
            Ok(v) => Ok(CapabilityKind::DebugPort(v)),
            Err(e) => Err(e),
        }
    } else if id == 0x0b {
        Ok(CapabilityKind::CompactPciResourceControl(CompactPciResourceControl))
    } else if id == 0x0c {
        Ok(CapabilityKind::PciHotPlug(PciHotPlug))
    } else if id == 0x0d {
        match map_data_error(BridgeSubsystemVendorId::try_from(data), ptr) {
            Ok(v) => Ok(CapabilityKind::BridgeSubsystemVendorId(v)),
            Err(e) => Err(e),
        }
    } else if id == 0x0e {
        Ok(CapabilityKind::Agp8x(Agp8x))
    } else if id == 0x0f {
        Ok(CapabilityKind::SecureDevice(SecureDevice))
    } else if id == 0x10 {
        match PciExpress::try_from(data) {
            Ok(v) => Ok(CapabilityKind::PciExpress(v)),
            Err(e) => Err(CapabilityError::PciExpress { ptr, source: e }),
        }
    } else if id == 0x11 {
        match map_data_error(MsiX::try_from(data), ptr) {
            Ok(v) => Ok(CapabilityKind::MsiX(v)),
            Err(e) => Err(e),
        }
    } else if id == 0x12 {
        match map_data_error(Sata::try_from(data), ptr) {
            Ok(v) => Ok(CapabilityKind::Sata(v)),
            Err(e) => Err(e),
        }
    } else if id == 0x13 {
        match map_data_error(AdvancedFeatures::try_from(data), ptr) {
            Ok(v) => Ok(CapabilityKind::AdvancedFeatures(v)),
            Err(e) => Err(e),
        }
    } else {
        Ok(CapabilityKind::Reserved(id))
    }
}

/// Reads the capability at `*pointer` in the device dependent region `bytes` and moves the
/// pointer on (see `spec_parse_cap`).
fn parse_cap<'a>(bytes: &'a [u8], pointer: &mut u8) -> (r: Result<Capability<'a>, CapabilityError>)
    requires
        !spec_invalid_capability(bytes@, *old(pointer)),
    ensures
        spec_parse_cap(bytes@, *old(pointer), r, *final(pointer)),
{
    let ptr = *pointer;
    if (ptr as usize) < DDR_OFFSET {
        *pointer = 0;
        return Err(CapabilityError::Pointer);
    }
    let offset = ptr as usize - DDR_OFFSET;
    if bytes.len() < offset + 2 {
        *pointer = 0;
        return Err(CapabilityError::Header { ptr });
    }
    let id = bytes[offset];
    *pointer = bytes[offset + 1];
    let cap_data = &bytes[offset + 2..bytes.len()];
    assert(cap_data@ == bytes@.skip(offset + 2));
    match parse_kind(id, cap_data, ptr) {
        Ok(kind) => Ok(Capability { pointer: ptr, kind }),
        Err(e) => Err(e),
    }
}

/// Capability structure
#[derive(Debug, PartialEq, Eq)]
pub struct Capability<'a> {
    /// Offset of the capability in the configuration space
    pub pointer: u8,
    pub kind: CapabilityKind<'a>,
}

impl<'a> Capability<'a> {
    /// Size of the capability header: the ID and the pointer to the next capability
    pub const HEADER_SIZE: usize = 2;
}

/// Capability ID assigned by the PCI-SIG
#[derive(Debug, PartialEq, Eq)]
pub enum CapabilityKind<'a> {
    /// 00h Null Capability: contains no registers
    NullCapability,
    /// 01h PCI Power Management Interface
    PowerManagementInterface(PowerManagementInterface),
    /// 03h VPD
    VitalProductData(VitalProductData),
    /// 04h Slot Identification
    SlotIdentification(SlotIdentification),
    /// 05h Message Signaled Interrupts
    MessageSignaledInterrups(MessageSignaledInterrups),
    /// 06h CompactPCI Hot Swap
    CompactPciHotSwap(CompactPciHotSwap),
    /// 08h HyperTransport
    Hypertransport(Hypertransport),
    /// 09h Vendor Specific
    VendorSpecific(VendorSpecific<'a>),
    /// 0Ah Debug port
    DebugPort(DebugPort),
    /// 0Bh CompactPCI central resource control
    CompactPciResourceControl(CompactPciResourceControl),
    /// 0Ch PCI Hot-Plug
    PciHotPlug(PciHotPlug),
    /// 0Dh PCI Bridge Subsystem Vendor ID
    BridgeSubsystemVendorId(BridgeSubsystemVendorId),
    /// 0Eh AGP 8x
    Agp8x(Agp8x),
    /// 0Fh Secure Device
    SecureDevice(SecureDevice),
    /// 10h PCI Express
    PciExpress(PciExpress),
    /// 11h MSI-X
    MsiX(MsiX),
    /// 12h Serial ATA Data/Index Configuration
    Sata(Sata),
    /// 13h Advanced Features
    AdvancedFeatures(AdvancedFeatures),
    /// Reserved capability ID
    Reserved(u8),
}

} // verus!
