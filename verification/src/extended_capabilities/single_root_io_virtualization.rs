//! Single Root I/O Virtualization (SR-IOV) extended capability.
use vstd::prelude::*;
use crate::bits::{field, flag, get_flag, get_u16, le_u16, le_u32, read_u16, read_u32};
use super::ExtendedCapabilityDataError;

verus! {

broadcast use crate::bits::lemma_field_le_mask;

/// Single Root I/O Virtualization errors
#[derive(Debug, Clone, PartialEq, Eq)]
pub enum SingleRootIoVirtualizationError {
    /// The Element Self Description (4 bytes) is not there
    ElementSelfDescription,
    /// Not one Link Entry (4 bytes) is there
    LinkEntries,
}

/// The six Base Address registers of the VFs, as double words
#[derive(Debug, Clone, PartialEq, Eq)]
pub struct BaseAddressesNormal(pub [u32; 6]);

/// Single Root I/O Virtualization capability
#[derive(Debug, Clone, PartialEq, Eq)]
pub struct SingleRootIoVirtualization {
    /// SR-IOV Capabilities
    pub sriov_capabilities: SriovCapabilities,
    /// SR-IOV Control
    pub sriov_control: SriovControl,
    /// SR-IOV Status
    pub sriov_status: SriovStatus,
    /// InitialVFs
    pub initial_vfs: u16,
    /// TotalVFs
    pub total_vfs: u16,
    /// NumVFs
    pub num_vfs: u16,
    /// Function Dependency Link
    pub function_dependency_link: u8,
    /// First VF Offset
    pub first_vf_offset: u16,
    /// VF Stride
    pub vf_stride: u16,
    /// VF Device ID
    pub vf_device_id: u16,
    pub page_sizes: PageSizes,
    pub base_addresses: BaseAddressesNormal,
    /// VF Migration State Array Offset
    pub vf_migration_state_array_offset: u32,
}

impl SingleRootIoVirtualization {
    /// Size of the registers after the extended capability header
    pub const BYTES: usize = 0x40 - super::ECH_BYTES;

    /// The capability that `bytes` (at least 60 bytes after the extended capability header)
    /// holds.
    pub open spec fn spec_from_bytes(bytes: Seq<u8>) -> Self {
        SingleRootIoVirtualization {
            sriov_capabilities: SriovCapabilities::spec_from(le_u32(bytes, 0)),
            sriov_control: SriovControl::spec_from(le_u16(bytes, 4)),
            sriov_status: SriovStatus::spec_from(le_u16(bytes, 6)),
            initial_vfs: le_u16(bytes, 8),
            total_vfs: le_u16(bytes, 10),
            num_vfs: le_u16(bytes, 12),
            function_dependency_link: bytes[14],
            first_vf_offset: le_u16(bytes, 16),
            vf_stride: le_u16(bytes, 18),
            vf_device_id: le_u16(bytes, 22),
            page_sizes: PageSizes { supported: le_u32(bytes, 24), system: le_u32(bytes, 28) },
            base_addresses: BaseAddressesNormal(
                [
                    le_u32(bytes, 32),
                    le_u32(bytes, 36),
                    le_u32(bytes, 40),
                    le_u32(bytes, 44),
                    le_u32(bytes, 48),
                    le_u32(bytes, 52),
                ],
            ),
            vf_migration_state_array_offset: le_u32(bytes, 56),
        }
    }

    /// The capability that `bytes` (the data after the extended capability header) holds.
    pub open spec fn spec_parse(bytes: Seq<u8>) -> Result<Self, ExtendedCapabilityDataError> {
        if bytes.len() < 60 {
            Err(ExtendedCapabilityDataError { name: "Single Root I/O Virtualization", size: 60 })
        } else {
            Ok(Self::spec_from_bytes(bytes))
        }
    }

    fn read(s: &[u8]) -> (r: Self)
        requires
            s.len() >= 60,
        ensures
            r == Self::spec_from_bytes(s@),
    {
        SingleRootIoVirtualization {
            sriov_capabilities: SriovCapabilities::from(read_u32(s, 0)),
            sriov_control: SriovControl::from(read_u16(s, 4)),
            sriov_status: SriovStatus::from(read_u16(s, 6)),
            initial_vfs: read_u16(s, 8),
            total_vfs: read_u16(s, 10),
            num_vfs: read_u16(s, 12),
            function_dependency_link: s[14],
            first_vf_offset: read_u16(s, 16),
            vf_stride: read_u16(s, 18),
            vf_device_id: read_u16(s, 22),
            page_sizes: PageSizes { supported: read_u32(s, 24), system: read_u32(s, 28) },
            base_addresses: BaseAddressesNormal(
                [
                    read_u32(s, 32),
                    read_u32(s, 36),
                    read_u32(s, 40),
                    read_u32(s, 44),
                    read_u32(s, 48),
                    read_u32(s, 52),
                ],
            ),
            vf_migration_state_array_offset: read_u32(s, 56),
        }
    }
}

impl vstd::std_specs::convert::FromSpecImpl<[u8; 60]> for SingleRootIoVirtualization {
    open spec fn obeys_from_spec() -> bool {
        true
    }

    open spec fn from_spec(bytes: [u8; 60]) -> Self {
        Self::spec_from_bytes(bytes@)
    }
}

impl From<[u8; 60]> for SingleRootIoVirtualization {
    fn from(bytes: [u8; 60]) -> (r: Self) {
        Self::read(bytes.as_slice())
    }
}

impl vstd::std_specs::convert::TryFromSpecImpl<&[u8]> for SingleRootIoVirtualization {
    open spec fn obeys_try_from_spec() -> bool {
        true
    }

    open spec fn try_from_spec(slice: &[u8]) -> Result<Self, Self::Error> {
        Self::spec_parse(slice@)
    }
}

impl TryFrom<&[u8]> for SingleRootIoVirtualization {
    type Error = ExtendedCapabilityDataError;

    fn try_from(slice: &[u8]) -> (r: Result<Self, Self::Error>) {
        if slice.len() < Self::BYTES {
            return Err(
                ExtendedCapabilityDataError { name: "Single Root I/O Virtualization", size: Self::BYTES },
            );
        }
        Ok(Self::read(slice))
    }
}

/// SR-IOV Capabilities register
#[derive(Debug, Clone, PartialEq, Eq)]
pub struct SriovCapabilities {
    /// VF Migration Capable
    pub vf_migration_capable: bool,
    /// ARI Capable Hierarchy Preserved
    pub ari_capable_hierarchy_preserved: bool,
    /// VF 10-Bit Tag Requester Supported
    pub vf_10bit_tag_requester_supported: bool,
    /// VF Migration Interrupt Message Number
    pub vf_migration_interrupt_message_number: u16,
}

impl SriovCapabilities {
    /// The fields of the register value `dword`.
    pub open spec fn spec_from(dword: u32) -> Self {
        SriovCapabilities {
            vf_migration_capable: flag(dword, 0),
            ari_capable_hierarchy_preserved: flag(dword, 1),
            vf_10bit_tag_requester_supported: flag(dword, 2),
            vf_migration_interrupt_message_number: field(dword, 21, 0x7ff) as u16,
        }
    }
}

impl vstd::std_specs::convert::FromSpecImpl<u32> for SriovCapabilities {
    open spec fn obeys_from_spec() -> bool {
        true
    }

    open spec fn from_spec(dword: u32) -> Self {
        Self::spec_from(dword)
    }
}

impl From<u32> for SriovCapabilities {
    fn from(dword: u32) -> (r: Self) {
        SriovCapabilities {
            vf_migration_capable: get_flag(dword, 0),
            ari_capable_hierarchy_preserved: get_flag(dword, 1),
            vf_10bit_tag_requester_supported: get_flag(dword, 2),
            vf_migration_interrupt_message_number: get_u16(dword, 21, 0x7ff),
        }
    }
}

/// SR-IOV Control register
#[derive(Debug, Clone, PartialEq, Eq)]
pub struct SriovControl {
    /// VF Enable
    pub vf_enable: bool,
    /// VF Migration Enable
    pub vf_migration_enable: bool,
    /// VF Migration Interrupt Enable
    pub vf_migration_interrupt_enable: bool,
    /// VF MSE
    pub vf_mse: bool,
    /// ARI Capable Hierarchy
    pub ari_capable_hierarchy: bool,
    /// VF 10-Bit Tag Requester Enable
    pub vf_10bit_tag_requester_enable: bool,
}

impl SriovControl {
    /// The fields of the register value `word`.
    pub open spec fn spec_from(word: u16) -> Self {
        SriovControl {
            vf_enable: flag(word as u32, 0),
            vf_migration_enable: flag(word as u32, 1),
            vf_migration_interrupt_enable: flag(word as u32, 2),
            vf_mse: flag(word as u32, 3),
            ari_capable_hierarchy: flag(word as u32, 4),
            vf_10bit_tag_requester_enable: flag(word as u32, 5),
        }
    }
}

impl vstd::std_specs::convert::FromSpecImpl<u16> for SriovControl {
    open spec fn obeys_from_spec() -> bool {
        true
    }

    open spec fn from_spec(word: u16) -> Self {
        Self::spec_from(word)
    }
}

impl From<u16> for SriovControl {
    fn from(word: u16) -> (r: Self) {
        let w = word as u32;
        SriovControl {
            vf_enable: get_flag(w, 0),
            vf_migration_enable: get_flag(w, 1),
            vf_migration_interrupt_enable: get_flag(w, 2),
            vf_mse: get_flag(w, 3),
            ari_capable_hierarchy: get_flag(w, 4),
            vf_10bit_tag_requester_enable: get_flag(w, 5),
        }
    }
}

/// SR-IOV Status register
#[derive(Debug, Clone, PartialEq, Eq)]
pub struct SriovStatus {
    /// VF Migration Status
    pub vf_migration_status: bool,
}

impl SriovStatus {
    /// The fields of the register value `word`.
    pub open spec fn spec_from(word: u16) -> Self {
        SriovStatus {
            vf_migration_status: flag(word as u32, 0),
        }
    }
}

impl vstd::std_specs::convert::FromSpecImpl<u16> for SriovStatus {
    open spec fn obeys_from_spec() -> bool {
        true
    }

    open spec fn from_spec(word: u16) -> Self {
        Self::spec_from(word)
    }
}

impl From<u16> for SriovStatus {
    fn from(word: u16) -> (r: Self) {
        let w = word as u32;
        SriovStatus {
            vf_migration_status: get_flag(w, 0),
        }
    }
}

/// The page sizes that the system may use to map the memory of the VFs
#[derive(Debug, Clone, PartialEq, Eq)]
pub struct PageSizes {
    /// Supported Page Sizes
    pub supported: u32,
    /// System Page Size
    pub system: u32,
}

} // verus!
