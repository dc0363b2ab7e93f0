//! PCI Express over M-PHY (M-PCIe) extended capability.
//!
//! The capability is read from data that starts with its extended capability header.
use vstd::prelude::*;
use crate::bits::{field, flag, get_flag, get_u8, le_u32, read_u32};
use super::ExtendedCapabilityDataError;

verus! {

broadcast use crate::bits::lemma_field_le_mask;

/// M-PCIe capability
#[derive(Debug, Clone, PartialEq, Eq)]
pub struct PciExpressOverMphy {
    pub mpcie_capabilities: MpcieCapabilities,
    pub mpcie_control: MpcieControl,
    pub mpcie_status: MpcieStatus,
    pub mpcie_lane_error_status: u32,
    pub mpcie_phy_control_address: MpciePhyControlAddress,
    pub mpcie_phy_control_data: MpciePhyControlData,
}

impl PciExpressOverMphy {
    /// Size in bytes, with the extended capability header
    pub const SIZE: usize = 0x1C;

    /// The capability that `bytes` (data that starts with the extended capability header) holds.
    pub open spec fn spec_parse(bytes: Seq<u8>) -> Result<Self, ExtendedCapabilityDataError> {
        if bytes.len() < 28 {
            Err(ExtendedCapabilityDataError { name: "M-PCIe", size: 0x1C })
        } else {
            Ok(PciExpressOverMphy {
                mpcie_capabilities: MpcieCapabilities::spec_from(le_u32(bytes, 4)),
                mpcie_control: MpcieControl::spec_from(le_u32(bytes, 8)),
                mpcie_status: MpcieStatus::spec_from(le_u32(bytes, 12)),
                mpcie_lane_error_status: le_u32(bytes, 16),
                mpcie_phy_control_address: MpciePhyControlAddress::spec_from(le_u32(bytes, 20)),
                mpcie_phy_control_data: MpciePhyControlData::spec_from(le_u32(bytes, 24)),
            })
        }
    }
}

impl vstd::std_specs::convert::TryFromSpecImpl<&[u8]> for PciExpressOverMphy {
    open spec fn obeys_try_from_spec() -> bool {
        true
    }

    open spec fn try_from_spec(slice: &[u8]) -> Result<Self, Self::Error> {
        Self::spec_parse(slice@)
    }
}

impl TryFrom<&[u8]> for PciExpressOverMphy {
    type Error = ExtendedCapabilityDataError;

    fn try_from(slice: &[u8]) -> (r: Result<Self, Self::Error>) {
        if slice.len() < Self::SIZE {
            return Err(ExtendedCapabilityDataError { name: "M-PCIe", size: Self::SIZE });
        }
        Ok(PciExpressOverMphy {
            mpcie_capabilities: MpcieCapabilities::from(read_u32(slice, 4)),
            mpcie_control: MpcieControl::from(read_u32(slice, 8)),
            mpcie_status: MpcieStatus::from(read_u32(slice, 12)),
            mpcie_lane_error_status: read_u32(slice, 16),
            mpcie_phy_control_address: MpciePhyControlAddress::from(read_u32(slice, 20)),
            mpcie_phy_control_data: MpciePhyControlData::from(read_u32(slice, 24)),
        })
    }
}

/// M-PCIe Capabilities register
#[derive(Debug, Clone, PartialEq, Eq)]
pub struct MpcieCapabilities {
    /// M-PCIe Link Speed Capability
    pub mpcie_link_speed_capability: MpcieLinkSpeed,
    /// Configuration.Software Supported
    pub configuration_software_supported: bool,
    /// Maximum TX LANE Width Capability
    pub maximum_tx_lane_width_capability: LaneWidthSupported,
    /// Maximum RX LANE Width Capability
    pub maximum_rx_lane_width_capability: LaneWidthSupported,
}

impl MpcieCapabilities {
    /// The fields of the register value `dword`.
    pub open spec fn spec_from(dword: u32) -> Self {
        MpcieCapabilities {
            mpcie_link_speed_capability: MpcieLinkSpeed::spec_from(field(dword, 0, 0x3) as u8),
            configuration_software_supported: flag(dword, 15),
            maximum_tx_lane_width_capability: LaneWidthSupported::spec_from(field(dword, 16, 0xff) as u8),
            maximum_rx_lane_width_capability: LaneWidthSupported::spec_from(field(dword, 24, 0xff) as u8),
        }
    }
}

impl vstd::std_specs::convert::FromSpecImpl<u32> for MpcieCapabilities {
    open spec fn obeys_from_spec() -> bool {
        true
    }

    open spec fn from_spec(dword: u32) -> Self {
        Self::spec_from(dword)
    }
}

impl From<u32> for MpcieCapabilities {
    fn from(dword: u32) -> (r: Self) {
        MpcieCapabilities {
            mpcie_link_speed_capability: MpcieLinkSpeed::from(get_u8(dword, 0, 0x3)),
            configuration_software_supported: get_flag(dword, 15),
            maximum_tx_lane_width_capability: LaneWidthSupported::from(get_u8(dword, 16, 0xff)),
            maximum_rx_lane_width_capability: LaneWidthSupported::from(get_u8(dword, 24, 0xff)),
        }
    }
}

/// M-PCIe Control register
#[derive(Debug, Clone, PartialEq, Eq)]
pub struct MpcieControl {
    /// M-PCIe Target Link Speed Control
    pub mpcie_target_link_speed_control: MpcieLinkSpeed,
}

impl MpcieControl {
    /// The fields of the register value `dword`.
    pub open spec fn spec_from(dword: u32) -> Self {
        MpcieControl {
            mpcie_target_link_speed_control: MpcieLinkSpeed::spec_from(field(dword, 0, 0x3) as u8),
        }
    }
}

impl vstd::std_specs::convert::FromSpecImpl<u32> for MpcieControl {
    open spec fn obeys_from_spec() -> bool {
        true
    }

    open spec fn from_spec(dword: u32) -> Self {
        Self::spec_from(dword)
    }
}

impl From<u32> for MpcieControl {
    fn from(dword: u32) -> (r: Self) {
        MpcieControl {
            mpcie_target_link_speed_control: MpcieLinkSpeed::from(get_u8(dword, 0, 0x3)),
        }
    }
}

/// M-PCIe Status register
#[derive(Debug, Clone, PartialEq, Eq)]
pub struct MpcieStatus {
    /// M-PCIe Current Link Speed Status
    pub mpcie_current_link_speed_status: MpcieLinkSpeed,
    /// M-PCIe Configuration.Software Status
    pub mpcie_configuration_software_status: bool,
    /// TX LANE Width Status
    pub tx_lane_width_status: LaneWidthStatus,
    /// RX LANE Width Status
    pub rx_lane_width_status: LaneWidthStatus,
}

impl MpcieStatus {
    /// The fields of the register value `dword`.
    pub open spec fn spec_from(dword: u32) -> Self {
        MpcieStatus {
            mpcie_current_link_speed_status: MpcieLinkSpeed::spec_from(field(dword, 0, 0x3) as u8),
            mpcie_configuration_software_status: flag(dword, 15),
            tx_lane_width_status: LaneWidthStatus::spec_from(field(dword, 16, 0xff) as u8),
            rx_lane_width_status: LaneWidthStatus::spec_from(field(dword, 24, 0xff) as u8),
        }
    }
}

impl vstd::std_specs::convert::FromSpecImpl<u32> for MpcieStatus {
    open spec fn obeys_from_spec() -> bool {
        true
    }

    open spec fn from_spec(dword: u32) -> Self {
        Self::spec_from(dword)
    }
}

impl From<u32> for MpcieStatus {
    fn from(dword: u32) -> (r: Self) {
        MpcieStatus {
            mpcie_current_link_speed_status: MpcieLinkSpeed::from(get_u8(dword, 0, 0x3)),
            mpcie_configuration_software_status: get_flag(dword, 15),
            tx_lane_width_status: LaneWidthStatus::from(get_u8(dword, 16, 0xff)),
            rx_lane_width_status: LaneWidthStatus::from(get_u8(dword, 24, 0xff)),
        }
    }
}

/// M-PCIe Phy Control Address register
#[derive(Debug, Clone, PartialEq, Eq)]
pub struct MpciePhyControlAddress {
    /// Lower Addr[7:0] of an RRAP packet
    pub lower_addr: u8,
    /// Upper Addr[5:0] of an RRAP packet
    pub upper_addr: u8,
    pub phy_location: PhyLocation,
    /// Starts a read of the register that Phy Location, UpperAddr and LowerAddr name
    pub read: bool,
    /// The Downstream Port LTSSM stays in the Configuration.Software state
    pub config: bool,
}

impl MpciePhyControlAddress {
    /// The fields of the register value `dword`: the upper address has bits 16 to 20 and bit
    /// 24 as its bit 5.
    pub open spec fn spec_from(dword: u32) -> Self {
        MpciePhyControlAddress {
            lower_addr: field(dword, 0, 0xff) as u8,
            upper_addr: (field(dword, 16, 0x1f) as u8) | ((field(dword, 24, 0x1) as u8) << 5u8),
            phy_location: PhyLocation::spec_from(field(dword, 25, 0x7) as u8),
            read: flag(dword, 30),
            config: flag(dword, 31),
        }
    }
}

impl vstd::std_specs::convert::FromSpecImpl<u32> for MpciePhyControlAddress {
    open spec fn obeys_from_spec() -> bool {
        true
    }

    open spec fn from_spec(dword: u32) -> Self {
        Self::spec_from(dword)
    }
}

impl From<u32> for MpciePhyControlAddress {
    fn from(dword: u32) -> (r: Self) {
        MpciePhyControlAddress {
            lower_addr: get_u8(dword, 0, 0xff),
            upper_addr: get_u8(dword, 16, 0x1f) | (get_u8(dword, 24, 0x1) << 5u8),
            phy_location: PhyLocation::from(get_u8(dword, 25, 0x7)),
            read: get_flag(dword, 30),
            config: get_flag(dword, 31),
        }
    }
}

/// M-PCIe Phy Control Data register
#[derive(Debug, Clone, PartialEq, Eq)]
pub struct MpciePhyControlData {
    /// Phy Register Data
    pub phy_register_data: u8,
    /// The Phy Control operation completed in error
    pub phy_control_error: bool,
    /// The A bit of the RRAP Response packet
    pub rrap_abort_a: bool,
    /// A Phy Control operation is under way
    pub phy_control_pending: bool,
}

impl MpciePhyControlData {
    /// The fields of the register value `dword`.
    pub open spec fn spec_from(dword: u32) -> Self {
        MpciePhyControlData {
            phy_register_data: field(dword, 0, 0xff) as u8,
            phy_control_error: flag(dword, 29),
            rrap_abort_a: flag(dword, 30),
            phy_control_pending: flag(dword, 31),
        }
    }
}

impl vstd::std_specs::convert::FromSpecImpl<u32> for MpciePhyControlData {
    open spec fn obeys_from_spec() -> bool {
        true
    }

    open spec fn from_spec(dword: u32) -> Self {
        Self::spec_from(dword)
    }
}

impl From<u32> for MpciePhyControlData {
    fn from(dword: u32) -> (r: Self) {
        MpciePhyControlData {
            phy_register_data: get_u8(dword, 0, 0xff),
            phy_control_error: get_flag(dword, 29),
            rrap_abort_a: get_flag(dword, 30),
            phy_control_pending: get_flag(dword, 31),
        }
    }
}

/// M-PHY HS-GEARs
#[derive(Debug, Clone, PartialEq, Eq)]
pub struct MpcieLinkSpeed {
    /// HS-G1
    pub hs_g1: bool,
    /// HS-G2
    pub hs_g2: bool,
}

impl MpcieLinkSpeed {
    /// The fields of the register value `byte`.
    pub open spec fn spec_from(byte: u8) -> Self {
        MpcieLinkSpeed {
            hs_g1: flag(byte as u32, 0),
            hs_g2: flag(byte as u32, 1),
        }
    }
}

impl vstd::std_specs::convert::FromSpecImpl<u8> for MpcieLinkSpeed {
    open spec fn obeys_from_spec() -> bool {
        true
    }

    open spec fn from_spec(byte: u8) -> Self {
        Self::spec_from(byte)
    }
}

impl From<u8> for MpcieLinkSpeed {
    fn from(byte: u8) -> (r: Self) {
        let w = byte as u32;
        MpcieLinkSpeed {
            hs_g1: get_flag(w, 0),
            hs_g2: get_flag(w, 1),
        }
    }
}

/// Supported LANE widths
#[derive(Debug, Clone, PartialEq, Eq)]
pub struct LaneWidthSupported {
    pub x1: bool,
    pub x2: bool,
    pub x4: bool,
    pub x8: bool,
    pub x12: bool,
    pub x16: bool,
    pub x32: bool,
}

impl LaneWidthSupported {
    /// The fields of the register value `byte`.
    pub open spec fn spec_from(byte: u8) -> Self {
        LaneWidthSupported {
            x1: flag(byte as u32, 0),
            x2: flag(byte as u32, 1),
            x4: flag(byte as u32, 2),
            x8: flag(byte as u32, 3),
            x12: flag(byte as u32, 4),
            x16: flag(byte as u32, 5),
            x32: flag(byte as u32, 6),
        }
    }
}

impl vstd::std_specs::convert::FromSpecImpl<u8> for LaneWidthSupported {
    open spec fn obeys_from_spec() -> bool {
        true
    }

    open spec fn from_spec(byte: u8) -> Self {
        Self::spec_from(byte)
    }
}

impl From<u8> for LaneWidthSupported {
    fn from(byte: u8) -> (r: Self) {
        let w = byte as u32;
        LaneWidthSupported {
            x1: get_flag(w, 0),
            x2: get_flag(w, 1),
            x4: get_flag(w, 2),
            x8: get_flag(w, 3),
            x12: get_flag(w, 4),
            x16: get_flag(w, 5),
            x32: get_flag(w, 6),
        }
    }
}

/// LANE width
#[derive(Debug, Clone, Copy, PartialEq, Eq)]
pub enum LaneWidthStatus {
    X1,
    X2,
    X4,
    X8,
    X12,
    X16,
    X32,
    Reserved(u8),
}

impl LaneWidthStatus {
    /// The value that `byte` encodes.
    pub open spec fn spec_from(byte: u8) -> Self {
        match byte {
            0b0000_0001 => Self::X1,
            0b0000_0010 => Self::X2,
            0b0000_0100 => Self::X4,
            0b0000_1000 => Self::X8,
            0b0000_1100 => Self::X12,
            0b0001_0000 => Self::X16,
            0b0010_0000 => Self::X32,
            _ => Self::Reserved(byte),
        }
    }
}

impl vstd::std_specs::convert::FromSpecImpl<u8> for LaneWidthStatus {
    open spec fn obeys_from_spec() -> bool {
        true
    }

    open spec fn from_spec(byte: u8) -> Self {
        Self::spec_from(byte)
    }
}

impl From<u8> for LaneWidthStatus {
    fn from(byte: u8) -> (r: Self) {
        match byte {
            0b0000_0001 => Self::X1,
            0b0000_0010 => Self::X2,
            0b0000_0100 => Self::X4,
            0b0000_1000 => Self::X8,
            0b0000_1100 => Self::X12,
            0b0001_0000 => Self::X16,
            0b0010_0000 => Self::X32,
            _ => Self::Reserved(byte),
        }
    }
}

/// Where along the Link the Phy is
#[derive(Debug, Clone, Copy, PartialEq, Eq)]
pub enum PhyLocation {
    LocalPhy,
    RemotePhy,
    Reserved(u8),
}

impl PhyLocation {
    /// The value that `byte` encodes.
    pub open spec fn spec_from(byte: u8) -> Self {
        match byte {
            0b000 => Self::LocalPhy,
            0b001 => Self::RemotePhy,
            _ => Self::Reserved(byte),
        }
    }
}

impl vstd::std_specs::convert::FromSpecImpl<u8> for PhyLocation {
    open spec fn obeys_from_spec() -> bool {
        true
    }

    open spec fn from_spec(byte: u8) -> Self {
        Self::spec_from(byte)
    }
}

impl From<u8> for PhyLocation {
    fn from(byte: u8) -> (r: Self) {
        match byte {
            0b000 => Self::LocalPhy,
            0b001 => Self::RemotePhy,
            _ => Self::Reserved(byte),
        }
    }
}

} // verus!
