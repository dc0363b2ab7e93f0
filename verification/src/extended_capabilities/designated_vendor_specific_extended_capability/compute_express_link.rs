//! Compute Express Link (CXL) Designated Vendor-Specific Extended Capabilities.
use vstd::prelude::*;
use crate::bits::{le_u16, le_u32, read_u16, read_u32};
use self::pcie_dvsec_for_cxl_device::{
    CxlCapability, CxlCapability2, CxlControl, CxlControl2, CxlLock, CxlRangeBase, CxlRangeSize,
    CxlStatus, CxlStatus2, PcieDvsecForCxlDevice,
};

pub mod pcie_dvsec_for_cxl_device;

verus! {

/// Compute Express Link errors
#[derive(Debug, Clone, PartialEq, Eq)]
pub enum ComputeExpressLinkError {
    /// The registers of the PCIe DVSEC for CXL Device are not there
    PcieDvsecForCxlDevice,
}

/// Compute Express Link DVSEC, by its DVSEC ID
#[derive(Debug, Clone, PartialEq, Eq)]
pub enum ComputeExpressLink {
    PcieDvsecForCxlDevice(PcieDvsecForCxlDevice),
    NonCxlFunctionMapDvsec(NonCxlFunctionMapDvsec),
    Cxl20ExtensionsDvsecForPorts(Cxl20ExtensionsDvsecForPorts),
    GpfDvsecForCxlPorts(GpfDvsecForCxlPorts),
    GpfDvsecForCxlDevices(GpfDvsecForCxlDevices),
    PcieDvsecForFlexBusPort(PcieDvsecForFlexBusPort),
    RegisterLocatorDvsec(RegisterLocatorDvsec),
    MldDvsec(MldDvsec),
    PcieDvsecForTestCapability(PcieDvsecForTestCapability),
    /// A DVSEC ID that the CXL specification does not define
    Undefined(u16),
}

/// The PCIe DVSEC for CXL Device registers that `bytes` holds.
pub open spec fn spec_cxl_device(bytes: Seq<u8>) -> PcieDvsecForCxlDevice {
    PcieDvsecForCxlDevice {
        cxl_capability: CxlCapability::spec_from(le_u16(bytes, 0)),
        cxl_control: CxlControl::spec_from(le_u16(bytes, 2)),
        cxl_status: CxlStatus::spec_from(le_u16(bytes, 4)),
        cxl_control2: CxlControl2::spec_from(le_u16(bytes, 6)),
        cxl_status2: CxlStatus2::spec_from(le_u16(bytes, 8)),
        cxl_lock: CxlLock::spec_from(le_u16(bytes, 10)),
        cxl_capability2: CxlCapability2::spec_from(le_u16(bytes, 12)),
        cxl_range_1_size: CxlRangeSize::spec_new(le_u32(bytes, 18), le_u32(bytes, 14)),
        cxl_range_1_base: CxlRangeBase::spec_new(le_u32(bytes, 26), le_u32(bytes, 22)),
        cxl_range_2_size: CxlRangeSize::spec_new(le_u32(bytes, 34), le_u32(bytes, 30)),
        cxl_range_2_base: CxlRangeBase::spec_new(le_u32(bytes, 42), le_u32(bytes, 38)),
    }
}

impl ComputeExpressLink {
    /// The DVSEC that the vendor-specific registers `bytes` hold for the DVSEC ID `id`: the
    /// registers of a CXL Device (ID 0) have the high double word of each range first.
    pub open spec fn spec_try_new(bytes: Seq<u8>, id: u16) -> Result<Self, ComputeExpressLinkError> {
        if id == 0x00 {
            if bytes.len() < 46 {
                Err(ComputeExpressLinkError::PcieDvsecForCxlDevice)
            } else {
                Ok(ComputeExpressLink::PcieDvsecForCxlDevice(spec_cxl_device(bytes)))
            }
        } else if id == 0x02 {
            Ok(ComputeExpressLink::NonCxlFunctionMapDvsec(NonCxlFunctionMapDvsec))
        } else if id == 0x03 {
            Ok(ComputeExpressLink::Cxl20ExtensionsDvsecForPorts(Cxl20ExtensionsDvsecForPorts))
        } else if id == 0x04 {
            Ok(ComputeExpressLink::GpfDvsecForCxlPorts(GpfDvsecForCxlPorts))
        } else if id == 0x05 {
            Ok(ComputeExpressLink::GpfDvsecForCxlDevices(GpfDvsecForCxlDevices))
        } else if id == 0x07 {
            Ok(ComputeExpressLink::PcieDvsecForFlexBusPort(PcieDvsecForFlexBusPort))
        } else if id == 0x08 {
            Ok(ComputeExpressLink::RegisterLocatorDvsec(RegisterLocatorDvsec))
        } else if id == 0x09 {
            Ok(ComputeExpressLink::MldDvsec(MldDvsec))
        } else if id == 0x0a {
            Ok(ComputeExpressLink::PcieDvsecForTestCapability(PcieDvsecForTestCapability))
        } else {
            Ok(ComputeExpressLink::Undefined(id))
        }
    }

    /// Reads the DVSEC with the ID `id` from its vendor-specific registers `slice`.
    pub fn try_new(slice: &[u8], id: u16) -> (r: Result<Self, ComputeExpressLinkError>)
        ensures
            r == Self::spec_try_new(slice@, id),
    {
        if id == 0x00 {
            if slice.len() < 46 {
                return Err(ComputeExpressLinkError::PcieDvsecForCxlDevice);
            }
            Ok(
                ComputeExpressLink::PcieDvsecForCxlDevice(
                    PcieDvsecForCxlDevice {
                        cxl_capability: CxlCapability::from(read_u16(slice, 0)),
                        cxl_control: CxlControl::from(read_u16(slice, 2)),
                        cxl_status: CxlStatus::from(read_u16(slice, 4)),
                        cxl_control2: CxlControl2::from(read_u16(slice, 6)),
                        cxl_status2: CxlStatus2::from(read_u16(slice, 8)),
                        cxl_lock: CxlLock::from(read_u16(slice, 10)),
                        cxl_capability2: CxlCapability2::from(read_u16(slice, 12)),
                        cxl_range_1_size: CxlRangeSize::new(read_u32(slice, 18), read_u32(slice, 14)),
                        cxl_range_1_base: CxlRangeBase::new(read_u32(slice, 26), read_u32(slice, 22)),
                        cxl_range_2_size: CxlRangeSize::new(read_u32(slice, 34), read_u32(slice, 30)),
                        cxl_range_2_base: CxlRangeBase::new(read_u32(slice, 42), read_u32(slice, 38)),
                    },
                ),
            )
        } else if id == 0x02 {
            Ok(ComputeExpressLink::NonCxlFunctionMapDvsec(NonCxlFunctionMapDvsec))
        } else if id == 0x03 {
            Ok(ComputeExpressLink::Cxl20ExtensionsDvsecForPorts(Cxl20ExtensionsDvsecForPorts))
        } else if id == 0x04 {
            Ok(ComputeExpressLink::GpfDvsecForCxlPorts(GpfDvsecForCxlPorts))
        } else if id == 0x05 {
            Ok(ComputeExpressLink::GpfDvsecForCxlDevices(GpfDvsecForCxlDevices))
        } else if id == 0x07 {
            Ok(ComputeExpressLink::PcieDvsecForFlexBusPort(PcieDvsecForFlexBusPort))
        } else if id == 0x08 {
            Ok(ComputeExpressLink::RegisterLocatorDvsec(RegisterLocatorDvsec))
        } else if id == 0x09 {
            Ok(ComputeExpressLink::MldDvsec(MldDvsec))
        } else if id == 0x0a {
            Ok(ComputeExpressLink::PcieDvsecForTestCapability(PcieDvsecForTestCapability))
        } else {
            Ok(ComputeExpressLink::Undefined(id))
        }
    }
}

/// Non-CXL Function Map DVSEC
#[derive(Debug, Clone, PartialEq, Eq)]
pub struct NonCxlFunctionMapDvsec;

/// CXL 2.0 Extensions DVSEC for Ports
#[derive(Debug, Clone, PartialEq, Eq)]
pub struct Cxl20ExtensionsDvsecForPorts;

/// GPF DVSEC for CXL Ports
#[derive(Debug, Clone, PartialEq, Eq)]
pub struct GpfDvsecForCxlPorts;

/// GPF DVSEC for CXL Devices
#[derive(Debug, Clone, PartialEq, Eq)]
pub struct GpfDvsecForCxlDevices;

/// PCIe DVSEC for Flex Bus Port
#[derive(Debug, Clone, PartialEq, Eq)]
pub struct PcieDvsecForFlexBusPort;

/// Register Locator DVSEC
#[derive(Debug, Clone, PartialEq, Eq)]
pub struct RegisterLocatorDvsec;

/// MLD DVSEC
#[derive(Debug, Clone, PartialEq, Eq)]
pub struct MldDvsec;

/// PCIe DVSEC for Test Capability
#[derive(Debug, Clone, PartialEq, Eq)]
pub struct PcieDvsecForTestCapability;

} // verus!
