//! PCI Express capability.
use vstd::prelude::*;
use crate::bits::{field, flag, get_flag, get_u8, get_u16, le_u16, le_u32, read_u16, read_u32};

verus! {

broadcast use crate::bits::lemma_field_le_mask;

/// PCI Express capability errors
#[derive(Debug, Clone, PartialEq, Eq)]
pub enum PciExpressError {
    /// Can't read required bytes from slice
    RequiredBytesSlice,
    /// Can't read root bytes from slice
    RootBytesSlice,
}

/// PCI Express capability
#[derive(Debug, Clone, PartialEq, Eq)]
pub struct PciExpress {
    /// Capability Version
    pub version: u8,
    pub device_type: DeviceType,
    /// Slot Implemented
    pub slot_implemented: bool,
    /// Interrupt Message Number
    pub interrupt_message_number: u8,
    /// TCS Routing Supported
    pub tcs_routing_support: bool,
    pub device: Device,
    pub device_2: Option<Device2>,
}

/// The registers of a set (capabilities, control, status) of three that start at `at` in
/// `bytes`, when `bytes` holds them.
pub open spec fn spec_regs(bytes: Seq<u8>, at: int) -> Option<(u32, u16, u16)> {
    if bytes.len() >= at + 8 {
        Some((le_u32(bytes, at), le_u16(bytes, at + 4), le_u16(bytes, at + 6)))
    } else {
        None
    }
}

impl PciExpress {
    /// Size of the capability data
    pub const SIZE: usize = 58;

    /// The capability that `bytes` (the data after the capability header) holds: the
    /// registers that follow the required ones are present as far as `bytes` reaches, and
    /// the second set of them only from version 2 on.
    pub open spec fn spec_parse(bytes: Seq<u8>) -> Result<Self, PciExpressError> {
        if bytes.len() < 26 {
            Err(PciExpressError::RequiredBytesSlice)
        } else {
            let caps = le_u16(bytes, 0) as u32;
            let version = field(caps, 0, 0xf) as u8;
            let device_type = field(caps, 4, 0xf) as u8;
            let link = Link::spec_new(le_u32(bytes, 10), le_u16(bytes, 14), le_u16(bytes, 16));
            let slot = Slot::spec_new(le_u32(bytes, 18), le_u16(bytes, 22), le_u16(bytes, 24));
            let root = if bytes.len() >= 34 {
                Some(Root::spec_new(le_u16(bytes, 26), le_u16(bytes, 28), le_u32(bytes, 30)))
            } else {
                None
            };
            let device_2 = match spec_regs(bytes, 34) {
                Some((c, ctl, st)) if version > 1 => Some(Device2::spec_new(c, ctl, st)),
                _ => None,
            };
            let link_2 = match spec_regs(bytes, 42) {
                Some((c, ctl, st)) if version > 1 => Some(Link2::spec_new(c, ctl, st)),
                _ => None,
            };
            let slot_2 = match spec_regs(bytes, 50) {
                Some((c, ctl, st)) if version > 1 => Some(Slot2::spec_new(c, ctl, st)),
                _ => None,
            };
            match DeviceType::spec_try_from((device_type, link, slot, root, link_2, slot_2)) {
                Ok(device_type) => Ok(PciExpress {
                    version,
                    device_type,
                    slot_implemented: flag(caps, 8),
                    interrupt_message_number: field(caps, 9, 0x1f) as u8,
                    tcs_routing_support: flag(caps, 14),
                    device: Device::spec_new(le_u32(bytes, 2), le_u16(bytes, 6), le_u16(bytes, 8)),
                    device_2,
                }),
                Err(e) => Err(e),
            }
        }
    }
}

impl vstd::std_specs::convert::TryFromSpecImpl<&[u8]> for PciExpress {
    open spec fn obeys_try_from_spec() -> bool {
        true
    }

    open spec fn try_from_spec(slice: &[u8]) -> Result<Self, Self::Error> {
        Self::spec_parse(slice@)
    }
}

impl TryFrom<&[u8]> for PciExpress {
    type Error = PciExpressError;

    fn try_from(slice: &[u8]) -> (r: Result<Self, Self::Error>) {
        if slice.len() < 26 {
            return Err(PciExpressError::RequiredBytesSlice);
        }
        let caps = read_u16(slice, 0) as u32;
        let version = get_u8(caps, 0, 0xf);
        let device_type = get_u8(caps, 4, 0xf);
        let device = Device::new(read_u32(slice, 2), read_u16(slice, 6), read_u16(slice, 8));
        let link = Link::new(read_u32(slice, 10), read_u16(slice, 14), read_u16(slice, 16));
        let slot = Slot::new(read_u32(slice, 18), read_u16(slice, 22), read_u16(slice, 24));
        let root = if slice.len() >= 34 {
            Some(Root::new(read_u16(slice, 26), read_u16(slice, 28), read_u32(slice, 30)))
        } else {
            None
        };
        let n = slice.len();
        let device_2 = if version > 1 && n >= 42 {
            Some(Device2::new(read_u32(slice, 34), read_u16(slice, 38), read_u16(slice, 40)))
        } else {
            None
        };
        let link_2 = if version > 1 && n >= 50 {
            Some(Link2::new(read_u32(slice, 42), read_u16(slice, 46), read_u16(slice, 48)))
        } else {
            None
        };
        let slot_2 = if version > 1 && n >= 58 {
            Some(Slot2::new(read_u32(slice, 50), read_u16(slice, 54), read_u16(slice, 56)))
        } else {
            None
        };
        let device_type = match DeviceType::try_from((device_type, link, slot, root, link_2, slot_2)) {
            Ok(device_type) => device_type,
            Err(e) => return Err(e),
        };
        Ok(PciExpress {
            version,
            device_type,
            slot_implemented: get_flag(caps, 8),
            interrupt_message_number: get_u8(caps, 9, 0x1f),
            tcs_routing_support: get_flag(caps, 14),
            device,
            device_2,
        })
    }
}

/// Device/Port Type with the registers that the type implements
#[derive(Debug, Clone, PartialEq, Eq)]
pub enum DeviceType {
    Endpoint { link: Link, link_2: Option<Link2> },
    LegacyEndpoint { link: Link, link_2: Option<Link2> },
    RootComplexIntegratedEndpoint,
    RootComplexEventCollector { root: Root },
    RootPort { link: Link, link_2: Option<Link2>, slot: Slot, slot_2: Option<Slot2>, root: Root },
    UpstreamPort { link: Link, link_2: Option<Link2> },
    DownstreamPort { link: Link, link_2: Option<Link2>, slot: Slot, slot_2: Option<Slot2> },
    PcieToPciBridge { link: Link, link_2: Option<Link2> },
    PciToPcieBridge { link: Link, link_2: Option<Link2>, slot: Slot, slot_2: Option<Slot2> },
    Reserved {
        id: u8,
        link: Link,
        link_2: Option<Link2>,
        slot: Slot,
        slot_2: Option<Slot2>,
        root: Option<Root>,
    },
}

impl DeviceType {
    /// Whether the function is an endpoint of any kind.
    pub fn is_endpoint(&self) -> (r: bool)
        ensures
            r == (self is Endpoint || self is LegacyEndpoint || self is RootComplexIntegratedEndpoint),
    {
        match self {
            DeviceType::Endpoint { .. } | DeviceType::LegacyEndpoint { .. }
            | DeviceType::RootComplexIntegratedEndpoint => true,
            _ => false,
        }
    }

    /// Whether the function is a Root Port or a Root Complex Event Collector.
    pub fn is_root(&self) -> (r: bool)
        ensures
            r == (self is RootPort || self is RootComplexEventCollector),
    {
        match self {
            DeviceType::RootPort { .. } | DeviceType::RootComplexEventCollector { .. } => true,
            _ => false,
        }
    }

    /// Whether the function is the downstream port of a link.
    pub fn is_downstream_port(&self) -> (r: bool)
        ensures
            r == (self is RootPort || self is DownstreamPort || self is PciToPcieBridge),
    {
        match self {
            DeviceType::RootPort { .. } | DeviceType::DownstreamPort { .. }
            | DeviceType::PciToPcieBridge { .. } => true,
            _ => false,
        }
    }

    /// The device type `args.0` with the registers that it implements; the types that have
    /// root registers need them.
    pub open spec fn spec_try_from(
        args: (u8, Link, Slot, Option<Root>, Option<Link2>, Option<Slot2>),
    ) -> Result<Self, PciExpressError> {
        let (device_type, link, slot, root, link_2, slot_2) = args;
        if device_type == 0b0000 {
            Ok(DeviceType::Endpoint { link, link_2 })
        } else if device_type == 0b0001 {
            Ok(DeviceType::LegacyEndpoint { link, link_2 })
        } else if device_type == 0b1001 {
            Ok(DeviceType::RootComplexIntegratedEndpoint)
        } else if device_type == 0b1010 {
            match root {
                Some(root) => Ok(DeviceType::RootComplexEventCollector { root }),
                None => Err(PciExpressError::RootBytesSlice),
            }
        } else if device_type == 0b0100 {
            match root {
                Some(root) => Ok(DeviceType::RootPort { link, link_2, slot, slot_2, root }),
                None => Err(PciExpressError::RootBytesSlice),
            }
        } else if device_type == 0b0101 {
            Ok(DeviceType::UpstreamPort { link, link_2 })
        } else if device_type == 0b0110 {
            Ok(DeviceType::DownstreamPort { link, link_2, slot, slot_2 })
        } else if device_type == 0b0111 {
            Ok(DeviceType::PcieToPciBridge { link, link_2 })
        } else if device_type == 0b1000 {
            Ok(DeviceType::PciToPcieBridge { link, link_2, slot, slot_2 })
        } else {
            Ok(DeviceType::Reserved { id: device_type, link, link_2, slot, slot_2, root })
        }
    }
}

impl vstd::std_specs::convert::TryFromSpecImpl<(u8, Link, Slot, Option<Root>, Option<Link2>, Option<Slot2>)> for DeviceType {
    open spec fn obeys_try_from_spec() -> bool {
        true
    }

    open spec fn try_from_spec(args: (u8, Link, Slot, Option<Root>, Option<Link2>, Option<Slot2>)) -> Result<Self, Self::Error> {
        Self::spec_try_from(args)
    }
}

impl TryFrom<(u8, Link, Slot, Option<Root>, Option<Link2>, Option<Slot2>)> for DeviceType {
    type Error = PciExpressError;

    fn try_from(args: (u8, Link, Slot, Option<Root>, Option<Link2>, Option<Slot2>)) -> (r: Result<Self, Self::Error>) {
        let (device_type, link, slot, root, link_2, slot_2) = args;
        if device_type == 0b0000 {
            Ok(DeviceType::Endpoint { link, link_2 })
        } else if device_type == 0b0001 {
            Ok(DeviceType::LegacyEndpoint { link, link_2 })
        } else if device_type == 0b1001 {
            Ok(DeviceType::RootComplexIntegratedEndpoint)
        } else if device_type == 0b1010 {
            match root {
                Some(root) => Ok(DeviceType::RootComplexEventCollector { root }),
                None => Err(PciExpressError::RootBytesSlice),
            }
        } else if device_type == 0b0100 {
            match root {
                Some(root) => Ok(DeviceType::RootPort { link, link_2, slot, slot_2, root }),
                None => Err(PciExpressError::RootBytesSlice),
            }
        } else if device_type == 0b0101 {
            Ok(DeviceType::UpstreamPort { link, link_2 })
        } else if device_type == 0b0110 {
            Ok(DeviceType::DownstreamPort { link, link_2, slot, slot_2 })
        } else if device_type == 0b0111 {
            Ok(DeviceType::PcieToPciBridge { link, link_2 })
        } else if device_type == 0b1000 {
            Ok(DeviceType::PciToPcieBridge { link, link_2, slot, slot_2 })
        } else {
            Ok(DeviceType::Reserved { id: device_type, link, link_2, slot, slot_2, root })
        }
    }
}

/// Device Capabilities, Control and Status registers
#[derive(Debug, Clone, PartialEq, Eq)]
pub struct Device {
    pub capabilities: DeviceCapabilities,
    pub control: DeviceControl,
    pub status: DeviceStatus,
}

impl Device {
    /// The registers with the values `capabilities`, `control` and `status`.
    pub open spec fn spec_new(capabilities: u32, control: u16, status: u16) -> Self {
        Device { capabilities: DeviceCapabilities::spec_from(capabilities), control: DeviceControl::spec_from(control), status: DeviceStatus::spec_from(status) }
    }

    /// The registers with the values `capabilities`, `control` and `status`.
    pub fn new(capabilities: u32, control: u16, status: u16) -> (r: Self)
        ensures
            r == Self::spec_new(capabilities, control, status),
    {
        Device { capabilities: DeviceCapabilities::from(capabilities), control: DeviceControl::from(control), status: DeviceStatus::from(status) }
    }
}

/// Device Capabilities register
#[derive(Debug, Clone, PartialEq, Eq)]
pub struct DeviceCapabilities {
    pub max_payload_size_supported: MaxSize,
    pub phantom_functions_supported: PhantomFunctionsSupported,
    pub extended_tag_field_supported: ExtendedTagFieldSupported,
    pub endpoint_l0s_acceptable_latency: EndpointL0sAcceptableLatency,
    pub endpoint_l1_acceptable_latency: EndpointL1AcceptableLatency,
    pub attention_button_present: bool,
    pub attention_indicator_present: bool,
    pub power_indicator_present: bool,
    pub role_based_error_reporting: bool,
    pub captured_slot_power_limit: SlotPowerLimit,
    pub function_level_reset_capability: bool,
}

impl DeviceCapabilities {
    /// The fields of the register value `dword`.
    pub open spec fn spec_from(dword: u32) -> Self {
        DeviceCapabilities {
            max_payload_size_supported: MaxSize::spec_from_bits(field(dword, 0, 0x7) as u8),
            phantom_functions_supported: PhantomFunctionsSupported::spec_from_bits(field(dword, 3, 0x3) as u8),
            extended_tag_field_supported: ExtendedTagFieldSupported::spec_from(flag(dword, 5)),
            endpoint_l0s_acceptable_latency: EndpointL0sAcceptableLatency::spec_from_bits(field(dword, 6, 0x7) as u8),
            endpoint_l1_acceptable_latency: EndpointL1AcceptableLatency::spec_from_bits(field(dword, 9, 0x7) as u8),
            attention_button_present: flag(dword, 12),
            attention_indicator_present: flag(dword, 13),
            power_indicator_present: flag(dword, 14),
            role_based_error_reporting: flag(dword, 15),
            captured_slot_power_limit: SlotPowerLimit::spec_new(field(dword, 18, 0xff) as u8, field(dword, 26, 0x3) as u8),
            function_level_reset_capability: flag(dword, 28),
        }
    }
}

impl vstd::std_specs::convert::FromSpecImpl<u32> for DeviceCapabilities {
    open spec fn obeys_from_spec() -> bool {
        true
    }

    open spec fn from_spec(dword: u32) -> Self {
        Self::spec_from(dword)
    }
}

impl From<u32> for DeviceCapabilities {
    fn from(dword: u32) -> (r: Self) {
        DeviceCapabilities {
            max_payload_size_supported: MaxSize::from_bits(get_u8(dword, 0, 0x7)),
            phantom_functions_supported: PhantomFunctionsSupported::from_bits(get_u8(dword, 3, 0x3)),
            extended_tag_field_supported: ExtendedTagFieldSupported::from(get_flag(dword, 5)),
            endpoint_l0s_acceptable_latency: EndpointL0sAcceptableLatency::from_bits(get_u8(dword, 6, 0x7)),
            endpoint_l1_acceptable_latency: EndpointL1AcceptableLatency::from_bits(get_u8(dword, 9, 0x7)),
            attention_button_present: get_flag(dword, 12),
            attention_indicator_present: get_flag(dword, 13),
            power_indicator_present: get_flag(dword, 14),
            role_based_error_reporting: get_flag(dword, 15),
            captured_slot_power_limit: SlotPowerLimit::new(get_u8(dword, 18, 0xff), get_u8(dword, 26, 0x3)),
            function_level_reset_capability: get_flag(dword, 28),
        }
    }
}

/// Maximum supported size of the Tag field as a Requester
#[derive(Debug, Clone, PartialEq, Eq)]
pub enum ExtendedTagFieldSupported {
    Five,
    Eight,
}

impl ExtendedTagFieldSupported {
    /// The value that `b` encodes.
    pub open spec fn spec_from(b: bool) -> Self {
        if b {
            Self::Eight
        } else {
            Self::Five
        }
    }
}

impl vstd::std_specs::convert::FromSpecImpl<bool> for ExtendedTagFieldSupported {
    open spec fn obeys_from_spec() -> bool {
        true
    }

    open spec fn from_spec(b: bool) -> Self {
        Self::spec_from(b)
    }
}

impl From<bool> for ExtendedTagFieldSupported {
    fn from(b: bool) -> (r: Self) {
        if b {
            Self::Eight
        } else {
            Self::Five
        }
    }
}

/// Slot power limit: a value with the scale that it is to be multiplied by
#[derive(Debug, Clone, PartialEq, Eq)]
pub struct SlotPowerLimit {
    pub value: u8,
    pub scale: SlotPowerLimitScale,
}

impl SlotPowerLimit {
    /// The limit with the value `value` and the 2-bit scale field `scale`.
    pub open spec fn spec_new(value: u8, scale: u8) -> Self {
        SlotPowerLimit { value, scale: SlotPowerLimitScale::spec_from_bits(scale) }
    }

    /// The limit with the value `value` and the 2-bit scale field `scale`.
    pub fn new(value: u8, scale: u8) -> (r: Self)
        requires
            scale < 4,
        ensures
            r == Self::spec_new(value, scale),
    {
        SlotPowerLimit { value, scale: SlotPowerLimitScale::from_bits(scale) }
    }
}

/// Scale of a slot power limit value, in watts
#[derive(Debug, Clone, Copy, PartialEq, Eq)]
pub enum SlotPowerLimitScale {
    /// 1.0x
    One,
    /// 0.1x
    Tenth,
    /// 0.01x
    Hundredth,
    /// 0.001x
    Thousandth,
}

impl SlotPowerLimitScale {
    /// The value that the field `byte` encodes; a field holds less than 4.
    pub open spec fn spec_from_bits(byte: u8) -> Self {
        match byte {
            0b00 => Self::One,
            0b01 => Self::Tenth,
            0b10 => Self::Hundredth,
            _ => Self::Thousandth,
        }
    }

    /// Decodes the field `byte`.
    pub fn from_bits(byte: u8) -> (r: Self)
        requires
            byte < 4,
        ensures
            r == Self::spec_from_bits(byte),
    {
        match byte {
            0b00 => Self::One,
            0b01 => Self::Tenth,
            0b10 => Self::Hundredth,
            _ => Self::Thousandth,
        }
    }
}

/// Link Capabilities, Control and Status registers
#[derive(Debug, Clone, PartialEq, Eq)]
pub struct Link {
    pub capabilities: LinkCapabilities,
    pub control: LinkControl,
    pub status: LinkStatus,
}

impl Link {
    /// The registers with the values `capabilities`, `control` and `status`.
    pub open spec fn spec_new(capabilities: u32, control: u16, status: u16) -> Self {
        Link { capabilities: LinkCapabilities::spec_from(capabilities), control: LinkControl::spec_from(control), status: LinkStatus::spec_from(status) }
    }

    /// The registers with the values `capabilities`, `control` and `status`.
    pub fn new(capabilities: u32, control: u16, status: u16) -> (r: Self)
        ensures
            r == Self::spec_new(capabilities, control, status),
    {
        Link { capabilities: LinkCapabilities::from(capabilities), control: LinkControl::from(control), status: LinkStatus::from(status) }
    }
}

/// Slot Capabilities, Control and Status registers
#[derive(Debug, Clone, PartialEq, Eq)]
pub struct Slot {
    pub capabilities: SlotCapabilities,
    pub control: SlotControl,
    pub status: SlotStatus,
}

impl Slot {
    /// The registers with the values `capabilities`, `control` and `status`.
    pub open spec fn spec_new(capabilities: u32, control: u16, status: u16) -> Self {
        Slot { capabilities: SlotCapabilities::spec_from(capabilities), control: SlotControl::spec_from(control), status: SlotStatus::spec_from(status) }
    }

    /// The registers with the values `capabilities`, `control` and `status`.
    pub fn new(capabilities: u32, control: u16, status: u16) -> (r: Self)
        ensures
            r == Self::spec_new(capabilities, control, status),
    {
        Slot { capabilities: SlotCapabilities::from(capabilities), control: SlotControl::from(control), status: SlotStatus::from(status) }
    }
}

/// Root Control, Capabilities and Status registers
#[derive(Debug, Clone, PartialEq, Eq)]
pub struct Root {
    pub control: RootControl,
    pub capabilities: RootCapabilities,
    pub status: RootStatus,
}

impl Root {
    /// The registers with the values `control`, `capabilities` and `status`.
    pub open spec fn spec_new(control: u16, capabilities: u16, status: u32) -> Self {
        Root { control: RootControl::spec_from(control), capabilities: RootCapabilities::spec_from(capabilities), status: RootStatus::spec_from(status) }
    }

    /// The registers with the values `control`, `capabilities` and `status`.
    pub fn new(control: u16, capabilities: u16, status: u32) -> (r: Self)
        ensures
            r == Self::spec_new(control, capabilities, status),
    {
        Root { control: RootControl::from(control), capabilities: RootCapabilities::from(capabilities), status: RootStatus::from(status) }
    }
}

/// Device Capabilities 2, Control 2 and Status 2 registers
#[derive(Debug, Clone, PartialEq, Eq)]
pub struct Device2 {
    pub capabilities: DeviceCapabilities2,
    pub control: DeviceControl2,
    pub status: DeviceStatus2,
}

impl Device2 {
    /// The registers with the values `capabilities`, `control` and `status`.
    pub open spec fn spec_new(capabilities: u32, control: u16, status: u16) -> Self {
        Device2 { capabilities: DeviceCapabilities2::spec_from(capabilities), control: DeviceControl2::spec_from(control), status: DeviceStatus2::spec_from(status) }
    }

    /// The registers with the values `capabilities`, `control` and `status`.
    pub fn new(capabilities: u32, control: u16, status: u16) -> (r: Self)
        ensures
            r == Self::spec_new(capabilities, control, status),
    {
        Device2 { capabilities: DeviceCapabilities2::from(capabilities), control: DeviceControl2::from(control), status: DeviceStatus2::from(status) }
    }
}

/// Link Capabilities 2, Control 2 and Status 2 registers
#[derive(Debug, Clone, PartialEq, Eq)]
pub struct Link2 {
    pub capabilities: LinkCapabilities2,
    pub control: LinkControl2,
    pub status: LinkStatus2,
}

impl Link2 {
    /// The registers with the values `capabilities`, `control` and `status`.
    pub open spec fn spec_new(capabilities: u32, control: u16, status: u16) -> Self {
        Link2 { capabilities: LinkCapabilities2::spec_from(capabilities), control: LinkControl2::spec_from(control), status: LinkStatus2::spec_from(status) }
    }

    /// The registers with the values `capabilities`, `control` and `status`.
    pub fn new(capabilities: u32, control: u16, status: u16) -> (r: Self)
        ensures
            r == Self::spec_new(capabilities, control, status),
    {
        Link2 { capabilities: LinkCapabilities2::from(capabilities), control: LinkControl2::from(control), status: LinkStatus2::from(status) }
    }
}

/// Slot Capabilities 2, Control 2 and Status 2 registers
#[derive(Debug, Clone, PartialEq, Eq)]
pub struct Slot2 {
    pub capabilities: SlotCapabilities2,
    pub control: SlotControl2,
    pub status: SlotStatus2,
}

impl Slot2 {
    /// The registers with the values `capabilities`, `control` and `status`.
    pub open spec fn spec_new(capabilities: u32, control: u16, status: u16) -> Self {
        Slot2 { capabilities: SlotCapabilities2::spec_from(capabilities), control: SlotControl2::spec_from(control), status: SlotStatus2::spec_from(status) }
    }

    /// The registers with the values `capabilities`, `control` and `status`.
    pub fn new(capabilities: u32, control: u16, status: u16) -> (r: Self)
        ensures
            r == Self::spec_new(capabilities, control, status),
    {
        Slot2 { capabilities: SlotCapabilities2::from(capabilities), control: SlotControl2::from(control), status: SlotStatus2::from(status) }
    }
}

/// Slot Capabilities register
#[derive(Debug, Clone, PartialEq, Eq)]
pub struct SlotCapabilities {
    pub attention_button_present: bool,
    pub power_controller_present: bool,
    pub mrl_sensor_present: bool,
    pub attention_indicator_present: bool,
    pub power_indicator_present: bool,
    pub hot_plug_surprise: bool,
    pub hot_plug_capable: bool,
    pub slot_power_limit: SlotPowerLimit,
    pub electromechanical_interlock_present: bool,
    pub no_command_completed_support: bool,
    pub physical_slot_number: u16,
}

impl SlotCapabilities {
    /// The fields of the register value `dword`.
    pub open spec fn spec_from(dword: u32) -> Self {
        SlotCapabilities {
            attention_button_present: flag(dword, 0),
            power_controller_present: flag(dword, 1),
            mrl_sensor_present: flag(dword, 2),
            attention_indicator_present: flag(dword, 3),
            power_indicator_present: flag(dword, 4),
            hot_plug_surprise: flag(dword, 5),
            hot_plug_capable: flag(dword, 6),
            slot_power_limit: SlotPowerLimit::spec_new(field(dword, 7, 0xff) as u8, field(dword, 15, 0x3) as u8),
            electromechanical_interlock_present: flag(dword, 17),
            no_command_completed_support: flag(dword, 18),
            physical_slot_number: field(dword, 19, 0x1fff) as u16,
        }
    }
}

impl vstd::std_specs::convert::FromSpecImpl<u32> for SlotCapabilities {
    open spec fn obeys_from_spec() -> bool {
        true
    }

    open spec fn from_spec(dword: u32) -> Self {
        Self::spec_from(dword)
    }
}

impl From<u32> for SlotCapabilities {
    fn from(dword: u32) -> (r: Self) {
        SlotCapabilities {
            attention_button_present: get_flag(dword, 0),
            power_controller_present: get_flag(dword, 1),
            mrl_sensor_present: get_flag(dword, 2),
            attention_indicator_present: get_flag(dword, 3),
            power_indicator_present: get_flag(dword, 4),
            hot_plug_surprise: get_flag(dword, 5),
            hot_plug_capable: get_flag(dword, 6),
            slot_power_limit: SlotPowerLimit::new(get_u8(dword, 7, 0xff), get_u8(dword, 15, 0x3)),
            electromechanical_interlock_present: get_flag(dword, 17),
            no_command_completed_support: get_flag(dword, 18),
            physical_slot_number: get_u16(dword, 19, 0x1fff),
        }
    }
}

/// Read Completion Boundary, in bytes
#[derive(Debug, Clone, Copy, PartialEq, Eq)]
pub enum ReadCompletionBoundary {
    B64,
    B128,
}

impl ReadCompletionBoundary {
    /// The value that `b` encodes.
    pub open spec fn spec_from(b: bool) -> Self {
        if b {
            Self::B128
        } else {
            Self::B64
        }
    }
}

impl vstd::std_specs::convert::FromSpecImpl<bool> for ReadCompletionBoundary {
    open spec fn obeys_from_spec() -> bool {
        true
    }

    open spec fn from_spec(b: bool) -> Self {
        Self::spec_from(b)
    }
}

impl From<bool> for ReadCompletionBoundary {
    fn from(b: bool) -> (r: Self) {
        if b {
            Self::B128
        } else {
            Self::B64
        }
    }
}

/// Whether End-End TLP Prefixes may be forwarded
#[derive(Debug, Clone, PartialEq, Eq)]
pub enum EndEndTlpPrefixBlocking {
    ForwardingEnabled,
    ForwardingBlocked,
}

impl EndEndTlpPrefixBlocking {
    /// The value that `b` encodes.
    pub open spec fn spec_from(b: bool) -> Self {
        if b {
            Self::ForwardingBlocked
        } else {
            Self::ForwardingEnabled
        }
    }
}

impl EndEndTlpPrefixBlocking {
    /// The register field that encodes the value.
    pub open spec fn spec_to_bits(self) -> bool {
        match self {
            EndEndTlpPrefixBlocking::ForwardingEnabled => false,
            EndEndTlpPrefixBlocking::ForwardingBlocked => true,
        }
    }
}

impl vstd::std_specs::convert::FromSpecImpl<EndEndTlpPrefixBlocking> for bool {
    open spec fn obeys_from_spec() -> bool {
        true
    }

    open spec fn from_spec(value: EndEndTlpPrefixBlocking) -> Self {
        value.spec_to_bits()
    }
}

impl From<EndEndTlpPrefixBlocking> for bool {
    fn from(value: EndEndTlpPrefixBlocking) -> (r: Self) {
        match value {
            EndEndTlpPrefixBlocking::ForwardingEnabled => false,
            EndEndTlpPrefixBlocking::ForwardingBlocked => true,
        }
    }
}

/// Encoding a decoded EndEndTlpPrefixBlocking field gives back the field.
pub proof fn lemma_end_end_tlp_prefix_blocking_roundtrip(b: bool)
    ensures
        EndEndTlpPrefixBlocking::spec_from(b).spec_to_bits() == b,
{
}

impl vstd::std_specs::convert::FromSpecImpl<bool> for EndEndTlpPrefixBlocking {
    open spec fn obeys_from_spec() -> bool {
        true
    }

    open spec fn from_spec(b: bool) -> Self {
        Self::spec_from(b)
    }
}

impl From<bool> for EndEndTlpPrefixBlocking {
    fn from(b: bool) -> (r: Self) {
        if b {
            Self::ForwardingBlocked
        } else {
            Self::ForwardingEnabled
        }
    }
}

/// De-emphasis level
#[derive(Debug, Clone, PartialEq, Eq)]
pub enum DeEmphasis {
    Minus3_5dB,
    Minus6dB,
}

impl DeEmphasis {
    /// The value that `b` encodes.
    pub open spec fn spec_from(b: bool) -> Self {
        if b {
            Self::Minus3_5dB
        } else {
            Self::Minus6dB
        }
    }
}

impl vstd::std_specs::convert::FromSpecImpl<bool> for DeEmphasis {
    open spec fn obeys_from_spec() -> bool {
        true
    }

    open spec fn from_spec(b: bool) -> Self {
        Self::spec_from(b)
    }
}

impl From<bool> for DeEmphasis {
    fn from(b: bool) -> (r: Self) {
        if b {
            Self::Minus3_5dB
        } else {
            Self::Minus6dB
        }
    }
}

/// Transmit Margin field
#[derive(Debug, Clone, PartialEq, Eq)]
pub struct TransmitMargin(pub u8);

/// Compliance Preset/De-emphasis field
#[derive(Debug, Clone, PartialEq, Eq)]
pub struct CompliancePresetOrDeEmphasis(pub u8);

impl vstd::std_specs::convert::FromSpecImpl<u8> for TransmitMargin {
    open spec fn obeys_from_spec() -> bool {
        true
    }

    open spec fn from_spec(byte: u8) -> Self {
        TransmitMargin(byte)
    }
}

impl TransmitMargin {
    /// The field with the value `byte`.
    pub open spec fn spec_from(byte: u8) -> Self {
        TransmitMargin(byte)
    }
}

impl From<u8> for TransmitMargin {
    fn from(byte: u8) -> (r: Self) {
        TransmitMargin(byte)
    }
}

impl vstd::std_specs::convert::FromSpecImpl<u8> for CompliancePresetOrDeEmphasis {
    open spec fn obeys_from_spec() -> bool {
        true
    }

    open spec fn from_spec(byte: u8) -> Self {
        CompliancePresetOrDeEmphasis(byte)
    }
}

impl CompliancePresetOrDeEmphasis {
    /// The field with the value `byte`.
    pub open spec fn spec_from(byte: u8) -> Self {
        CompliancePresetOrDeEmphasis(byte)
    }
}

impl From<u8> for CompliancePresetOrDeEmphasis {
    fn from(byte: u8) -> (r: Self) {
        CompliancePresetOrDeEmphasis(byte)
    }
}

/// Maximum/Negotiated Link Width
#[derive(Debug, Clone, PartialEq, Eq, PartialOrd, Ord)]
pub enum LinkWidth {
    Reserved(u8),
    X1,
    X2,
    X4,
    X8,
    X12,
    X16,
    X32,
}

impl LinkWidth {
    /// The number of lanes; none for a reserved encoding.
    pub open spec fn spec_value(&self) -> usize {
        match self {
            LinkWidth::X1 => 1,
            LinkWidth::X2 => 2,
            LinkWidth::X4 => 4,
            LinkWidth::X8 => 8,
            LinkWidth::X12 => 12,
            LinkWidth::X16 => 16,
            LinkWidth::X32 => 32,
            LinkWidth::Reserved(_) => 0,
        }
    }

    /// The number of lanes; zero for a reserved encoding.
    pub fn value(&self) -> (r: usize)
        ensures
            r == self.spec_value(),
    {
        match self {
            LinkWidth::X1 => 1,
            LinkWidth::X2 => 2,
            LinkWidth::X4 => 4,
            LinkWidth::X8 => 8,
            LinkWidth::X12 => 12,
            LinkWidth::X16 => 16,
            LinkWidth::X32 => 32,
            LinkWidth::Reserved(_) => 0,
        }
    }

    /// The width that the 6-bit field `byte` encodes.
    pub open spec fn spec_from(byte: u8) -> Self {
        if byte == 0b00_0001 {
            LinkWidth::X1
        } else if byte == 0b00_0010 {
            LinkWidth::X2
        } else if byte == 0b00_0100 {
            LinkWidth::X4
        } else if byte == 0b00_1000 {
            LinkWidth::X8
        } else if byte == 0b00_1100 {
            LinkWidth::X12
        } else if byte == 0b01_0000 {
            LinkWidth::X16
        } else if byte == 0b10_0000 {
            LinkWidth::X32
        } else {
            LinkWidth::Reserved(byte)
        }
    }

    /// The ordinal of the width among the defined widths (1 for x1 up to 7 for x32), or the
    /// field of a reserved encoding.
    pub open spec fn spec_ordinal(&self) -> u8 {
        match self {
            LinkWidth::X1 => 1,
            LinkWidth::X2 => 2,
            LinkWidth::X4 => 3,
            LinkWidth::X8 => 4,
            LinkWidth::X12 => 5,
            LinkWidth::X16 => 6,
            LinkWidth::X32 => 7,
            LinkWidth::Reserved(v) => *v,
        }
    }
}

impl vstd::std_specs::convert::FromSpecImpl<u8> for LinkWidth {
    open spec fn obeys_from_spec() -> bool {
        true
    }

    open spec fn from_spec(byte: u8) -> Self {
        Self::spec_from(byte)
    }
}

impl From<u8> for LinkWidth {
    fn from(byte: u8) -> (r: Self) {
        if byte == 0b00_0001 {
            LinkWidth::X1
        } else if byte == 0b00_0010 {
            LinkWidth::X2
        } else if byte == 0b00_0100 {
            LinkWidth::X4
        } else if byte == 0b00_1000 {
            LinkWidth::X8
        } else if byte == 0b00_1100 {
            LinkWidth::X12
        } else if byte == 0b01_0000 {
            LinkWidth::X16
        } else if byte == 0b10_0000 {
            LinkWidth::X32
        } else {
            LinkWidth::Reserved(byte)
        }
    }
}

impl vstd::std_specs::convert::FromSpecImpl<LinkWidth> for u8 {
    open spec fn obeys_from_spec() -> bool {
        true
    }

    open spec fn from_spec(data: LinkWidth) -> Self {
        data.spec_ordinal()
    }
}

impl From<LinkWidth> for u8 {
    fn from(data: LinkWidth) -> (r: Self) {
        match data {
            LinkWidth::X1 => 1,
            LinkWidth::X2 => 2,
            LinkWidth::X4 => 3,
            LinkWidth::X8 => 4,
            LinkWidth::X12 => 5,
            LinkWidth::X16 => 6,
            LinkWidth::X32 => 7,
            LinkWidth::Reserved(v) => v,
        }
    }
}

/// Device Status 2 register, whose fields are all reserved
#[derive(Debug, Clone, PartialEq, Eq)]
pub struct DeviceStatus2 {}

/// Slot Capabilities 2 register, whose fields are all reserved
#[derive(Debug, Clone, PartialEq, Eq)]
pub struct SlotCapabilities2 {}

/// Slot Control 2 register, whose fields are all reserved
#[derive(Debug, Clone, PartialEq, Eq)]
pub struct SlotControl2 {}

/// Slot Status 2 register, whose fields are all reserved
#[derive(Debug, Clone, PartialEq, Eq)]
pub struct SlotStatus2 {}

impl DeviceStatus2 {
    /// The register, whatever its value.
    pub open spec fn spec_from(_value: u16) -> Self {
        DeviceStatus2 {}
    }
}

impl vstd::std_specs::convert::FromSpecImpl<u16> for DeviceStatus2 {
    open spec fn obeys_from_spec() -> bool {
        true
    }

    open spec fn from_spec(value: u16) -> Self {
        Self::spec_from(value)
    }
}

impl From<u16> for DeviceStatus2 {
    fn from(_value: u16) -> (r: Self) {
        DeviceStatus2 {}
    }
}

impl SlotCapabilities2 {
    /// The register, whatever its value.
    pub open spec fn spec_from(_value: u32) -> Self {
        SlotCapabilities2 {}
    }
}

impl vstd::std_specs::convert::FromSpecImpl<u32> for SlotCapabilities2 {
    open spec fn obeys_from_spec() -> bool {
        true
    }

    open spec fn from_spec(value: u32) -> Self {
        Self::spec_from(value)
    }
}

impl From<u32> for SlotCapabilities2 {
    fn from(_value: u32) -> (r: Self) {
        SlotCapabilities2 {}
    }
}

impl SlotControl2 {
    /// The register, whatever its value.
    pub open spec fn spec_from(_value: u16) -> Self {
        SlotControl2 {}
    }
}

impl vstd::std_specs::convert::FromSpecImpl<u16> for SlotControl2 {
    open spec fn obeys_from_spec() -> bool {
        true
    }

    open spec fn from_spec(value: u16) -> Self {
        Self::spec_from(value)
    }
}

impl From<u16> for SlotControl2 {
    fn from(_value: u16) -> (r: Self) {
        SlotControl2 {}
    }
}

impl SlotStatus2 {
    /// The register, whatever its value.
    pub open spec fn spec_from(_value: u16) -> Self {
        SlotStatus2 {}
    }
}

impl vstd::std_specs::convert::FromSpecImpl<u16> for SlotStatus2 {
    open spec fn obeys_from_spec() -> bool {
        true
    }

    open spec fn from_spec(value: u16) -> Self {
        Self::spec_from(value)
    }
}

impl From<u16> for SlotStatus2 {
    fn from(_value: u16) -> (r: Self) {
        SlotStatus2 {}
    }
}

/// Max_Payload_Size Supported / Max_Payload_Size / Max_Read_Request_Size
#[derive(Debug, Clone, Copy, PartialEq, Eq)]
pub enum MaxSize {
    B128,
    B256,
    B512,
    B1024,
    B2048,
    B4096,
    Reserved0,
    Reserved1,
}

impl MaxSize {
    /// The value that the field `byte` encodes; a field holds less than 8.
    pub open spec fn spec_from_bits(byte: u8) -> Self {
        match byte {
            0b000 => Self::B128,
            0b001 => Self::B256,
            0b010 => Self::B512,
            0b011 => Self::B1024,
            0b100 => Self::B2048,
            0b101 => Self::B4096,
            0b110 => Self::Reserved0,
            _ => Self::Reserved1,
        }
    }

    /// Decodes the field `byte`.
    pub fn from_bits(byte: u8) -> (r: Self)
        requires
            byte < 8,
        ensures
            r == Self::spec_from_bits(byte),
    {
        match byte {
            0b000 => Self::B128,
            0b001 => Self::B256,
            0b010 => Self::B512,
            0b011 => Self::B1024,
            0b100 => Self::B2048,
            0b101 => Self::B4096,
            0b110 => Self::Reserved0,
            _ => Self::Reserved1,
        }
    }
}

/// Support for use of unclaimed Function Numbers to extend the number of outstanding transactions
#[derive(Debug, Clone, Copy, PartialEq, Eq)]
pub enum PhantomFunctionsSupported {
    NoBits,
    MostSignificantBit,
    TwoMostSignificantBits,
    AllBits,
}

impl PhantomFunctionsSupported {
    /// The value that the field `byte` encodes; a field holds less than 4.
    pub open spec fn spec_from_bits(byte: u8) -> Self {
        match byte {
            0b00 => Self::NoBits,
            0b01 => Self::MostSignificantBit,
            0b10 => Self::TwoMostSignificantBits,
            _ => Self::AllBits,
        }
    }

    /// Decodes the field `byte`.
    pub fn from_bits(byte: u8) -> (r: Self)
        requires
            byte < 4,
        ensures
            r == Self::spec_from_bits(byte),
    {
        match byte {
            0b00 => Self::NoBits,
            0b01 => Self::MostSignificantBit,
            0b10 => Self::TwoMostSignificantBits,
            _ => Self::AllBits,
        }
    }
}

/// Acceptable total latency that an Endpoint can withstand due to the transition from L0s state to
#[derive(Debug, Clone, Copy, PartialEq, Eq)]
pub enum EndpointL0sAcceptableLatency {
    Max64ns,
    Max128ns,
    Max256ns,
    Max512ns,
    Max1us,
    Max2us,
    Max4us,
    NoLimit,
}

impl EndpointL0sAcceptableLatency {
    /// The value that the field `byte` encodes; a field holds less than 8.
    pub open spec fn spec_from_bits(byte: u8) -> Self {
        match byte {
            0b000 => Self::Max64ns,
            0b001 => Self::Max128ns,
            0b010 => Self::Max256ns,
            0b011 => Self::Max512ns,
            0b100 => Self::Max1us,
            0b101 => Self::Max2us,
            0b110 => Self::Max4us,
            _ => Self::NoLimit,
        }
    }

    /// Decodes the field `byte`.
    pub fn from_bits(byte: u8) -> (r: Self)
        requires
            byte < 8,
        ensures
            r == Self::spec_from_bits(byte),
    {
        match byte {
            0b000 => Self::Max64ns,
            0b001 => Self::Max128ns,
            0b010 => Self::Max256ns,
            0b011 => Self::Max512ns,
            0b100 => Self::Max1us,
            0b101 => Self::Max2us,
            0b110 => Self::Max4us,
            _ => Self::NoLimit,
        }
    }
}

/// Aacceptable latency that an Endpoint can withstand due to the transition from L1 state to the
#[derive(Debug, Clone, Copy, PartialEq, Eq)]
pub enum EndpointL1AcceptableLatency {
    Max1us,
    Max2us,
    Max4us,
    Max8us,
    Max16us,
    Max32us,
    Max64us,
    NoLimit,
}

impl EndpointL1AcceptableLatency {
    /// The value that the field `byte` encodes; a field holds less than 8.
    pub open spec fn spec_from_bits(byte: u8) -> Self {
        match byte {
            0b000 => Self::Max1us,
            0b001 => Self::Max2us,
            0b010 => Self::Max4us,
            0b011 => Self::Max8us,
            0b100 => Self::Max16us,
            0b101 => Self::Max32us,
            0b110 => Self::Max64us,
            _ => Self::NoLimit,
        }
    }

    /// Decodes the field `byte`.
    pub fn from_bits(byte: u8) -> (r: Self)
        requires
            byte < 8,
        ensures
            r == Self::spec_from_bits(byte),
    {
        match byte {
            0b000 => Self::Max1us,
            0b001 => Self::Max2us,
            0b010 => Self::Max4us,
            0b011 => Self::Max8us,
            0b100 => Self::Max16us,
            0b101 => Self::Max32us,
            0b110 => Self::Max64us,
            _ => Self::NoLimit,
        }
    }
}

/// The Device Control register controls PCI Express device specific parameters
#[derive(Debug, Clone, PartialEq, Eq)]
pub struct DeviceControl {
    pub correctable_error_reporting_enable: bool,
    pub non_fatal_error_reporting_enable: bool,
    pub fatal_error_reporting_enable: bool,
    pub unsupported_request_reporting_enable: bool,
    pub enable_relaxed_ordering: bool,
    pub max_payload_size: MaxSize,
    pub extended_tag_field_enable: bool,
    pub phantom_functions_enable: bool,
    pub aux_power_pm_enable: bool,
    pub enable_no_snoop: bool,
    pub max_read_request_size: MaxSize,
    pub bcre_or_flreset: bool,
}

impl DeviceControl {
    /// The fields of the register value `word`.
    pub open spec fn spec_from(word: u16) -> Self {
        DeviceControl {
            correctable_error_reporting_enable: flag(word as u32, 0),
            non_fatal_error_reporting_enable: flag(word as u32, 1),
            fatal_error_reporting_enable: flag(word as u32, 2),
            unsupported_request_reporting_enable: flag(word as u32, 3),
            enable_relaxed_ordering: flag(word as u32, 4),
            max_payload_size: MaxSize::spec_from_bits(field(word as u32, 5, 0x7) as u8),
            extended_tag_field_enable: flag(word as u32, 8),
            phantom_functions_enable: flag(word as u32, 9),
            aux_power_pm_enable: flag(word as u32, 10),
            enable_no_snoop: flag(word as u32, 11),
            max_read_request_size: MaxSize::spec_from_bits(field(word as u32, 12, 0x7) as u8),
            bcre_or_flreset: flag(word as u32, 15),
        }
    }
}

impl vstd::std_specs::convert::FromSpecImpl<u16> for DeviceControl {
    open spec fn obeys_from_spec() -> bool {
        true
    }

    open spec fn from_spec(word: u16) -> Self {
        Self::spec_from(word)
    }
}

impl From<u16> for DeviceControl {
    fn from(word: u16) -> (r: Self) {
        let w = word as u32;
        DeviceControl {
            correctable_error_reporting_enable: get_flag(w, 0),
            non_fatal_error_reporting_enable: get_flag(w, 1),
            fatal_error_reporting_enable: get_flag(w, 2),
            unsupported_request_reporting_enable: get_flag(w, 3),
            enable_relaxed_ordering: get_flag(w, 4),
            max_payload_size: MaxSize::from_bits(get_u8(w, 5, 0x7)),
            extended_tag_field_enable: get_flag(w, 8),
            phantom_functions_enable: get_flag(w, 9),
            aux_power_pm_enable: get_flag(w, 10),
            enable_no_snoop: get_flag(w, 11),
            max_read_request_size: MaxSize::from_bits(get_u8(w, 12, 0x7)),
            bcre_or_flreset: get_flag(w, 15),
        }
    }
}

/// Provides information about PCI Express device (Function) specific parameters
#[derive(Debug, Clone, PartialEq, Eq)]
pub struct DeviceStatus {
    pub correctable_error_detected: bool,
    pub non_fatal_error_detected: bool,
    pub fatal_error_detected: bool,
    pub unsupported_request_detected: bool,
    pub aux_power_detected: bool,
    pub transactions_pending: bool,
}

impl DeviceStatus {
    /// The fields of the register value `word`.
    pub open spec fn spec_from(word: u16) -> Self {
        DeviceStatus {
            correctable_error_detected: flag(word as u32, 0),
            non_fatal_error_detected: flag(word as u32, 1),
            fatal_error_detected: flag(word as u32, 2),
            unsupported_request_detected: flag(word as u32, 3),
            aux_power_detected: flag(word as u32, 4),
            transactions_pending: flag(word as u32, 5),
        }
    }
}

impl vstd::std_specs::convert::FromSpecImpl<u16> for DeviceStatus {
    open spec fn obeys_from_spec() -> bool {
        true
    }

    open spec fn from_spec(word: u16) -> Self {
        Self::spec_from(word)
    }
}

impl From<u16> for DeviceStatus {
    fn from(word: u16) -> (r: Self) {
        let w = word as u32;
        DeviceStatus {
            correctable_error_detected: get_flag(w, 0),
            non_fatal_error_detected: get_flag(w, 1),
            fatal_error_detected: get_flag(w, 2),
            unsupported_request_detected: get_flag(w, 3),
            aux_power_detected: get_flag(w, 4),
            transactions_pending: get_flag(w, 5),
        }
    }
}

/// The Link Capabilities register identifies PCI Express Link specific capabilities
#[derive(Debug, Clone, PartialEq, Eq)]
pub struct LinkCapabilities {
    pub max_link_speed: LinkSpeed,
    pub maximum_link_width: LinkWidth,
    pub active_state_power_management_support: ActiveStatePowerManagement,
    pub l0s_exit_latency: L0sExitLatency,
    pub l1_exit_latency: L1ExitLatency,
    pub clock_power_management: bool,
    pub surprise_down_error_reporting_capable: bool,
    pub data_link_layer_link_active_reporting_capable: bool,
    pub link_bandwidth_notification_capability: bool,
    pub aspm_optionality_compliance: bool,
    pub port_number: u8,
}

impl LinkCapabilities {
    /// The fields of the register value `dword`.
    pub open spec fn spec_from(dword: u32) -> Self {
        LinkCapabilities {
            max_link_speed: LinkSpeed::spec_from(field(dword, 0, 0xf) as u8),
            maximum_link_width: LinkWidth::spec_from(field(dword, 4, 0x3f) as u8),
            active_state_power_management_support: ActiveStatePowerManagement::spec_from_bits(field(dword, 10, 0x3) as u8),
            l0s_exit_latency: L0sExitLatency::spec_from_bits(field(dword, 12, 0x7) as u8),
            l1_exit_latency: L1ExitLatency::spec_from_bits(field(dword, 15, 0x7) as u8),
            clock_power_management: flag(dword, 18),
            surprise_down_error_reporting_capable: flag(dword, 19),
            data_link_layer_link_active_reporting_capable: flag(dword, 20),
            link_bandwidth_notification_capability: flag(dword, 21),
            aspm_optionality_compliance: flag(dword, 22),
            port_number: field(dword, 24, 0xff) as u8,
        }
    }
}

impl vstd::std_specs::convert::FromSpecImpl<u32> for LinkCapabilities {
    open spec fn obeys_from_spec() -> bool {
        true
    }

    open spec fn from_spec(dword: u32) -> Self {
        Self::spec_from(dword)
    }
}

impl From<u32> for LinkCapabilities {
    fn from(dword: u32) -> (r: Self) {
        LinkCapabilities {
            max_link_speed: LinkSpeed::from(get_u8(dword, 0, 0xf)),
            maximum_link_width: LinkWidth::from(get_u8(dword, 4, 0x3f)),
            active_state_power_management_support: ActiveStatePowerManagement::from_bits(get_u8(dword, 10, 0x3)),
            l0s_exit_latency: L0sExitLatency::from_bits(get_u8(dword, 12, 0x7)),
            l1_exit_latency: L1ExitLatency::from_bits(get_u8(dword, 15, 0x7)),
            clock_power_management: get_flag(dword, 18),
            surprise_down_error_reporting_capable: get_flag(dword, 19),
            data_link_layer_link_active_reporting_capable: get_flag(dword, 20),
            link_bandwidth_notification_capability: get_flag(dword, 21),
            aspm_optionality_compliance: get_flag(dword, 22),
            port_number: get_u8(dword, 24, 0xff),
        }
    }
}

/// Max/Current/Target Link Speed
#[derive(Debug, Clone, Copy, PartialEq, Eq, PartialOrd, Ord)]
pub enum LinkSpeed {
    Rate2GTps,
    Rate5GTps,
    Rate8GTps,
    Rate16GTps,
    Rate32GTps,
    Rate64GTps,
    RateRsvdp,
    Reserved(u8),
}

impl LinkSpeed {
    /// The value that `byte` encodes.
    pub open spec fn spec_from(byte: u8) -> Self {
        match byte {
            0b0001 => Self::Rate2GTps,
            0b0010 => Self::Rate5GTps,
            0b0011 => Self::Rate8GTps,
            0b0100 => Self::Rate16GTps,
            0b0101 => Self::Rate32GTps,
            0b0110 => Self::Rate64GTps,
            0b0111 => Self::RateRsvdp,
            _ => Self::Reserved(byte),
        }
    }
}

impl LinkSpeed {
    /// The register field that encodes the value.
    pub open spec fn spec_to_bits(self) -> u8 {
        match self {
            LinkSpeed::Rate2GTps => 0b0001,
            LinkSpeed::Rate5GTps => 0b0010,
            LinkSpeed::Rate8GTps => 0b0011,
            LinkSpeed::Rate16GTps => 0b0100,
            LinkSpeed::Rate32GTps => 0b0101,
            LinkSpeed::Rate64GTps => 0b0110,
            LinkSpeed::RateRsvdp => 0b0111,
            LinkSpeed::Reserved(v) => v,
        }
    }
}

impl vstd::std_specs::convert::FromSpecImpl<LinkSpeed> for u8 {
    open spec fn obeys_from_spec() -> bool {
        true
    }

    open spec fn from_spec(value: LinkSpeed) -> Self {
        value.spec_to_bits()
    }
}

impl From<LinkSpeed> for u8 {
    fn from(value: LinkSpeed) -> (r: Self) {
        match value {
            LinkSpeed::Rate2GTps => 0b0001,
            LinkSpeed::Rate5GTps => 0b0010,
            LinkSpeed::Rate8GTps => 0b0011,
            LinkSpeed::Rate16GTps => 0b0100,
            LinkSpeed::Rate32GTps => 0b0101,
            LinkSpeed::Rate64GTps => 0b0110,
            LinkSpeed::RateRsvdp => 0b0111,
            LinkSpeed::Reserved(v) => v,
        }
    }
}

/// Encoding a decoded LinkSpeed field gives back the field.
pub proof fn lemma_link_speed_roundtrip(byte: u8)
    ensures
        LinkSpeed::spec_from(byte).spec_to_bits() == byte,
{
}

impl vstd::std_specs::convert::FromSpecImpl<u8> for LinkSpeed {
    open spec fn obeys_from_spec() -> bool {
        true
    }

    open spec fn from_spec(byte: u8) -> Self {
        Self::spec_from(byte)
    }
}

impl From<u8> for LinkSpeed {
    fn from(byte: u8) -> (r: Self) {
        match byte {
            0b0001 => Self::Rate2GTps,
            0b0010 => Self::Rate5GTps,
            0b0011 => Self::Rate8GTps,
            0b0100 => Self::Rate16GTps,
            0b0101 => Self::Rate32GTps,
            0b0110 => Self::Rate64GTps,
            0b0111 => Self::RateRsvdp,
            _ => Self::Reserved(byte),
        }
    }
}

/// Active State Power Management (ASPM) Support/Control
#[derive(Debug, Clone, PartialEq, Eq)]
pub enum ActiveStatePowerManagement {
    NoAspm,
    L0s,
    L1,
    L0sAndL1,
}

impl ActiveStatePowerManagement {
    /// The value that the field `byte` encodes; a field holds less than 4.
    pub open spec fn spec_from_bits(byte: u8) -> Self {
        match byte {
            0b00 => Self::NoAspm,
            0b01 => Self::L0s,
            0b10 => Self::L1,
            _ => Self::L0sAndL1,
        }
    }

    /// Decodes the field `byte`.
    pub fn from_bits(byte: u8) -> (r: Self)
        requires
            byte < 4,
        ensures
            r == Self::spec_from_bits(byte),
    {
        match byte {
            0b00 => Self::NoAspm,
            0b01 => Self::L0s,
            0b10 => Self::L1,
            _ => Self::L0sAndL1,
        }
    }
}

/// L0s Exit Latency
#[derive(Debug, Clone, Copy, PartialEq, Eq)]
pub enum L0sExitLatency {
    Lt64ns,
    Ge64nsAndLt128ns,
    Ge128nsAndLt256ns,
    Ge256nsAndLt512ns,
    Ge512nsAndLt1us,
    Ge1usAndLt2us,
    Ge2usAndLt4us,
    Gt4ns,
}

impl L0sExitLatency {
    /// The value that the field `byte` encodes; a field holds less than 8.
    pub open spec fn spec_from_bits(byte: u8) -> Self {
        match byte {
            0b000 => Self::Lt64ns,
            0b001 => Self::Ge64nsAndLt128ns,
            0b010 => Self::Ge128nsAndLt256ns,
            0b011 => Self::Ge256nsAndLt512ns,
            0b100 => Self::Ge512nsAndLt1us,
            0b101 => Self::Ge1usAndLt2us,
            0b110 => Self::Ge2usAndLt4us,
            _ => Self::Gt4ns,
        }
    }

    /// Decodes the field `byte`.
    pub fn from_bits(byte: u8) -> (r: Self)
        requires
            byte < 8,
        ensures
            r == Self::spec_from_bits(byte),
    {
        match byte {
            0b000 => Self::Lt64ns,
            0b001 => Self::Ge64nsAndLt128ns,
            0b010 => Self::Ge128nsAndLt256ns,
            0b011 => Self::Ge256nsAndLt512ns,
            0b100 => Self::Ge512nsAndLt1us,
            0b101 => Self::Ge1usAndLt2us,
            0b110 => Self::Ge2usAndLt4us,
            _ => Self::Gt4ns,
        }
    }
}

/// L1 Exit Latency
#[derive(Debug, Clone, Copy, PartialEq, Eq)]
pub enum L1ExitLatency {
    Lt1us,
    Ge1usAndLt2us,
    Ge2usAndLt4us,
    Ge4usAndLt8us,
    Ge8usAndLt16us,
    Ge16usAndLt32us,
    Ge32usAndLt64us,
    Gt64ns,
}

impl L1ExitLatency {
    /// The value that the field `byte` encodes; a field holds less than 8.
    pub open spec fn spec_from_bits(byte: u8) -> Self {
        match byte {
            0b000 => Self::Lt1us,
            0b001 => Self::Ge1usAndLt2us,
            0b010 => Self::Ge2usAndLt4us,
            0b011 => Self::Ge4usAndLt8us,
            0b100 => Self::Ge8usAndLt16us,
            0b101 => Self::Ge16usAndLt32us,
            0b110 => Self::Ge32usAndLt64us,
            _ => Self::Gt64ns,
        }
    }

    /// Decodes the field `byte`.
    pub fn from_bits(byte: u8) -> (r: Self)
        requires
            byte < 8,
        ensures
            r == Self::spec_from_bits(byte),
    {
        match byte {
            0b000 => Self::Lt1us,
            0b001 => Self::Ge1usAndLt2us,
            0b010 => Self::Ge2usAndLt4us,
            0b011 => Self::Ge4usAndLt8us,
            0b100 => Self::Ge8usAndLt16us,
            0b101 => Self::Ge16usAndLt32us,
            0b110 => Self::Ge32usAndLt64us,
            _ => Self::Gt64ns,
        }
    }
}

/// Link Control register
#[derive(Debug, Clone, PartialEq, Eq)]
pub struct LinkControl {
    pub active_state_power_management_control: ActiveStatePowerManagement,
    pub read_completion_boundary: ReadCompletionBoundary,
    pub link_disable: bool,
    pub retrain_link: bool,
    pub common_clock_configuration: bool,
    pub extended_synch: bool,
    pub enable_clock_power_management: bool,
    pub hardware_autonomous_width_disable: bool,
    pub link_bandwidth_management_interrupt_enable: bool,
    pub link_autonomous_bandwidth_interrupt_enable: bool,
}

impl LinkControl {
    /// The fields of the register value `word`.
    pub open spec fn spec_from(word: u16) -> Self {
        LinkControl {
            active_state_power_management_control: ActiveStatePowerManagement::spec_from_bits(field(word as u32, 0, 0x3) as u8),
            read_completion_boundary: ReadCompletionBoundary::spec_from(flag(word as u32, 3)),
            link_disable: flag(word as u32, 4),
            retrain_link: flag(word as u32, 5),
            common_clock_configuration: flag(word as u32, 6),
            extended_synch: flag(word as u32, 7),
            enable_clock_power_management: flag(word as u32, 8),
            hardware_autonomous_width_disable: flag(word as u32, 9),
            link_bandwidth_management_interrupt_enable: flag(word as u32, 10),
            link_autonomous_bandwidth_interrupt_enable: flag(word as u32, 11),
        }
    }
}

impl vstd::std_specs::convert::FromSpecImpl<u16> for LinkControl {
    open spec fn obeys_from_spec() -> bool {
        true
    }

    open spec fn from_spec(word: u16) -> Self {
        Self::spec_from(word)
    }
}

impl From<u16> for LinkControl {
    fn from(word: u16) -> (r: Self) {
        let w = word as u32;
        LinkControl {
            active_state_power_management_control: ActiveStatePowerManagement::from_bits(get_u8(w, 0, 0x3)),
            read_completion_boundary: ReadCompletionBoundary::from(get_flag(w, 3)),
            link_disable: get_flag(w, 4),
            retrain_link: get_flag(w, 5),
            common_clock_configuration: get_flag(w, 6),
            extended_synch: get_flag(w, 7),
            enable_clock_power_management: get_flag(w, 8),
            hardware_autonomous_width_disable: get_flag(w, 9),
            link_bandwidth_management_interrupt_enable: get_flag(w, 10),
            link_autonomous_bandwidth_interrupt_enable: get_flag(w, 11),
        }
    }
}

/// The Link Status register provides information about PCI Express Link specific parameters
#[derive(Debug, Clone, PartialEq, Eq)]
pub struct LinkStatus {
    pub current_link_speed: LinkSpeed,
    pub negotiated_link_width: LinkWidth,
    pub link_training_error: bool,
    pub link_training: bool,
    pub slot_clock_configuration: bool,
    pub data_link_layer_link_active: bool,
    pub link_bandwidth_management_status: bool,
    pub link_autonomous_bandwidth_status: bool,
}

impl LinkStatus {
    /// The fields of the register value `word`.
    pub open spec fn spec_from(word: u16) -> Self {
        LinkStatus {
            current_link_speed: LinkSpeed::spec_from(field(word as u32, 0, 0xf) as u8),
            negotiated_link_width: LinkWidth::spec_from(field(word as u32, 4, 0x3f) as u8),
            link_training_error: flag(word as u32, 10),
            link_training: flag(word as u32, 11),
            slot_clock_configuration: flag(word as u32, 12),
            data_link_layer_link_active: flag(word as u32, 13),
            link_bandwidth_management_status: flag(word as u32, 14),
            link_autonomous_bandwidth_status: flag(word as u32, 15),
        }
    }
}

impl vstd::std_specs::convert::FromSpecImpl<u16> for LinkStatus {
    open spec fn obeys_from_spec() -> bool {
        true
    }

    open spec fn from_spec(word: u16) -> Self {
        Self::spec_from(word)
    }
}

impl From<u16> for LinkStatus {
    fn from(word: u16) -> (r: Self) {
        let w = word as u32;
        LinkStatus {
            current_link_speed: LinkSpeed::from(get_u8(w, 0, 0xf)),
            negotiated_link_width: LinkWidth::from(get_u8(w, 4, 0x3f)),
            link_training_error: get_flag(w, 10),
            link_training: get_flag(w, 11),
            slot_clock_configuration: get_flag(w, 12),
            data_link_layer_link_active: get_flag(w, 13),
            link_bandwidth_management_status: get_flag(w, 14),
            link_autonomous_bandwidth_status: get_flag(w, 15),
        }
    }
}

/// Slot Control register
#[derive(Debug, Clone, PartialEq, Eq)]
pub struct SlotControl {
    pub attention_button_pressed_enable: bool,
    pub power_fault_detected_enable: bool,
    pub mrl_sensor_changed_enable: bool,
    pub presence_detect_changed_enable: bool,
    pub command_completed_interrupt_enable: bool,
    pub hot_plug_interrupt_enable: bool,
    pub attention_indicator_control: IndicatorControl,
    pub power_indicator_control: IndicatorControl,
    pub power_controller_control: bool,
    pub electromechanical_interlock_control: bool,
    pub data_link_layer_state_changed_enable: bool,
}

impl SlotControl {
    /// The fields of the register value `word`.
    pub open spec fn spec_from(word: u16) -> Self {
        SlotControl {
            attention_button_pressed_enable: flag(word as u32, 0),
            power_fault_detected_enable: flag(word as u32, 1),
            mrl_sensor_changed_enable: flag(word as u32, 2),
            presence_detect_changed_enable: flag(word as u32, 3),
            command_completed_interrupt_enable: flag(word as u32, 4),
            hot_plug_interrupt_enable: flag(word as u32, 5),
            attention_indicator_control: IndicatorControl::spec_from_bits(field(word as u32, 6, 0x3) as u8),
            power_indicator_control: IndicatorControl::spec_from_bits(field(word as u32, 8, 0x3) as u8),
            power_controller_control: flag(word as u32, 10),
            electromechanical_interlock_control: flag(word as u32, 11),
            data_link_layer_state_changed_enable: flag(word as u32, 12),
        }
    }
}

impl vstd::std_specs::convert::FromSpecImpl<u16> for SlotControl {
    open spec fn obeys_from_spec() -> bool {
        true
    }

    open spec fn from_spec(word: u16) -> Self {
        Self::spec_from(word)
    }
}

impl From<u16> for SlotControl {
    fn from(word: u16) -> (r: Self) {
        let w = word as u32;
        SlotControl {
            attention_button_pressed_enable: get_flag(w, 0),
            power_fault_detected_enable: get_flag(w, 1),
            mrl_sensor_changed_enable: get_flag(w, 2),
            presence_detect_changed_enable: get_flag(w, 3),
            command_completed_interrupt_enable: get_flag(w, 4),
            hot_plug_interrupt_enable: get_flag(w, 5),
            attention_indicator_control: IndicatorControl::from_bits(get_u8(w, 6, 0x3)),
            power_indicator_control: IndicatorControl::from_bits(get_u8(w, 8, 0x3)),
            power_controller_control: get_flag(w, 10),
            electromechanical_interlock_control: get_flag(w, 11),
            data_link_layer_state_changed_enable: get_flag(w, 12),
        }
    }
}

/// Attention/Power Indicator Control
#[derive(Debug, Clone, PartialEq, Eq)]
pub enum IndicatorControl {
    Reserved,
    On,
    Blink,
    Off,
}

impl IndicatorControl {
    /// The value that the field `byte` encodes; a field holds less than 4.
    pub open spec fn spec_from_bits(byte: u8) -> Self {
        match byte {
            0b00 => Self::Reserved,
            0b01 => Self::On,
            0b10 => Self::Blink,
            _ => Self::Off,
        }
    }

    /// Decodes the field `byte`.
    pub fn from_bits(byte: u8) -> (r: Self)
        requires
            byte < 4,
        ensures
            r == Self::spec_from_bits(byte),
    {
        match byte {
            0b00 => Self::Reserved,
            0b01 => Self::On,
            0b10 => Self::Blink,
            _ => Self::Off,
        }
    }
}

/// Slot Status register
#[derive(Debug, Clone, PartialEq, Eq)]
pub struct SlotStatus {
    pub attention_button_pressed: bool,
    pub power_fault_detected: bool,
    pub mrl_sensor_changed: bool,
    pub presence_detect_changed: bool,
    pub command_completed: bool,
    pub mrl_sensor_state: bool,
    pub presence_detect_state: bool,
    pub electromechanical_interlock_status: bool,
    pub data_link_layer_state_changed: bool,
}

impl SlotStatus {
    /// The fields of the register value `word`.
    pub open spec fn spec_from(word: u16) -> Self {
        SlotStatus {
            attention_button_pressed: flag(word as u32, 0),
            power_fault_detected: flag(word as u32, 1),
            mrl_sensor_changed: flag(word as u32, 2),
            presence_detect_changed: flag(word as u32, 3),
            command_completed: flag(word as u32, 4),
            mrl_sensor_state: flag(word as u32, 5),
            presence_detect_state: flag(word as u32, 6),
            electromechanical_interlock_status: flag(word as u32, 7),
            data_link_layer_state_changed: flag(word as u32, 8),
        }
    }
}

impl vstd::std_specs::convert::FromSpecImpl<u16> for SlotStatus {
    open spec fn obeys_from_spec() -> bool {
        true
    }

    open spec fn from_spec(word: u16) -> Self {
        Self::spec_from(word)
    }
}

impl From<u16> for SlotStatus {
    fn from(word: u16) -> (r: Self) {
        let w = word as u32;
        SlotStatus {
            attention_button_pressed: get_flag(w, 0),
            power_fault_detected: get_flag(w, 1),
            mrl_sensor_changed: get_flag(w, 2),
            presence_detect_changed: get_flag(w, 3),
            command_completed: get_flag(w, 4),
            mrl_sensor_state: get_flag(w, 5),
            presence_detect_state: get_flag(w, 6),
            electromechanical_interlock_status: get_flag(w, 7),
            data_link_layer_state_changed: get_flag(w, 8),
        }
    }
}

/// The Root Control register controls PCI Express Root Complex specific parameters
#[derive(Debug, Clone, PartialEq, Eq)]
pub struct RootControl {
    pub system_error_on_correctable_error_enable: bool,
    pub system_error_on_non_fatal_error_enable: bool,
    pub system_error_on_fatal_error_enable: bool,
    pub pme_interrupt_enable: bool,
    pub crs_software_visibility_enable: bool,
}

impl RootControl {
    /// The fields of the register value `word`.
    pub open spec fn spec_from(word: u16) -> Self {
        RootControl {
            system_error_on_correctable_error_enable: flag(word as u32, 0),
            system_error_on_non_fatal_error_enable: flag(word as u32, 1),
            system_error_on_fatal_error_enable: flag(word as u32, 2),
            pme_interrupt_enable: flag(word as u32, 3),
            crs_software_visibility_enable: flag(word as u32, 4),
        }
    }
}

impl vstd::std_specs::convert::FromSpecImpl<u16> for RootControl {
    open spec fn obeys_from_spec() -> bool {
        true
    }

    open spec fn from_spec(word: u16) -> Self {
        Self::spec_from(word)
    }
}

impl From<u16> for RootControl {
    fn from(word: u16) -> (r: Self) {
        let w = word as u32;
        RootControl {
            system_error_on_correctable_error_enable: get_flag(w, 0),
            system_error_on_non_fatal_error_enable: get_flag(w, 1),
            system_error_on_fatal_error_enable: get_flag(w, 2),
            pme_interrupt_enable: get_flag(w, 3),
            crs_software_visibility_enable: get_flag(w, 4),
        }
    }
}

/// The Root Capabilities register identifies PCI Express Root Port specific capabilities
#[derive(Debug, Clone, PartialEq, Eq)]
pub struct RootCapabilities {
    pub crs_software_visibility: bool,
}

impl RootCapabilities {
    /// The fields of the register value `word`.
    pub open spec fn spec_from(word: u16) -> Self {
        RootCapabilities {
            crs_software_visibility: flag(word as u32, 0),
        }
    }
}

impl vstd::std_specs::convert::FromSpecImpl<u16> for RootCapabilities {
    open spec fn obeys_from_spec() -> bool {
        true
    }

    open spec fn from_spec(word: u16) -> Self {
        Self::spec_from(word)
    }
}

impl From<u16> for RootCapabilities {
    fn from(word: u16) -> (r: Self) {
        let w = word as u32;
        RootCapabilities {
            crs_software_visibility: get_flag(w, 0),
        }
    }
}

/// The Root Status register provides information about PCI Express device specific parameters
#[derive(Debug, Clone, PartialEq, Eq)]
pub struct RootStatus {
    pub pme_requester_id: u16,
    pub pme_status: bool,
    pub pme_pending: bool,
}

impl RootStatus {
    /// The fields of the register value `dword`.
    pub open spec fn spec_from(dword: u32) -> Self {
        RootStatus {
            pme_requester_id: field(dword, 0, 0xffff) as u16,
            pme_status: flag(dword, 16),
            pme_pending: flag(dword, 17),
        }
    }
}

impl vstd::std_specs::convert::FromSpecImpl<u32> for RootStatus {
    open spec fn obeys_from_spec() -> bool {
        true
    }

    open spec fn from_spec(dword: u32) -> Self {
        Self::spec_from(dword)
    }
}

impl From<u32> for RootStatus {
    fn from(dword: u32) -> (r: Self) {
        RootStatus {
            pme_requester_id: get_u16(dword, 0, 0xffff),
            pme_status: get_flag(dword, 16),
            pme_pending: get_flag(dword, 17),
        }
    }
}

/// Device Capabilities 2 register
#[derive(Debug, Clone, PartialEq, Eq)]
pub struct DeviceCapabilities2 {
    pub completion_timeout_ranges_supported: CompletionTimeoutRanges,
    pub completion_timeout_disable_supported: bool,
    pub ari_forwarding_supported: bool,
    pub atomic_op_routing_supported: bool,
    pub u32_atomicop_completer_supported: bool,
    pub u64_atomicop_completer_supported: bool,
    pub u128_cas_completer_supported: bool,
    pub no_ro_enabled_pr_pr_passing: bool,
    pub ltr_mechanism_supported: bool,
    pub tph_completer_supported: TphCompleter,
    pub ln_system_cls: LnSystemCls,
    pub support_10bit_tag_completer: bool,
    pub support_10bit_tag_requester: bool,
    pub obff_supported: Obff,
    pub extended_fmt_field_supported: bool,
    pub end_end_tlp_prefix_supported: bool,
    pub max_end_end_tlp_prefixes: MaxEndEndTlpPrefixes,
    pub emergency_power_reduction_supported: EmergencyPowerReduction,
    pub emergency_power_reduction_initialization_required: bool,
    pub frs_supported: bool,
}

impl DeviceCapabilities2 {
    /// The fields of the register value `dword`.
    pub open spec fn spec_from(dword: u32) -> Self {
        DeviceCapabilities2 {
            completion_timeout_ranges_supported: CompletionTimeoutRanges::spec_from(field(dword, 0, 0xf) as u8),
            completion_timeout_disable_supported: flag(dword, 4),
            ari_forwarding_supported: flag(dword, 5),
            atomic_op_routing_supported: flag(dword, 6),
            u32_atomicop_completer_supported: flag(dword, 7),
            u64_atomicop_completer_supported: flag(dword, 8),
            u128_cas_completer_supported: flag(dword, 9),
            no_ro_enabled_pr_pr_passing: flag(dword, 10),
            ltr_mechanism_supported: flag(dword, 11),
            tph_completer_supported: TphCompleter::spec_from_bits(field(dword, 12, 0x3) as u8),
            ln_system_cls: LnSystemCls::spec_from_bits(field(dword, 14, 0x3) as u8),
            support_10bit_tag_completer: flag(dword, 16),
            support_10bit_tag_requester: flag(dword, 17),
            obff_supported: Obff::spec_from_bits(field(dword, 18, 0x3) as u8),
            extended_fmt_field_supported: flag(dword, 20),
            end_end_tlp_prefix_supported: flag(dword, 21),
            max_end_end_tlp_prefixes: MaxEndEndTlpPrefixes::spec_from_bits(field(dword, 22, 0x3) as u8),
            emergency_power_reduction_supported: EmergencyPowerReduction::spec_from_bits(field(dword, 24, 0x3) as u8),
            emergency_power_reduction_initialization_required: flag(dword, 26),
            frs_supported: flag(dword, 31),
        }
    }
}

impl vstd::std_specs::convert::FromSpecImpl<u32> for DeviceCapabilities2 {
    open spec fn obeys_from_spec() -> bool {
        true
    }

    open spec fn from_spec(dword: u32) -> Self {
        Self::spec_from(dword)
    }
}

impl From<u32> for DeviceCapabilities2 {
    fn from(dword: u32) -> (r: Self) {
        DeviceCapabilities2 {
            completion_timeout_ranges_supported: CompletionTimeoutRanges::from(get_u8(dword, 0, 0xf)),
            completion_timeout_disable_supported: get_flag(dword, 4),
            ari_forwarding_supported: get_flag(dword, 5),
            atomic_op_routing_supported: get_flag(dword, 6),
            u32_atomicop_completer_supported: get_flag(dword, 7),
            u64_atomicop_completer_supported: get_flag(dword, 8),
            u128_cas_completer_supported: get_flag(dword, 9),
            no_ro_enabled_pr_pr_passing: get_flag(dword, 10),
            ltr_mechanism_supported: get_flag(dword, 11),
            tph_completer_supported: TphCompleter::from_bits(get_u8(dword, 12, 0x3)),
            ln_system_cls: LnSystemCls::from_bits(get_u8(dword, 14, 0x3)),
            support_10bit_tag_completer: get_flag(dword, 16),
            support_10bit_tag_requester: get_flag(dword, 17),
            obff_supported: Obff::from_bits(get_u8(dword, 18, 0x3)),
            extended_fmt_field_supported: get_flag(dword, 20),
            end_end_tlp_prefix_supported: get_flag(dword, 21),
            max_end_end_tlp_prefixes: MaxEndEndTlpPrefixes::from_bits(get_u8(dword, 22, 0x3)),
            emergency_power_reduction_supported: EmergencyPowerReduction::from_bits(get_u8(dword, 24, 0x3)),
            emergency_power_reduction_initialization_required: get_flag(dword, 26),
            frs_supported: get_flag(dword, 31),
        }
    }
}

/// Indicates device Function support for the optional Completion Timeout programmability mechanism
#[derive(Debug, Clone, PartialEq, Eq)]
pub enum CompletionTimeoutRanges {
    NotSupported,
    RangeA,
    RangeB,
    RangesAB,
    RangesBC,
    RangesABC,
    RangesBCD,
    RangesABCD,
    Reserved(u8),
}

impl CompletionTimeoutRanges {
    /// The value that `byte` encodes.
    pub open spec fn spec_from(byte: u8) -> Self {
        match byte {
            0b0000 => Self::NotSupported,
            0b0001 => Self::RangeA,
            0b0010 => Self::RangeB,
            0b0011 => Self::RangesAB,
            0b0110 => Self::RangesBC,
            0b0111 => Self::RangesABC,
            0b1110 => Self::RangesBCD,
            0b1111 => Self::RangesABCD,
            _ => Self::Reserved(byte),
        }
    }
}

impl CompletionTimeoutRanges {
    /// The register field that encodes the value.
    pub open spec fn spec_to_bits(self) -> u8 {
        match self {
            CompletionTimeoutRanges::NotSupported => 0b0000,
            CompletionTimeoutRanges::RangeA => 0b0001,
            CompletionTimeoutRanges::RangeB => 0b0010,
            CompletionTimeoutRanges::RangesAB => 0b0011,
            CompletionTimeoutRanges::RangesBC => 0b0110,
            CompletionTimeoutRanges::RangesABC => 0b0111,
            CompletionTimeoutRanges::RangesBCD => 0b1110,
            CompletionTimeoutRanges::RangesABCD => 0b1111,
            CompletionTimeoutRanges::Reserved(v) => v,
        }
    }
}

impl vstd::std_specs::convert::FromSpecImpl<CompletionTimeoutRanges> for u8 {
    open spec fn obeys_from_spec() -> bool {
        true
    }

    open spec fn from_spec(value: CompletionTimeoutRanges) -> Self {
        value.spec_to_bits()
    }
}

impl From<CompletionTimeoutRanges> for u8 {
    fn from(value: CompletionTimeoutRanges) -> (r: Self) {
        match value {
            CompletionTimeoutRanges::NotSupported => 0b0000,
            CompletionTimeoutRanges::RangeA => 0b0001,
            CompletionTimeoutRanges::RangeB => 0b0010,
            CompletionTimeoutRanges::RangesAB => 0b0011,
            CompletionTimeoutRanges::RangesBC => 0b0110,
            CompletionTimeoutRanges::RangesABC => 0b0111,
            CompletionTimeoutRanges::RangesBCD => 0b1110,
            CompletionTimeoutRanges::RangesABCD => 0b1111,
            CompletionTimeoutRanges::Reserved(v) => v,
        }
    }
}

/// Encoding a decoded CompletionTimeoutRanges field gives back the field.
pub proof fn lemma_completion_timeout_ranges_roundtrip(byte: u8)
    ensures
        CompletionTimeoutRanges::spec_from(byte).spec_to_bits() == byte,
{
}

impl vstd::std_specs::convert::FromSpecImpl<u8> for CompletionTimeoutRanges {
    open spec fn obeys_from_spec() -> bool {
        true
    }

    open spec fn from_spec(byte: u8) -> Self {
        Self::spec_from(byte)
    }
}

impl From<u8> for CompletionTimeoutRanges {
    fn from(byte: u8) -> (r: Self) {
        match byte {
            0b0000 => Self::NotSupported,
            0b0001 => Self::RangeA,
            0b0010 => Self::RangeB,
            0b0011 => Self::RangesAB,
            0b0110 => Self::RangesBC,
            0b0111 => Self::RangesABC,
            0b1110 => Self::RangesBCD,
            0b1111 => Self::RangesABCD,
            _ => Self::Reserved(byte),
        }
    }
}

/// Value indicates Completer support for TPH or Extended TPH
#[derive(Debug, Clone, PartialEq, Eq)]
pub enum TphCompleter {
    NotSupported,
    Tph,
    Reserved,
    TphAndExtendedTph,
}

impl TphCompleter {
    /// The value that the field `byte` encodes; a field holds less than 4.
    pub open spec fn spec_from_bits(byte: u8) -> Self {
        match byte {
            0b00 => Self::NotSupported,
            0b01 => Self::Tph,
            0b10 => Self::Reserved,
            _ => Self::TphAndExtendedTph,
        }
    }

    /// Decodes the field `byte`.
    pub fn from_bits(byte: u8) -> (r: Self)
        requires
            byte < 4,
        ensures
            r == Self::spec_from_bits(byte),
    {
        match byte {
            0b00 => Self::NotSupported,
            0b01 => Self::Tph,
            0b10 => Self::Reserved,
            _ => Self::TphAndExtendedTph,
        }
    }
}

impl TphCompleter {
    /// The register field that encodes the value.
    pub open spec fn spec_to_bits(self) -> u8 {
        match self {
            TphCompleter::NotSupported => 0b00,
            TphCompleter::Tph => 0b01,
            TphCompleter::Reserved => 0b10,
            TphCompleter::TphAndExtendedTph => 0b11,
        }
    }
}

impl vstd::std_specs::convert::FromSpecImpl<TphCompleter> for u8 {
    open spec fn obeys_from_spec() -> bool {
        true
    }

    open spec fn from_spec(value: TphCompleter) -> Self {
        value.spec_to_bits()
    }
}

impl From<TphCompleter> for u8 {
    fn from(value: TphCompleter) -> (r: Self) {
        match value {
            TphCompleter::NotSupported => 0b00,
            TphCompleter::Tph => 0b01,
            TphCompleter::Reserved => 0b10,
            TphCompleter::TphAndExtendedTph => 0b11,
        }
    }
}

/// Encoding a decoded TphCompleter field gives back the field.
pub proof fn lemma_tph_completer_roundtrip(byte: u8)
    requires
        byte < 4,
    ensures
        TphCompleter::spec_from_bits(byte).spec_to_bits() == byte,
{
}

/// Indicates if the Root Port or RCRB supports LN protocol as an LN Completer, and if so, what
#[derive(Debug, Clone, PartialEq, Eq)]
pub enum LnSystemCls {
    NotSupported,
    Cachelines64Byte,
    Cachelines128Byte,
    Reserved,
}

impl LnSystemCls {
    /// The value that the field `byte` encodes; a field holds less than 4.
    pub open spec fn spec_from_bits(byte: u8) -> Self {
        match byte {
            0b00 => Self::NotSupported,
            0b01 => Self::Cachelines64Byte,
            0b10 => Self::Cachelines128Byte,
            _ => Self::Reserved,
        }
    }

    /// Decodes the field `byte`.
    pub fn from_bits(byte: u8) -> (r: Self)
        requires
            byte < 4,
        ensures
            r == Self::spec_from_bits(byte),
    {
        match byte {
            0b00 => Self::NotSupported,
            0b01 => Self::Cachelines64Byte,
            0b10 => Self::Cachelines128Byte,
            _ => Self::Reserved,
        }
    }
}

impl LnSystemCls {
    /// The register field that encodes the value.
    pub open spec fn spec_to_bits(self) -> u8 {
        match self {
            LnSystemCls::NotSupported => 0b00,
            LnSystemCls::Cachelines64Byte => 0b01,
            LnSystemCls::Cachelines128Byte => 0b10,
            LnSystemCls::Reserved => 0b11,
        }
    }
}

impl vstd::std_specs::convert::FromSpecImpl<LnSystemCls> for u8 {
    open spec fn obeys_from_spec() -> bool {
        true
    }

    open spec fn from_spec(value: LnSystemCls) -> Self {
        value.spec_to_bits()
    }
}

impl From<LnSystemCls> for u8 {
    fn from(value: LnSystemCls) -> (r: Self) {
        match value {
            LnSystemCls::NotSupported => 0b00,
            LnSystemCls::Cachelines64Byte => 0b01,
            LnSystemCls::Cachelines128Byte => 0b10,
            LnSystemCls::Reserved => 0b11,
        }
    }
}

/// Encoding a decoded LnSystemCls field gives back the field.
pub proof fn lemma_ln_system_cls_roundtrip(byte: u8)
    requires
        byte < 4,
    ensures
        LnSystemCls::spec_from_bits(byte).spec_to_bits() == byte,
{
}

/// Indicates if OBFF is supported and, if so, what signaling mechanism is used
#[derive(Debug, Clone, PartialEq, Eq)]
pub enum Obff {
    NotSupported,
    Message,
    Wake,
    WakeAndMessage,
}

impl Obff {
    /// The value that the field `byte` encodes; a field holds less than 4.
    pub open spec fn spec_from_bits(byte: u8) -> Self {
        match byte {
            0b00 => Self::NotSupported,
            0b01 => Self::Message,
            0b10 => Self::Wake,
            _ => Self::WakeAndMessage,
        }
    }

    /// Decodes the field `byte`.
    pub fn from_bits(byte: u8) -> (r: Self)
        requires
            byte < 4,
        ensures
            r == Self::spec_from_bits(byte),
    {
        match byte {
            0b00 => Self::NotSupported,
            0b01 => Self::Message,
            0b10 => Self::Wake,
            _ => Self::WakeAndMessage,
        }
    }
}

impl Obff {
    /// The register field that encodes the value.
    pub open spec fn spec_to_bits(self) -> u8 {
        match self {
            Obff::NotSupported => 0b00,
            Obff::Message => 0b01,
            Obff::Wake => 0b10,
            Obff::WakeAndMessage => 0b11,
        }
    }
}

impl vstd::std_specs::convert::FromSpecImpl<Obff> for u8 {
    open spec fn obeys_from_spec() -> bool {
        true
    }

    open spec fn from_spec(value: Obff) -> Self {
        value.spec_to_bits()
    }
}

impl From<Obff> for u8 {
    fn from(value: Obff) -> (r: Self) {
        match value {
            Obff::NotSupported => 0b00,
            Obff::Message => 0b01,
            Obff::Wake => 0b10,
            Obff::WakeAndMessage => 0b11,
        }
    }
}

/// Encoding a decoded Obff field gives back the field.
pub proof fn lemma_obff_roundtrip(byte: u8)
    requires
        byte < 4,
    ensures
        Obff::spec_from_bits(byte).spec_to_bits() == byte,
{
}

/// Indicates the maximum number of End-End TLP Prefixes supported by this Function
#[derive(Debug, Clone, Copy, PartialEq, Eq)]
pub enum MaxEndEndTlpPrefixes {
    Max4,
    Max1,
    Max2,
    Max3,
}

impl MaxEndEndTlpPrefixes {
    /// The value that the field `byte` encodes; a field holds less than 4.
    pub open spec fn spec_from_bits(byte: u8) -> Self {
        match byte {
            0b00 => Self::Max4,
            0b01 => Self::Max1,
            0b10 => Self::Max2,
            _ => Self::Max3,
        }
    }

    /// Decodes the field `byte`.
    pub fn from_bits(byte: u8) -> (r: Self)
        requires
            byte < 4,
        ensures
            r == Self::spec_from_bits(byte),
    {
        match byte {
            0b00 => Self::Max4,
            0b01 => Self::Max1,
            0b10 => Self::Max2,
            _ => Self::Max3,
        }
    }
}

impl MaxEndEndTlpPrefixes {
    /// The register field that encodes the value.
    pub open spec fn spec_to_bits(self) -> u8 {
        match self {
            MaxEndEndTlpPrefixes::Max4 => 0b00,
            MaxEndEndTlpPrefixes::Max1 => 0b01,
            MaxEndEndTlpPrefixes::Max2 => 0b10,
            MaxEndEndTlpPrefixes::Max3 => 0b11,
        }
    }
}

impl vstd::std_specs::convert::FromSpecImpl<MaxEndEndTlpPrefixes> for u8 {
    open spec fn obeys_from_spec() -> bool {
        true
    }

    open spec fn from_spec(value: MaxEndEndTlpPrefixes) -> Self {
        value.spec_to_bits()
    }
}

impl From<MaxEndEndTlpPrefixes> for u8 {
    fn from(value: MaxEndEndTlpPrefixes) -> (r: Self) {
        match value {
            MaxEndEndTlpPrefixes::Max4 => 0b00,
            MaxEndEndTlpPrefixes::Max1 => 0b01,
            MaxEndEndTlpPrefixes::Max2 => 0b10,
            MaxEndEndTlpPrefixes::Max3 => 0b11,
        }
    }
}

/// Encoding a decoded MaxEndEndTlpPrefixes field gives back the field.
pub proof fn lemma_max_end_end_tlp_prefixes_roundtrip(byte: u8)
    requires
        byte < 4,
    ensures
        MaxEndEndTlpPrefixes::spec_from_bits(byte).spec_to_bits() == byte,
{
}

/// Indicates support level of the optional Emergency Power Reduction State feature
#[derive(Debug, Clone, PartialEq, Eq)]
pub enum EmergencyPowerReduction {
    NotSupported,
    DeviceSpecific,
    FormFactorOrDeviceSpecific,
    Reserved,
}

impl EmergencyPowerReduction {
    /// The value that the field `byte` encodes; a field holds less than 4.
    pub open spec fn spec_from_bits(byte: u8) -> Self {
        match byte {
            0b00 => Self::NotSupported,
            0b01 => Self::DeviceSpecific,
            0b10 => Self::FormFactorOrDeviceSpecific,
            _ => Self::Reserved,
        }
    }

    /// Decodes the field `byte`.
    pub fn from_bits(byte: u8) -> (r: Self)
        requires
            byte < 4,
        ensures
            r == Self::spec_from_bits(byte),
    {
        match byte {
            0b00 => Self::NotSupported,
            0b01 => Self::DeviceSpecific,
            0b10 => Self::FormFactorOrDeviceSpecific,
            _ => Self::Reserved,
        }
    }
}

impl EmergencyPowerReduction {
    /// The register field that encodes the value.
    pub open spec fn spec_to_bits(self) -> u8 {
        match self {
            EmergencyPowerReduction::NotSupported => 0b00,
            EmergencyPowerReduction::DeviceSpecific => 0b01,
            EmergencyPowerReduction::FormFactorOrDeviceSpecific => 0b10,
            EmergencyPowerReduction::Reserved => 0b11,
        }
    }
}

impl vstd::std_specs::convert::FromSpecImpl<EmergencyPowerReduction> for u8 {
    open spec fn obeys_from_spec() -> bool {
        true
    }

    open spec fn from_spec(value: EmergencyPowerReduction) -> Self {
        value.spec_to_bits()
    }
}

impl From<EmergencyPowerReduction> for u8 {
    fn from(value: EmergencyPowerReduction) -> (r: Self) {
        match value {
            EmergencyPowerReduction::NotSupported => 0b00,
            EmergencyPowerReduction::DeviceSpecific => 0b01,
            EmergencyPowerReduction::FormFactorOrDeviceSpecific => 0b10,
            EmergencyPowerReduction::Reserved => 0b11,
        }
    }
}

/// Encoding a decoded EmergencyPowerReduction field gives back the field.
pub proof fn lemma_emergency_power_reduction_roundtrip(byte: u8)
    requires
        byte < 4,
    ensures
        EmergencyPowerReduction::spec_from_bits(byte).spec_to_bits() == byte,
{
}

/// Device Control 2 Register
#[derive(Debug, Clone, PartialEq, Eq)]
pub struct DeviceControl2 {
    pub completion_timeout_value: CompletionTimeoutValue,
    pub completion_timeout_disable: bool,
    pub ari_forwarding_enable: bool,
    pub atomic_op_requester_enable: bool,
    pub atomic_op_egress_blocking: bool,
    pub ido_request_enable: bool,
    pub ido_completion_enable: bool,
    pub ltr_mechanism_enable: bool,
    pub emergency_power_reduction_request: bool,
    pub enable_10bit_tag_requester: bool,
    pub obff_enable: ObffEnable,
    pub end_end_tlp_prefix_blocking: EndEndTlpPrefixBlocking,
}

impl DeviceControl2 {
    /// The fields of the register value `word`.
    pub open spec fn spec_from(word: u16) -> Self {
        DeviceControl2 {
            completion_timeout_value: CompletionTimeoutValue::spec_from(field(word as u32, 0, 0xf) as u8),
            completion_timeout_disable: flag(word as u32, 4),
            ari_forwarding_enable: flag(word as u32, 5),
            atomic_op_requester_enable: flag(word as u32, 6),
            atomic_op_egress_blocking: flag(word as u32, 7),
            ido_request_enable: flag(word as u32, 8),
            ido_completion_enable: flag(word as u32, 9),
            ltr_mechanism_enable: flag(word as u32, 10),
            emergency_power_reduction_request: flag(word as u32, 11),
            enable_10bit_tag_requester: flag(word as u32, 12),
            obff_enable: ObffEnable::spec_from_bits(field(word as u32, 13, 0x3) as u8),
            end_end_tlp_prefix_blocking: EndEndTlpPrefixBlocking::spec_from(flag(word as u32, 15)),
        }
    }
}

impl vstd::std_specs::convert::FromSpecImpl<u16> for DeviceControl2 {
    open spec fn obeys_from_spec() -> bool {
        true
    }

    open spec fn from_spec(word: u16) -> Self {
        Self::spec_from(word)
    }
}

impl From<u16> for DeviceControl2 {
    fn from(word: u16) -> (r: Self) {
        let w = word as u32;
        DeviceControl2 {
            completion_timeout_value: CompletionTimeoutValue::from(get_u8(w, 0, 0xf)),
            completion_timeout_disable: get_flag(w, 4),
            ari_forwarding_enable: get_flag(w, 5),
            atomic_op_requester_enable: get_flag(w, 6),
            atomic_op_egress_blocking: get_flag(w, 7),
            ido_request_enable: get_flag(w, 8),
            ido_completion_enable: get_flag(w, 9),
            ltr_mechanism_enable: get_flag(w, 10),
            emergency_power_reduction_request: get_flag(w, 11),
            enable_10bit_tag_requester: get_flag(w, 12),
            obff_enable: ObffEnable::from_bits(get_u8(w, 13, 0x3)),
            end_end_tlp_prefix_blocking: EndEndTlpPrefixBlocking::from(get_flag(w, 15)),
        }
    }
}

/// Completion Timeout Value
#[derive(Debug, Clone, PartialEq, Eq)]
pub enum CompletionTimeoutValue {
    DefaultRange50usTo50ms,
    RangeA50usTo100us,
    RangeA1msTo10ms,
    RangeB16msTo55mss,
    RangeB65msTo210ms,
    RangeC260msTo900ms,
    RangeC1000msTo3500ms,
    RangeD4sTo13s,
    RangeD17sTo64s,
    Reserved(u8),
}

impl CompletionTimeoutValue {
    /// The value that `byte` encodes.
    pub open spec fn spec_from(byte: u8) -> Self {
        match byte {
            0b0000 => Self::DefaultRange50usTo50ms,
            0b0001 => Self::RangeA50usTo100us,
            0b0010 => Self::RangeA1msTo10ms,
            0b0101 => Self::RangeB16msTo55mss,
            0b0110 => Self::RangeB65msTo210ms,
            0b1001 => Self::RangeC260msTo900ms,
            0b1010 => Self::RangeC1000msTo3500ms,
            0b1101 => Self::RangeD4sTo13s,
            0b1110 => Self::RangeD17sTo64s,
            _ => Self::Reserved(byte),
        }
    }
}

impl CompletionTimeoutValue {
    /// The register field that encodes the value.
    pub open spec fn spec_to_bits(self) -> u8 {
        match self {
            CompletionTimeoutValue::DefaultRange50usTo50ms => 0b0000,
            CompletionTimeoutValue::RangeA50usTo100us => 0b0001,
            CompletionTimeoutValue::RangeA1msTo10ms => 0b0010,
            CompletionTimeoutValue::RangeB16msTo55mss => 0b0101,
            CompletionTimeoutValue::RangeB65msTo210ms => 0b0110,
            CompletionTimeoutValue::RangeC260msTo900ms => 0b1001,
            CompletionTimeoutValue::RangeC1000msTo3500ms => 0b1010,
            CompletionTimeoutValue::RangeD4sTo13s => 0b1101,
            CompletionTimeoutValue::RangeD17sTo64s => 0b1110,
            CompletionTimeoutValue::Reserved(v) => v,
        }
    }
}

impl vstd::std_specs::convert::FromSpecImpl<CompletionTimeoutValue> for u8 {
    open spec fn obeys_from_spec() -> bool {
        true
    }

    open spec fn from_spec(value: CompletionTimeoutValue) -> Self {
        value.spec_to_bits()
    }
}

impl From<CompletionTimeoutValue> for u8 {
    fn from(value: CompletionTimeoutValue) -> (r: Self) {
        match value {
            CompletionTimeoutValue::DefaultRange50usTo50ms => 0b0000,
            CompletionTimeoutValue::RangeA50usTo100us => 0b0001,
            CompletionTimeoutValue::RangeA1msTo10ms => 0b0010,
            CompletionTimeoutValue::RangeB16msTo55mss => 0b0101,
            CompletionTimeoutValue::RangeB65msTo210ms => 0b0110,
            CompletionTimeoutValue::RangeC260msTo900ms => 0b1001,
            CompletionTimeoutValue::RangeC1000msTo3500ms => 0b1010,
            CompletionTimeoutValue::RangeD4sTo13s => 0b1101,
            CompletionTimeoutValue::RangeD17sTo64s => 0b1110,
            CompletionTimeoutValue::Reserved(v) => v,
        }
    }
}

/// Encoding a decoded CompletionTimeoutValue field gives back the field.
pub proof fn lemma_completion_timeout_value_roundtrip(byte: u8)
    ensures
        CompletionTimeoutValue::spec_from(byte).spec_to_bits() == byte,
{
}

impl vstd::std_specs::convert::FromSpecImpl<u8> for CompletionTimeoutValue {
    open spec fn obeys_from_spec() -> bool {
        true
    }

    open spec fn from_spec(byte: u8) -> Self {
        Self::spec_from(byte)
    }
}

impl From<u8> for CompletionTimeoutValue {
    fn from(byte: u8) -> (r: Self) {
        match byte {
            0b0000 => Self::DefaultRange50usTo50ms,
            0b0001 => Self::RangeA50usTo100us,
            0b0010 => Self::RangeA1msTo10ms,
            0b0101 => Self::RangeB16msTo55mss,
            0b0110 => Self::RangeB65msTo210ms,
            0b1001 => Self::RangeC260msTo900ms,
            0b1010 => Self::RangeC1000msTo3500ms,
            0b1101 => Self::RangeD4sTo13s,
            0b1110 => Self::RangeD17sTo64s,
            _ => Self::Reserved(byte),
        }
    }
}

/// OBFF Enable
#[derive(Debug, Clone, PartialEq, Eq)]
pub enum ObffEnable {
    Disabled,
    MessageSignalingA,
    MessageSignalingB,
    WakeSignaling,
}

impl ObffEnable {
    /// The value that the field `byte` encodes; a field holds less than 4.
    pub open spec fn spec_from_bits(byte: u8) -> Self {
        match byte {
            0b00 => Self::Disabled,
            0b01 => Self::MessageSignalingA,
            0b10 => Self::MessageSignalingB,
            _ => Self::WakeSignaling,
        }
    }

    /// Decodes the field `byte`.
    pub fn from_bits(byte: u8) -> (r: Self)
        requires
            byte < 4,
        ensures
            r == Self::spec_from_bits(byte),
    {
        match byte {
            0b00 => Self::Disabled,
            0b01 => Self::MessageSignalingA,
            0b10 => Self::MessageSignalingB,
            _ => Self::WakeSignaling,
        }
    }
}

impl ObffEnable {
    /// The register field that encodes the value.
    pub open spec fn spec_to_bits(self) -> u8 {
        match self {
            ObffEnable::Disabled => 0b00,
            ObffEnable::MessageSignalingA => 0b01,
            ObffEnable::MessageSignalingB => 0b10,
            ObffEnable::WakeSignaling => 0b11,
        }
    }
}

impl vstd::std_specs::convert::FromSpecImpl<ObffEnable> for u8 {
    open spec fn obeys_from_spec() -> bool {
        true
    }

    open spec fn from_spec(value: ObffEnable) -> Self {
        value.spec_to_bits()
    }
}

impl From<ObffEnable> for u8 {
    fn from(value: ObffEnable) -> (r: Self) {
        match value {
            ObffEnable::Disabled => 0b00,
            ObffEnable::MessageSignalingA => 0b01,
            ObffEnable::MessageSignalingB => 0b10,
            ObffEnable::WakeSignaling => 0b11,
        }
    }
}

/// Encoding a decoded ObffEnable field gives back the field.
pub proof fn lemma_obff_enable_roundtrip(byte: u8)
    requires
        byte < 4,
    ensures
        ObffEnable::spec_from_bits(byte).spec_to_bits() == byte,
{
}

/// Link Capabilities 2 Register
#[derive(Debug, Clone, PartialEq, Eq)]
pub struct LinkCapabilities2 {
    pub supported_link_speeds_vector: SupportedLinkSpeedsVector,
    pub crosslink_supported: bool,
    pub lower_skp_os_generation_supported_speeds_vector: SupportedLinkSpeedsVector,
    pub lower_skp_os_reception_supported_speeds_vector: SupportedLinkSpeedsVector,
    pub retimer_presence_detect_supported: bool,
    pub two_retimers_presence_detect_supported: bool,
    pub drs_supported: bool,
}

impl LinkCapabilities2 {
    /// The fields of the register value `dword`.
    pub open spec fn spec_from(dword: u32) -> Self {
        LinkCapabilities2 {
            supported_link_speeds_vector: SupportedLinkSpeedsVector::spec_from(field(dword, 1, 0x7f) as u8),
            crosslink_supported: flag(dword, 8),
            lower_skp_os_generation_supported_speeds_vector: SupportedLinkSpeedsVector::spec_from(field(dword, 9, 0x7f) as u8),
            lower_skp_os_reception_supported_speeds_vector: SupportedLinkSpeedsVector::spec_from(field(dword, 16, 0x7f) as u8),
            retimer_presence_detect_supported: flag(dword, 23),
            two_retimers_presence_detect_supported: flag(dword, 24),
            drs_supported: flag(dword, 31),
        }
    }
}

impl vstd::std_specs::convert::FromSpecImpl<u32> for LinkCapabilities2 {
    open spec fn obeys_from_spec() -> bool {
        true
    }

    open spec fn from_spec(dword: u32) -> Self {
        Self::spec_from(dword)
    }
}

impl From<u32> for LinkCapabilities2 {
    fn from(dword: u32) -> (r: Self) {
        LinkCapabilities2 {
            supported_link_speeds_vector: SupportedLinkSpeedsVector::from(get_u8(dword, 1, 0x7f)),
            crosslink_supported: get_flag(dword, 8),
            lower_skp_os_generation_supported_speeds_vector: SupportedLinkSpeedsVector::from(get_u8(dword, 9, 0x7f)),
            lower_skp_os_reception_supported_speeds_vector: SupportedLinkSpeedsVector::from(get_u8(dword, 16, 0x7f)),
            retimer_presence_detect_supported: get_flag(dword, 23),
            two_retimers_presence_detect_supported: get_flag(dword, 24),
            drs_supported: get_flag(dword, 31),
        }
    }
}

/// Indicates the supported Link speed(s) of the associated Port
#[derive(Debug, Clone, PartialEq, Eq)]
pub struct SupportedLinkSpeedsVector {
    pub speed_2_5_gtps: bool,
    pub speed_5_0_gtps: bool,
    pub speed_8_0_gtps: bool,
    pub speed_16_0_gtps: bool,
    pub speed_32_0_gtps: bool,
    pub speed_64_0_gtps: bool,
    pub reserved: bool,
}

impl SupportedLinkSpeedsVector {
    /// The fields of the register value `byte`.
    pub open spec fn spec_from(byte: u8) -> Self {
        SupportedLinkSpeedsVector {
            speed_2_5_gtps: flag(byte as u32, 0),
            speed_5_0_gtps: flag(byte as u32, 1),
            speed_8_0_gtps: flag(byte as u32, 2),
            speed_16_0_gtps: flag(byte as u32, 3),
            speed_32_0_gtps: flag(byte as u32, 4),
            speed_64_0_gtps: flag(byte as u32, 5),
            reserved: flag(byte as u32, 6),
        }
    }
}

impl vstd::std_specs::convert::FromSpecImpl<u8> for SupportedLinkSpeedsVector {
    open spec fn obeys_from_spec() -> bool {
        true
    }

    open spec fn from_spec(byte: u8) -> Self {
        Self::spec_from(byte)
    }
}

impl From<u8> for SupportedLinkSpeedsVector {
    fn from(byte: u8) -> (r: Self) {
        let w = byte as u32;
        SupportedLinkSpeedsVector {
            speed_2_5_gtps: get_flag(w, 0),
            speed_5_0_gtps: get_flag(w, 1),
            speed_8_0_gtps: get_flag(w, 2),
            speed_16_0_gtps: get_flag(w, 3),
            speed_32_0_gtps: get_flag(w, 4),
            speed_64_0_gtps: get_flag(w, 5),
            reserved: get_flag(w, 6),
        }
    }
}

/// Link Control 2 register
#[derive(Debug, Clone, PartialEq, Eq)]
pub struct LinkControl2 {
    pub target_link_speed: LinkSpeed,
    pub enter_compliance: bool,
    pub hardware_autonomous_speed_disable: bool,
    pub selectable_de_emphasis: DeEmphasis,
    pub transmit_margin: TransmitMargin,
    pub enter_modified_compliance: bool,
    pub compliance_sos: bool,
    pub compliance_preset_or_de_emphasis: CompliancePresetOrDeEmphasis,
}

impl LinkControl2 {
    /// The fields of the register value `word`.
    pub open spec fn spec_from(word: u16) -> Self {
        LinkControl2 {
            target_link_speed: LinkSpeed::spec_from(field(word as u32, 0, 0xf) as u8),
            enter_compliance: flag(word as u32, 4),
            hardware_autonomous_speed_disable: flag(word as u32, 5),
            selectable_de_emphasis: DeEmphasis::spec_from(flag(word as u32, 6)),
            transmit_margin: TransmitMargin::spec_from(field(word as u32, 7, 0x7) as u8),
            enter_modified_compliance: flag(word as u32, 10),
            compliance_sos: flag(word as u32, 11),
            compliance_preset_or_de_emphasis: CompliancePresetOrDeEmphasis::spec_from(field(word as u32, 12, 0xf) as u8),
        }
    }
}

impl vstd::std_specs::convert::FromSpecImpl<u16> for LinkControl2 {
    open spec fn obeys_from_spec() -> bool {
        true
    }

    open spec fn from_spec(word: u16) -> Self {
        Self::spec_from(word)
    }
}

impl From<u16> for LinkControl2 {
    fn from(word: u16) -> (r: Self) {
        let w = word as u32;
        LinkControl2 {
            target_link_speed: LinkSpeed::from(get_u8(w, 0, 0xf)),
            enter_compliance: get_flag(w, 4),
            hardware_autonomous_speed_disable: get_flag(w, 5),
            selectable_de_emphasis: DeEmphasis::from(get_flag(w, 6)),
            transmit_margin: TransmitMargin::from(get_u8(w, 7, 0x7)),
            enter_modified_compliance: get_flag(w, 10),
            compliance_sos: get_flag(w, 11),
            compliance_preset_or_de_emphasis: CompliancePresetOrDeEmphasis::from(get_u8(w, 12, 0xf)),
        }
    }
}

/// Link Status 2 register
#[derive(Debug, Clone, PartialEq, Eq)]
pub struct LinkStatus2 {
    pub current_de_emphasis_level: DeEmphasis,
    pub equalization_complete: bool,
    pub equalization_phase_1_successful: bool,
    pub equalization_phase_2_successful: bool,
    pub equalization_phase_3_successful: bool,
    pub link_equalization_request: bool,
    pub retimer_presence_detected: bool,
    pub two_retimers_presence_detected: bool,
    pub crosslink_resolution: CrosslinkResolution,
    pub downstream_component_presence: DownstreamComponentPresence,
    pub drs_message_received: bool,
}

impl LinkStatus2 {
    /// The fields of the register value `word`.
    pub open spec fn spec_from(word: u16) -> Self {
        LinkStatus2 {
            current_de_emphasis_level: DeEmphasis::spec_from(flag(word as u32, 0)),
            equalization_complete: flag(word as u32, 1),
            equalization_phase_1_successful: flag(word as u32, 2),
            equalization_phase_2_successful: flag(word as u32, 3),
            equalization_phase_3_successful: flag(word as u32, 4),
            link_equalization_request: flag(word as u32, 5),
            retimer_presence_detected: flag(word as u32, 6),
            two_retimers_presence_detected: flag(word as u32, 7),
            crosslink_resolution: CrosslinkResolution::spec_from_bits(field(word as u32, 8, 0x3) as u8),
            downstream_component_presence: DownstreamComponentPresence::spec_from(field(word as u32, 12, 0x7) as u8),
            drs_message_received: flag(word as u32, 15),
        }
    }
}

impl vstd::std_specs::convert::FromSpecImpl<u16> for LinkStatus2 {
    open spec fn obeys_from_spec() -> bool {
        true
    }

    open spec fn from_spec(word: u16) -> Self {
        Self::spec_from(word)
    }
}

impl From<u16> for LinkStatus2 {
    fn from(word: u16) -> (r: Self) {
        let w = word as u32;
        LinkStatus2 {
            current_de_emphasis_level: DeEmphasis::from(get_flag(w, 0)),
            equalization_complete: get_flag(w, 1),
            equalization_phase_1_successful: get_flag(w, 2),
            equalization_phase_2_successful: get_flag(w, 3),
            equalization_phase_3_successful: get_flag(w, 4),
            link_equalization_request: get_flag(w, 5),
            retimer_presence_detected: get_flag(w, 6),
            two_retimers_presence_detected: get_flag(w, 7),
            crosslink_resolution: CrosslinkResolution::from_bits(get_u8(w, 8, 0x3)),
            downstream_component_presence: DownstreamComponentPresence::from(get_u8(w, 12, 0x7)),
            drs_message_received: get_flag(w, 15),
        }
    }
}

/// Indicates the state of the Crosslink negotiation
#[derive(Debug, Clone, Copy, PartialEq, Eq)]
pub enum CrosslinkResolution {
    NotSupported,
    UpstreamPort,
    DownstreamPort,
    NotCompleted,
}

impl CrosslinkResolution {
    /// The value that the field `byte` encodes; a field holds less than 4.
    pub open spec fn spec_from_bits(byte: u8) -> Self {
        match byte {
            0b00 => Self::NotSupported,
            0b01 => Self::UpstreamPort,
            0b10 => Self::DownstreamPort,
            _ => Self::NotCompleted,
        }
    }

    /// Decodes the field `byte`.
    pub fn from_bits(byte: u8) -> (r: Self)
        requires
            byte < 4,
        ensures
            r == Self::spec_from_bits(byte),
    {
        match byte {
            0b00 => Self::NotSupported,
            0b01 => Self::UpstreamPort,
            0b10 => Self::DownstreamPort,
            _ => Self::NotCompleted,
        }
    }
}

/// Indicates the presence and DRS status for the Downstream Component, if any, connected to the
#[derive(Debug, Clone, PartialEq, Eq)]
pub enum DownstreamComponentPresence {
    DownNotDetermined,
    DownNotPresent,
    DownPresent,
    UpPresent,
    UpPresentAndDrsReceived,
    Reserved(u8),
}

impl DownstreamComponentPresence {
    /// The value that `byte` encodes.
    pub open spec fn spec_from(byte: u8) -> Self {
        match byte {
            0b000 => Self::DownNotDetermined,
            0b001 => Self::DownNotPresent,
            0b010 => Self::DownPresent,
            0b100 => Self::UpPresent,
            0b101 => Self::UpPresentAndDrsReceived,
            _ => Self::Reserved(byte),
        }
    }
}

impl vstd::std_specs::convert::FromSpecImpl<u8> for DownstreamComponentPresence {
    open spec fn obeys_from_spec() -> bool {
        true
    }

    open spec fn from_spec(byte: u8) -> Self {
        Self::spec_from(byte)
    }
}

impl From<u8> for DownstreamComponentPresence {
    fn from(byte: u8) -> (r: Self) {
        match byte {
            0b000 => Self::DownNotDetermined,
            0b001 => Self::DownNotPresent,
            0b010 => Self::DownPresent,
            0b100 => Self::UpPresent,
            0b101 => Self::UpPresentAndDrsReceived,
            _ => Self::Reserved(byte),
        }
    }
}

/// Transmitter Preset
#[derive(Debug, Clone, PartialEq, Eq)]
pub enum TransmitterPreset {
    P0,
    P1,
    P2,
    P3,
    P4,
    P5,
    P6,
    P7,
    P8,
    P9,
    P10,
    Reserved(u8),
}

impl TransmitterPreset {
    /// The value that `byte` encodes.
    pub open spec fn spec_from(byte: u8) -> Self {
        match byte {
            0b0000 => Self::P0,
            0b0001 => Self::P1,
            0b0010 => Self::P2,
            0b0011 => Self::P3,
            0b0100 => Self::P4,
            0b0101 => Self::P5,
            0b0110 => Self::P6,
            0b0111 => Self::P7,
            0b1000 => Self::P8,
            0b1001 => Self::P9,
            0b1010 => Self::P10,
            _ => Self::Reserved(byte),
        }
    }
}

impl vstd::std_specs::convert::FromSpecImpl<u8> for TransmitterPreset {
    open spec fn obeys_from_spec() -> bool {
        true
    }

    open spec fn from_spec(byte: u8) -> Self {
        Self::spec_from(byte)
    }
}

impl From<u8> for TransmitterPreset {
    fn from(byte: u8) -> (r: Self) {
        match byte {
            0b0000 => Self::P0,
            0b0001 => Self::P1,
            0b0010 => Self::P2,
            0b0011 => Self::P3,
            0b0100 => Self::P4,
            0b0101 => Self::P5,
            0b0110 => Self::P6,
            0b0111 => Self::P7,
            0b1000 => Self::P8,
            0b1001 => Self::P9,
            0b1010 => Self::P10,
            _ => Self::Reserved(byte),
        }
    }
}

/// Receiver Preset Hint
#[derive(Debug, Clone, PartialEq, Eq)]
pub enum ReceiverPresetHint {
    Minus6dB,
    Minus7dB,
    Minus8dB,
    Minus9dB,
    Minus10dB,
    Minus11dB,
    Minus12dB,
    Reserved,
}

impl ReceiverPresetHint {
    /// The value that `byte` encodes.
    pub open spec fn spec_from(byte: u8) -> Self {
        match byte {
            0b000 => Self::Minus6dB,
            0b001 => Self::Minus7dB,
            0b010 => Self::Minus8dB,
            0b011 => Self::Minus9dB,
            0b100 => Self::Minus10dB,
            0b101 => Self::Minus11dB,
            0b110 => Self::Minus12dB,
            _ => Self::Reserved,
        }
    }
}

impl vstd::std_specs::convert::FromSpecImpl<u8> for ReceiverPresetHint {
    open spec fn obeys_from_spec() -> bool {
        true
    }

    open spec fn from_spec(byte: u8) -> Self {
        Self::spec_from(byte)
    }
}

impl From<u8> for ReceiverPresetHint {
    fn from(byte: u8) -> (r: Self) {
        match byte {
            0b000 => Self::Minus6dB,
            0b001 => Self::Minus7dB,
            0b010 => Self::Minus8dB,
            0b011 => Self::Minus9dB,
            0b100 => Self::Minus10dB,
            0b101 => Self::Minus11dB,
            0b110 => Self::Minus12dB,
            _ => Self::Reserved,
        }
    }
}


/// The result of reading the capability by the Device/Port Type field `d` of the PCI Express
/// Capabilities register (see `lemma_parse_device_port_type`).
#[verifier::spinoff_prover]
#[verifier::rlimit(50)]
proof fn lemma_parse_device_type_field(bytes: Seq<u8>, d: u32, root: bool)
    requires
        bytes.len() >= 26,
        d == field(le_u16(bytes, 0) as u32, 4, 0xf),
        root == (bytes.len() >= 34),
    ensures
        ({
            let r = PciExpress::spec_parse(bytes);
            &&& (d == 0 ==> r is Ok && (r->Ok_0.device_type is Endpoint))
            &&& (d == 1 ==> r is Ok && (r->Ok_0.device_type is LegacyEndpoint))
            &&& (d == 4 && root ==> r is Ok && (r->Ok_0.device_type is RootPort))
            &&& (d == 4 && !root ==> r == Err::<PciExpress, PciExpressError>(
                PciExpressError::RootBytesSlice,
            ))
            &&& (d == 5 ==> r is Ok && (r->Ok_0.device_type is UpstreamPort))
            &&& (d == 6 ==> r is Ok && (r->Ok_0.device_type is DownstreamPort))
            &&& (d == 7 ==> r is Ok && (r->Ok_0.device_type is PcieToPciBridge))
            &&& (d == 8 ==> r is Ok && (r->Ok_0.device_type is PciToPcieBridge))
            &&& (d == 9 ==> r is Ok && (r->Ok_0.device_type is RootComplexIntegratedEndpoint))
            &&& (d == 10 && root ==> r is Ok && (r->Ok_0.device_type is RootComplexEventCollector))
            &&& (d == 10 && !root ==> r == Err::<PciExpress, PciExpressError>(
                PciExpressError::RootBytesSlice,
            ))
            &&& ((d == 2 || d == 3 || d >= 11) ==> r is Ok && (r->Ok_0.device_type matches
                DeviceType::Reserved { id, .. } && id as u32 == d))
            &&& (r is Ok ==> r->Ok_0.version as u32 == field(le_u16(bytes, 0) as u32, 0, 0xf))
        }),
{
}

/// Reading the capability takes the Device/Port Type from bits 7:4 of its first byte (the low
/// byte of the PCI Express Capabilities register) and the Capability Version from bits 3:0:
/// 0000b is an Endpoint, 0001b a Legacy Endpoint, 0100b a Root Port, 0101b the Upstream Port
/// and 0110b a Downstream Port of a Switch, 0111b a PCI Express to PCI/PCI-X Bridge, 1000b a
/// PCI/PCI-X to PCI Express Bridge, 1001b a Root Complex Integrated Endpoint and 1010b a Root
/// Complex Event Collector; the other values are reserved. A Root Port and an Event Collector
/// need the root registers, which the 8 bytes from byte 26 hold.
#[verifier::spinoff_prover]
#[verifier::rlimit(50)]
pub proof fn lemma_parse_device_port_type(bytes: Seq<u8>)
    requires
        bytes.len() >= 26,
    ensures
        ({
            let r = PciExpress::spec_parse(bytes);
            let t = bytes[0] as int / 16;
            let root = bytes.len() >= 34;
            &&& (r is Ok ==> r->Ok_0.version as int == bytes[0] as int % 16)
            &&& (t == 0 ==> r is Ok && (r->Ok_0.device_type is Endpoint))
            &&& (t == 1 ==> r is Ok && (r->Ok_0.device_type is LegacyEndpoint))
            &&& (t == 4 && root ==> r is Ok && (r->Ok_0.device_type is RootPort))
            &&& (t == 4 && !root ==> r == Err::<PciExpress, PciExpressError>(
                PciExpressError::RootBytesSlice,
            ))
            &&& (t == 5 ==> r is Ok && (r->Ok_0.device_type is UpstreamPort))
            &&& (t == 6 ==> r is Ok && (r->Ok_0.device_type is DownstreamPort))
            &&& (t == 7 ==> r is Ok && (r->Ok_0.device_type is PcieToPciBridge))
            &&& (t == 8 ==> r is Ok && (r->Ok_0.device_type is PciToPcieBridge))
            &&& (t == 9 ==> r is Ok && (r->Ok_0.device_type is RootComplexIntegratedEndpoint))
            &&& (t == 10 && root ==> r is Ok && (r->Ok_0.device_type is RootComplexEventCollector))
            &&& (t == 10 && !root ==> r == Err::<PciExpress, PciExpressError>(
                PciExpressError::RootBytesSlice,
            ))
            &&& ((t == 2 || t == 3 || t >= 11) ==> r is Ok && (r->Ok_0.device_type matches
                DeviceType::Reserved { id, .. } && id as int == t))
        }),
{
    crate::bits::lemma_le_u16_low_nibbles(bytes, 0);
    lemma_parse_device_type_field(bytes, field(le_u16(bytes, 0) as u32, 4, 0xf), bytes.len() >= 34);
}

} // verus!
