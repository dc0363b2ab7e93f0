//! HyperTransport capability.
use vstd::prelude::*;
use crate::bits::{field, flag, get_flag, get_u8, le_u16, le_u32, read_u16, read_u32};
use super::message_signaled_interrups::{make_qword, qword};

verus! {

broadcast use crate::bits::lemma_field_le_mask;

/// HyperTransport parsing errors
#[derive(Debug, Clone, PartialEq, Eq)]
pub enum HypertransportError {
    CapabilityType,
    SlaveOrPrimaryInterface,
    HostOrSecondaryInterface,
    Switch,
    ReservedHost,
    InterruptDiscoveryAndConfiguration,
    RevisionId,
    UnitIdClumping,
    ExtendedConfigurationSpaceAccess,
    AddressMapping,
    MsiMapping,
    DirectRoute,
    VCSet,
    X86Encoding,
    Gen3,
    FunctionLevelExtension,
    PowerManagement,
    HighNodeCount,
}

/// HyperTransport capability by its capability type
#[derive(Debug, Clone, PartialEq, Eq)]
pub enum Hypertransport {
    SlaveOrPrimaryInterface(SlaveOrPrimaryInterface),
    HostOrSecondaryInterface(HostOrSecondaryInterface),
    Switch(Switch),
    ReservedHost(ReservedHost),
    InterruptDiscoveryAndConfiguration(InterruptDiscoveryAndConfiguration),
    RevisionId(RevisionId),
    UnitIdClumping(UnitIdClumping),
    ExtendedConfigurationSpaceAccess(ExtendedConfigurationSpaceAccess),
    AddressMapping(AddressMapping),
    MsiMapping(MsiMapping),
    DirectRoute(DirectRoute),
    VCSet(VCSet),
    RetryMode(RetryMode),
    X86Encoding(X86Encoding),
    Gen3(Gen3),
    FunctionLevelExtension(FunctionLevelExtension),
    PowerManagement(PowerManagement),
    HighNodeCount(HighNodeCount),
    Reserved(u8),
}

impl Hypertransport {
    /// The capability that `bytes` (the data after the capability header) holds: the 5-bit
    /// capability type at the top of the command word selects the layout.
    pub open spec fn spec_parse(bytes: Seq<u8>) -> Result<Self, HypertransportError> {
        if bytes.len() < 2 {
            Err(HypertransportError::CapabilityType)
        } else {
            let t = field(le_u16(bytes, 0) as u32, 11, 0x1f);
            if t <= 0b00011 {
                if bytes.len() < 26 {
                    Err(HypertransportError::SlaveOrPrimaryInterface)
                } else {
                    Ok(Hypertransport::SlaveOrPrimaryInterface(SlaveOrPrimaryInterface::spec_from_bytes(bytes)))
                }
            } else if t <= 0b00111 {
                if bytes.len() < 22 {
                    Err(HypertransportError::HostOrSecondaryInterface)
                } else {
                    Ok(Hypertransport::HostOrSecondaryInterface(HostOrSecondaryInterface::spec_from_bytes(bytes)))
                }
            } else if t == 0b10001 {
                Ok(Hypertransport::RevisionId(RevisionId::spec_from(bytes[0])))
            } else if t == 0b10101 {
                if bytes.len() < 10 {
                    Err(HypertransportError::MsiMapping)
                } else {
                    Ok(Hypertransport::MsiMapping(MsiMapping::spec_from_bytes(bytes)))
                }
            } else {
                Ok(Self::spec_without_registers(t as u8))
            }
        }
    }

    /// The capability of the type `t` whose registers are not decoded.
    pub open spec fn spec_without_registers(t: u8) -> Self {
        if t == 0b01000 {
            Hypertransport::Switch(Switch {})
        } else if t == 0b01001 {
            Hypertransport::ReservedHost(ReservedHost {})
        } else if t == 0b10000 {
            Hypertransport::InterruptDiscoveryAndConfiguration(InterruptDiscoveryAndConfiguration {})
        } else if t == 0b10010 {
            Hypertransport::UnitIdClumping(UnitIdClumping {})
        } else if t == 0b10011 {
            Hypertransport::ExtendedConfigurationSpaceAccess(ExtendedConfigurationSpaceAccess {})
        } else if t == 0b10100 {
            Hypertransport::AddressMapping(AddressMapping {})
        } else if t == 0b10110 {
            Hypertransport::DirectRoute(DirectRoute {})
        } else if t == 0b10111 {
            Hypertransport::VCSet(VCSet {})
        } else if t == 0b11000 {
            Hypertransport::RetryMode(RetryMode {})
        } else if t == 0b11001 {
            Hypertransport::X86Encoding(X86Encoding {})
        } else if t == 0b11010 {
            Hypertransport::Gen3(Gen3 {})
        } else if t == 0b11011 {
            Hypertransport::FunctionLevelExtension(FunctionLevelExtension {})
        } else if t == 0b11100 {
            Hypertransport::PowerManagement(PowerManagement {})
        } else if t == 0b11101 {
            Hypertransport::HighNodeCount(HighNodeCount {})
        } else {
            Hypertransport::Reserved(t)
        }
    }

    fn without_registers(t: u8) -> (r: Self)
        ensures
            r == Self::spec_without_registers(t),
    {
        if t == 0b01000 {
            Hypertransport::Switch(Switch {})
        } else if t == 0b01001 {
            Hypertransport::ReservedHost(ReservedHost {})
        } else if t == 0b10000 {
            Hypertransport::InterruptDiscoveryAndConfiguration(InterruptDiscoveryAndConfiguration {})
        } else if t == 0b10010 {
            Hypertransport::UnitIdClumping(UnitIdClumping {})
        } else if t == 0b10011 {
            Hypertransport::ExtendedConfigurationSpaceAccess(ExtendedConfigurationSpaceAccess {})
        } else if t == 0b10100 {
            Hypertransport::AddressMapping(AddressMapping {})
        } else if t == 0b10110 {
            Hypertransport::DirectRoute(DirectRoute {})
        } else if t == 0b10111 {
            Hypertransport::VCSet(VCSet {})
        } else if t == 0b11000 {
            Hypertransport::RetryMode(RetryMode {})
        } else if t == 0b11001 {
            Hypertransport::X86Encoding(X86Encoding {})
        } else if t == 0b11010 {
            Hypertransport::Gen3(Gen3 {})
        } else if t == 0b11011 {
            Hypertransport::FunctionLevelExtension(FunctionLevelExtension {})
        } else if t == 0b11100 {
            Hypertransport::PowerManagement(PowerManagement {})
        } else if t == 0b11101 {
            Hypertransport::HighNodeCount(HighNodeCount {})
        } else {
            Hypertransport::Reserved(t)
        }
    }

    /// The capability type that the capability stands for.
    pub open spec fn spec_capability_type(&self) -> u8 {
        match self {
            Hypertransport::SlaveOrPrimaryInterface(_) => 0b00000,
            Hypertransport::HostOrSecondaryInterface(_) => 0b00100,
            Hypertransport::Switch(_) => 0b01000,
            Hypertransport::ReservedHost(_) => 0b01001,
            Hypertransport::InterruptDiscoveryAndConfiguration(_) => 0b10000,
            Hypertransport::RevisionId(_) => 0b10001,
            Hypertransport::UnitIdClumping(_) => 0b10010,
            Hypertransport::ExtendedConfigurationSpaceAccess(_) => 0b10011,
            Hypertransport::AddressMapping(_) => 0b10100,
            Hypertransport::MsiMapping(_) => 0b10101,
            Hypertransport::DirectRoute(_) => 0b10110,
            Hypertransport::VCSet(_) => 0b10111,
            Hypertransport::RetryMode(_) => 0b11000,
            Hypertransport::X86Encoding(_) => 0b11001,
            Hypertransport::Gen3(_) => 0b11010,
            Hypertransport::FunctionLevelExtension(_) => 0b11011,
            Hypertransport::PowerManagement(_) => 0b11100,
            Hypertransport::HighNodeCount(_) => 0b11101,
            Hypertransport::Reserved(v) => *v,
        }
    }
}

impl vstd::std_specs::convert::TryFromSpecImpl<&[u8]> for Hypertransport {
    open spec fn obeys_try_from_spec() -> bool {
        true
    }

    open spec fn try_from_spec(slice: &[u8]) -> Result<Self, Self::Error> {
        Self::spec_parse(slice@)
    }
}

impl TryFrom<&[u8]> for Hypertransport {
    type Error = HypertransportError;

    fn try_from(slice: &[u8]) -> (r: Result<Self, Self::Error>) {
        if slice.len() < 2 {
            return Err(HypertransportError::CapabilityType);
        }
        let t = get_u8(read_u16(slice, 0) as u32, 11, 0x1f);
        if t <= 0b00011 {
            if slice.len() < 26 {
                return Err(HypertransportError::SlaveOrPrimaryInterface);
            }
            Ok(Hypertransport::SlaveOrPrimaryInterface(SlaveOrPrimaryInterface::from_bytes(slice)))
        } else if t <= 0b00111 {
            if slice.len() < 22 {
                return Err(HypertransportError::HostOrSecondaryInterface);
            }
            Ok(Hypertransport::HostOrSecondaryInterface(HostOrSecondaryInterface::from_bytes(slice)))
        } else if t == 0b10001 {
            Ok(Hypertransport::RevisionId(RevisionId::from(slice[0])))
        } else if t == 0b10101 {
            if slice.len() < 10 {
                return Err(HypertransportError::MsiMapping);
            }
            Ok(Hypertransport::MsiMapping(MsiMapping::from_bytes(slice)))
        } else {
            Ok(Self::without_registers(t))
        }
    }
}

impl vstd::std_specs::convert::FromSpecImpl<&Hypertransport> for u8 {
    open spec fn obeys_from_spec() -> bool {
        true
    }

    open spec fn from_spec(ht: &Hypertransport) -> Self {
        ht.spec_capability_type()
    }
}

impl From<&Hypertransport> for u8 {
    fn from(ht: &Hypertransport) -> (r: Self) {
        match ht {
            Hypertransport::SlaveOrPrimaryInterface(_) => 0b00000,
            Hypertransport::HostOrSecondaryInterface(_) => 0b00100,
            Hypertransport::Switch(_) => 0b01000,
            Hypertransport::ReservedHost(_) => 0b01001,
            Hypertransport::InterruptDiscoveryAndConfiguration(_) => 0b10000,
            Hypertransport::RevisionId(_) => 0b10001,
            Hypertransport::UnitIdClumping(_) => 0b10010,
            Hypertransport::ExtendedConfigurationSpaceAccess(_) => 0b10011,
            Hypertransport::AddressMapping(_) => 0b10100,
            Hypertransport::MsiMapping(_) => 0b10101,
            Hypertransport::DirectRoute(_) => 0b10110,
            Hypertransport::VCSet(_) => 0b10111,
            Hypertransport::RetryMode(_) => 0b11000,
            Hypertransport::X86Encoding(_) => 0b11001,
            Hypertransport::Gen3(_) => 0b11010,
            Hypertransport::FunctionLevelExtension(_) => 0b11011,
            Hypertransport::PowerManagement(_) => 0b11100,
            Hypertransport::HighNodeCount(_) => 0b11101,
            Hypertransport::Reserved(v) => *v,
        }
    }
}

/// Reading a capability whose type selects one layout and taking the type back gives the
/// type that the command word holds; the interface types, which four values each select, give
/// the first of their values.
pub proof fn lemma_capability_type_roundtrip(bytes: Seq<u8>)
    requires
        Hypertransport::spec_parse(bytes) is Ok,
    ensures
        ({
            let t = field(le_u16(bytes, 0) as u32, 11, 0x1f);
            let r = Hypertransport::spec_parse(bytes)->Ok_0.spec_capability_type();
            if t <= 0b00011 {
                r == 0
            } else if t <= 0b00111 {
                r == 0b00100
            } else {
                r == t
            }
        }),
{
}

/// Slave/Primary Interface
#[derive(Debug, Clone, PartialEq, Eq)]
pub struct SlaveOrPrimaryInterface {
    pub command: SlaveOrPrimaryCommand,
    pub link_control_0: LinkControl,
    pub link_config_0: LinkConfiguration,
    pub link_control_1: LinkControl,
    pub link_config_1: LinkConfiguration,
    pub revision_id: RevisionId,
    pub link_freq_0: u8,
    pub link_error_0: LinkError,
    pub link_freq_cap_0: LinkFrequencyCapability,
    pub feature: FeatureCapability,
    pub link_freq_1: u8,
    pub link_error_1: LinkError,
    pub link_freq_cap_1: LinkFrequencyCapability,
    pub enumeration_scratchpad: u16,
    pub error_handling: ErrorHandling,
    pub mem_base_upper: u8,
    pub mem_limit_upper: u8,
    pub bus_number: u8,
}

impl SlaveOrPrimaryInterface {
    /// Size of the interface registers
    pub const SIZE: usize = 26;

    /// The link frequency of link 0 with the extension bit `link_freq_ext`.
    pub fn link_freq_0(&self, link_freq_ext: bool) -> (r: LinkFrequency)
        ensures
            r == LinkFrequency::spec_new(link_freq_ext, self.link_freq_0),
    {
        LinkFrequency::new(link_freq_ext, self.link_freq_0)
    }

    /// The link frequency of link 1 with the extension bit `link_freq_ext`.
    pub fn link_freq_1(&self, link_freq_ext: bool) -> (r: LinkFrequency)
        ensures
            r == LinkFrequency::spec_new(link_freq_ext, self.link_freq_1),
    {
        LinkFrequency::new(link_freq_ext, self.link_freq_1)
    }

    /// The interface that the first 26 bytes of `bytes` hold.
    pub open spec fn spec_from_bytes(bytes: Seq<u8>) -> Self {
        SlaveOrPrimaryInterface {
            command: SlaveOrPrimaryCommand::spec_from(le_u16(bytes, 0)),
            link_control_0: LinkControl::spec_from(le_u16(bytes, 2)),
            link_config_0: LinkConfiguration::spec_from(le_u16(bytes, 4)),
            link_control_1: LinkControl::spec_from(le_u16(bytes, 6)),
            link_config_1: LinkConfiguration::spec_from(le_u16(bytes, 8)),
            revision_id: RevisionId::spec_from(bytes[10]),
            link_freq_0: field(bytes[11] as u32, 0, 0xf) as u8,
            link_error_0: LinkError::spec_from(bytes[11]),
            link_freq_cap_0: LinkFrequencyCapability::spec_from(le_u16(bytes, 12)),
            feature: FeatureCapability::spec_from(bytes[14] as u16),
            link_freq_1: field(bytes[15] as u32, 0, 0xf) as u8,
            link_error_1: LinkError::spec_from(bytes[15]),
            link_freq_cap_1: LinkFrequencyCapability::spec_from(le_u16(bytes, 16)),
            enumeration_scratchpad: le_u16(bytes, 18),
            error_handling: ErrorHandling::spec_from(le_u16(bytes, 20)),
            mem_base_upper: bytes[22],
            mem_limit_upper: bytes[23],
            bus_number: bytes[24],
        }
    }

    fn from_bytes(bytes: &[u8]) -> (r: Self)
        requires
            bytes@.len() >= 26,
        ensures
            r == Self::spec_from_bytes(bytes@),
    {
        SlaveOrPrimaryInterface {
            command: SlaveOrPrimaryCommand::from(read_u16(bytes, 0)),
            link_control_0: LinkControl::from(read_u16(bytes, 2)),
            link_config_0: LinkConfiguration::from(read_u16(bytes, 4)),
            link_control_1: LinkControl::from(read_u16(bytes, 6)),
            link_config_1: LinkConfiguration::from(read_u16(bytes, 8)),
            revision_id: RevisionId::from(bytes[10]),
            link_freq_0: get_u8(bytes[11] as u32, 0, 0xf),
            link_error_0: LinkError::from(bytes[11]),
            link_freq_cap_0: LinkFrequencyCapability::from(read_u16(bytes, 12)),
            feature: FeatureCapability::from(bytes[14] as u16),
            link_freq_1: get_u8(bytes[15] as u32, 0, 0xf),
            link_error_1: LinkError::from(bytes[15]),
            link_freq_cap_1: LinkFrequencyCapability::from(read_u16(bytes, 16)),
            enumeration_scratchpad: read_u16(bytes, 18),
            error_handling: ErrorHandling::from(read_u16(bytes, 20)),
            mem_base_upper: bytes[22],
            mem_limit_upper: bytes[23],
            bus_number: bytes[24],
        }
    }
}

impl vstd::std_specs::convert::FromSpecImpl<[u8; 26]> for SlaveOrPrimaryInterface {
    open spec fn obeys_from_spec() -> bool {
        true
    }

    open spec fn from_spec(bytes: [u8; 26]) -> Self {
        Self::spec_from_bytes(bytes@)
    }
}

impl From<[u8; 26]> for SlaveOrPrimaryInterface {
    fn from(bytes: [u8; 26]) -> (r: Self) {
        Self::from_bytes(bytes.as_slice())
    }
}

/// Command register of the Slave/Primary Interface
#[derive(Debug, Clone, PartialEq, Eq)]
pub struct SlaveOrPrimaryCommand {
    pub base_unitid: u8,
    pub unit_count: u8,
    pub master_host: bool,
    pub default_direction: bool,
    pub drop_on_uninitialized_link: bool,
}

impl SlaveOrPrimaryCommand {
    /// The fields of the register value `word`.
    pub open spec fn spec_from(word: u16) -> Self {
        SlaveOrPrimaryCommand {
            base_unitid: field(word as u32, 0, 0x1f) as u8,
            unit_count: field(word as u32, 5, 0x1f) as u8,
            master_host: flag(word as u32, 10),
            default_direction: flag(word as u32, 11),
            drop_on_uninitialized_link: flag(word as u32, 12),
        }
    }
}

impl vstd::std_specs::convert::FromSpecImpl<u16> for SlaveOrPrimaryCommand {
    open spec fn obeys_from_spec() -> bool {
        true
    }

    open spec fn from_spec(word: u16) -> Self {
        Self::spec_from(word)
    }
}

impl From<u16> for SlaveOrPrimaryCommand {
    fn from(word: u16) -> (r: Self) {
        let w = word as u32;
        SlaveOrPrimaryCommand {
            base_unitid: get_u8(w, 0, 0x1f),
            unit_count: get_u8(w, 5, 0x1f),
            master_host: get_flag(w, 10),
            default_direction: get_flag(w, 11),
            drop_on_uninitialized_link: get_flag(w, 12),
        }
    }
}

/// Link Control register
#[derive(Debug, Clone, PartialEq, Eq)]
pub struct LinkControl {
    pub source_id_enable: bool,
    pub crc_flood_enable: bool,
    pub crc_start_test: bool,
    pub crc_force_error: bool,
    pub link_failure: bool,
    pub initialization_complete: bool,
    pub end_of_chain: bool,
    pub transmitter_off: bool,
    pub crc_error: u8,
    pub isochronous_flow_control_enable: bool,
    pub ldtstop_tristate_enable: bool,
    pub extended_ctl_time: bool,
    pub enable_64_bit_addressing: bool,
}

impl LinkControl {
    /// The fields of the register value `word`.
    pub open spec fn spec_from(word: u16) -> Self {
        LinkControl {
            source_id_enable: flag(word as u32, 0),
            crc_flood_enable: flag(word as u32, 1),
            crc_start_test: flag(word as u32, 2),
            crc_force_error: flag(word as u32, 3),
            link_failure: flag(word as u32, 4),
            initialization_complete: flag(word as u32, 5),
            end_of_chain: flag(word as u32, 6),
            transmitter_off: flag(word as u32, 7),
            crc_error: field(word as u32, 8, 0xf) as u8,
            isochronous_flow_control_enable: flag(word as u32, 12),
            ldtstop_tristate_enable: flag(word as u32, 13),
            extended_ctl_time: flag(word as u32, 14),
            enable_64_bit_addressing: flag(word as u32, 15),
        }
    }
}

impl vstd::std_specs::convert::FromSpecImpl<u16> for LinkControl {
    open spec fn obeys_from_spec() -> bool {
        true
    }

    open spec fn from_spec(word: u16) -> Self {
        Self::spec_from(word)
    }
}

impl From<u16> for LinkControl {
    fn from(word: u16) -> (r: Self) {
        let w = word as u32;
        LinkControl {
            source_id_enable: get_flag(w, 0),
            crc_flood_enable: get_flag(w, 1),
            crc_start_test: get_flag(w, 2),
            crc_force_error: get_flag(w, 3),
            link_failure: get_flag(w, 4),
            initialization_complete: get_flag(w, 5),
            end_of_chain: get_flag(w, 6),
            transmitter_off: get_flag(w, 7),
            crc_error: get_u8(w, 8, 0xf),
            isochronous_flow_control_enable: get_flag(w, 12),
            ldtstop_tristate_enable: get_flag(w, 13),
            extended_ctl_time: get_flag(w, 14),
            enable_64_bit_addressing: get_flag(w, 15),
        }
    }
}

/// Link Configuration register
#[derive(Debug, Clone, PartialEq, Eq)]
pub struct LinkConfiguration {
    pub max_link_width_in: LinkWidth,
    pub doubleword_flow_control_in: bool,
    pub max_link_width_out: LinkWidth,
    pub doubleword_flow_control_out: bool,
    pub link_width_in: LinkWidth,
    pub doubleword_flow_control_in_enable: bool,
    pub link_width_out: LinkWidth,
    pub doubleword_flow_control_out_enable: bool,
}

impl LinkConfiguration {
    /// The fields of the register value `word`.
    pub open spec fn spec_from(word: u16) -> Self {
        LinkConfiguration {
            max_link_width_in: LinkWidth::spec_from(field(word as u32, 0, 0x7) as u8),
            doubleword_flow_control_in: flag(word as u32, 3),
            max_link_width_out: LinkWidth::spec_from(field(word as u32, 4, 0x7) as u8),
            doubleword_flow_control_out: flag(word as u32, 7),
            link_width_in: LinkWidth::spec_from(field(word as u32, 8, 0x7) as u8),
            doubleword_flow_control_in_enable: flag(word as u32, 11),
            link_width_out: LinkWidth::spec_from(field(word as u32, 12, 0x7) as u8),
            doubleword_flow_control_out_enable: flag(word as u32, 15),
        }
    }
}

impl vstd::std_specs::convert::FromSpecImpl<u16> for LinkConfiguration {
    open spec fn obeys_from_spec() -> bool {
        true
    }

    open spec fn from_spec(word: u16) -> Self {
        Self::spec_from(word)
    }
}

impl From<u16> for LinkConfiguration {
    fn from(word: u16) -> (r: Self) {
        let w = word as u32;
        LinkConfiguration {
            max_link_width_in: LinkWidth::from(get_u8(w, 0, 0x7)),
            doubleword_flow_control_in: get_flag(w, 3),
            max_link_width_out: LinkWidth::from(get_u8(w, 4, 0x7)),
            doubleword_flow_control_out: get_flag(w, 7),
            link_width_in: LinkWidth::from(get_u8(w, 8, 0x7)),
            doubleword_flow_control_in_enable: get_flag(w, 11),
            link_width_out: LinkWidth::from(get_u8(w, 12, 0x7)),
            doubleword_flow_control_out_enable: get_flag(w, 15),
        }
    }
}

/// Physical width of a side of a HyperTransport link
#[derive(Debug, Clone, PartialEq, Eq)]
pub enum LinkWidth {
    Width8bits,
    Width16bits,
    Width32bits,
    Width2bits,
    Width4bits,
    NotConnected,
    Reserved(u8),
}

impl LinkWidth {
    /// The value that `byte` encodes.
    pub open spec fn spec_from(byte: u8) -> Self {
        match byte {
            0b000 => Self::Width8bits,
            0b001 => Self::Width16bits,
            0b011 => Self::Width32bits,
            0b100 => Self::Width2bits,
            0b101 => Self::Width4bits,
            0b111 => Self::NotConnected,
            _ => Self::Reserved(byte),
        }
    }
}

impl LinkWidth {
    /// The register field that encodes the value.
    pub open spec fn spec_to_bits(self) -> u8 {
        match self {
            LinkWidth::Width8bits => 0b000,
            LinkWidth::Width16bits => 0b001,
            LinkWidth::Width32bits => 0b011,
            LinkWidth::Width2bits => 0b100,
            LinkWidth::Width4bits => 0b101,
            LinkWidth::NotConnected => 0b111,
            LinkWidth::Reserved(v) => v,
        }
    }
}

impl vstd::std_specs::convert::FromSpecImpl<LinkWidth> for u8 {
    open spec fn obeys_from_spec() -> bool {
        true
    }

    open spec fn from_spec(value: LinkWidth) -> Self {
        value.spec_to_bits()
    }
}

impl From<LinkWidth> for u8 {
    fn from(value: LinkWidth) -> (r: Self) {
        match value {
            LinkWidth::Width8bits => 0b000,
            LinkWidth::Width16bits => 0b001,
            LinkWidth::Width32bits => 0b011,
            LinkWidth::Width2bits => 0b100,
            LinkWidth::Width4bits => 0b101,
            LinkWidth::NotConnected => 0b111,
            LinkWidth::Reserved(v) => v,
        }
    }
}

/// Encoding a decoded LinkWidth field gives back the field.
pub proof fn lemma_link_width_roundtrip(byte: u8)
    ensures
        LinkWidth::spec_from(byte).spec_to_bits() == byte,
{
}

impl vstd::std_specs::convert::FromSpecImpl<u8> for LinkWidth {
    open spec fn obeys_from_spec() -> bool {
        true
    }

    open spec fn from_spec(byte: u8) -> Self {
        Self::spec_from(byte)
    }
}

impl From<u8> for LinkWidth {
    fn from(byte: u8) -> (r: Self) {
        match byte {
            0b000 => Self::Width8bits,
            0b001 => Self::Width16bits,
            0b011 => Self::Width32bits,
            0b100 => Self::Width2bits,
            0b101 => Self::Width4bits,
            0b111 => Self::NotConnected,
            _ => Self::Reserved(byte),
        }
    }
}

/// Revision ID register
#[derive(Debug, Clone, PartialEq, Eq)]
pub struct RevisionId {
    pub minor: u8,
    pub major: u8,
}

impl RevisionId {
    /// The fields of the register value `byte`.
    pub open spec fn spec_from(byte: u8) -> Self {
        RevisionId {
            minor: field(byte as u32, 0, 0x1f) as u8,
            major: field(byte as u32, 5, 0x7) as u8,
        }
    }
}

impl vstd::std_specs::convert::FromSpecImpl<u8> for RevisionId {
    open spec fn obeys_from_spec() -> bool {
        true
    }

    open spec fn from_spec(byte: u8) -> Self {
        Self::spec_from(byte)
    }
}

impl From<u8> for RevisionId {
    fn from(byte: u8) -> (r: Self) {
        let w = byte as u32;
        RevisionId {
            minor: get_u8(w, 0, 0x1f),
            major: get_u8(w, 5, 0x7),
        }
    }
}

/// Link Frequency Capability register
#[derive(Debug, Clone, PartialEq, Eq)]
pub struct LinkFrequencyCapability {
    pub supports_200mhz: bool,
    pub supports_300mhz: bool,
    pub supports_400mhz: bool,
    pub supports_500mhz: bool,
    pub supports_600mhz: bool,
    pub supports_800mhz: bool,
    pub supports_1000mhz: bool,
    pub supports_1200mhz: bool,
    pub supports_1400mhz: bool,
    pub supports_1600mhz: bool,
    pub supports_1800mhz: bool,
    pub supports_2000mhz: bool,
    pub supports_2200mhz: bool,
    pub supports_2400mhz: bool,
    pub supports_2600mhz: bool,
    pub supports_vendor_specific: bool,
}

impl LinkFrequencyCapability {
    /// The fields of the register value `word`.
    pub open spec fn spec_from(word: u16) -> Self {
        LinkFrequencyCapability {
            supports_200mhz: flag(word as u32, 0),
            supports_300mhz: flag(word as u32, 1),
            supports_400mhz: flag(word as u32, 2),
            supports_500mhz: flag(word as u32, 3),
            supports_600mhz: flag(word as u32, 4),
            supports_800mhz: flag(word as u32, 5),
            supports_1000mhz: flag(word as u32, 6),
            supports_1200mhz: flag(word as u32, 7),
            supports_1400mhz: flag(word as u32, 8),
            supports_1600mhz: flag(word as u32, 9),
            supports_1800mhz: flag(word as u32, 10),
            supports_2000mhz: flag(word as u32, 11),
            supports_2200mhz: flag(word as u32, 12),
            supports_2400mhz: flag(word as u32, 13),
            supports_2600mhz: flag(word as u32, 14),
            supports_vendor_specific: flag(word as u32, 15),
        }
    }
}

impl vstd::std_specs::convert::FromSpecImpl<u16> for LinkFrequencyCapability {
    open spec fn obeys_from_spec() -> bool {
        true
    }

    open spec fn from_spec(word: u16) -> Self {
        Self::spec_from(word)
    }
}

impl From<u16> for LinkFrequencyCapability {
    fn from(word: u16) -> (r: Self) {
        let w = word as u32;
        LinkFrequencyCapability {
            supports_200mhz: get_flag(w, 0),
            supports_300mhz: get_flag(w, 1),
            supports_400mhz: get_flag(w, 2),
            supports_500mhz: get_flag(w, 3),
            supports_600mhz: get_flag(w, 4),
            supports_800mhz: get_flag(w, 5),
            supports_1000mhz: get_flag(w, 6),
            supports_1200mhz: get_flag(w, 7),
            supports_1400mhz: get_flag(w, 8),
            supports_1600mhz: get_flag(w, 9),
            supports_1800mhz: get_flag(w, 10),
            supports_2000mhz: get_flag(w, 11),
            supports_2200mhz: get_flag(w, 12),
            supports_2400mhz: get_flag(w, 13),
            supports_2600mhz: get_flag(w, 14),
            supports_vendor_specific: get_flag(w, 15),
        }
    }
}

/// Feature Capability register
#[derive(Debug, Clone, PartialEq, Eq)]
pub struct FeatureCapability {
    pub isochronous_flow_control_mode: bool,
    pub ldtstop: bool,
    pub crc_test_mode: bool,
    pub extended_ctl_time_required: bool,
    pub qword_addressing: bool,
    pub unitid_reorder_disable: bool,
    pub source_identification_extension: bool,
    pub extended_register_set: bool,
    pub upstream_configuration_enable: bool,
}

impl FeatureCapability {
    /// The fields of the register value `word`.
    pub open spec fn spec_from(word: u16) -> Self {
        FeatureCapability {
            isochronous_flow_control_mode: flag(word as u32, 0),
            ldtstop: flag(word as u32, 1),
            crc_test_mode: flag(word as u32, 2),
            extended_ctl_time_required: flag(word as u32, 3),
            qword_addressing: flag(word as u32, 4),
            unitid_reorder_disable: flag(word as u32, 5),
            source_identification_extension: flag(word as u32, 6),
            extended_register_set: flag(word as u32, 8),
            upstream_configuration_enable: flag(word as u32, 9),
        }
    }
}

impl vstd::std_specs::convert::FromSpecImpl<u16> for FeatureCapability {
    open spec fn obeys_from_spec() -> bool {
        true
    }

    open spec fn from_spec(word: u16) -> Self {
        Self::spec_from(word)
    }
}

impl From<u16> for FeatureCapability {
    fn from(word: u16) -> (r: Self) {
        let w = word as u32;
        FeatureCapability {
            isochronous_flow_control_mode: get_flag(w, 0),
            ldtstop: get_flag(w, 1),
            crc_test_mode: get_flag(w, 2),
            extended_ctl_time_required: get_flag(w, 3),
            qword_addressing: get_flag(w, 4),
            unitid_reorder_disable: get_flag(w, 5),
            source_identification_extension: get_flag(w, 6),
            extended_register_set: get_flag(w, 8),
            upstream_configuration_enable: get_flag(w, 9),
        }
    }
}

/// Error Handling register
#[derive(Debug, Clone, PartialEq, Eq)]
pub struct ErrorHandling {
    pub protocol_error_flood_enable: bool,
    pub overflow_error_flood_enable: bool,
    pub protocol_error_fatal_enable: bool,
    pub overflow_error_fatal_enable: bool,
    pub end_of_chain_error_fatal_enable: bool,
    pub response_error_fatal_enable: bool,
    pub crc_error_fatal_enable: bool,
    pub system_error_fatal_enable: bool,
    pub chain_fail: bool,
    pub response_error: bool,
    pub protocol_error_nonfatal_enable: bool,
    pub overflow_error_nonfatal_enable: bool,
    pub end_of_chain_error_nonfatal_enable: bool,
    pub response_error_nonfatal_enable: bool,
    pub crc_error_nonfatal_enable: bool,
    pub system_error_nonfatal_enable: bool,
}

impl ErrorHandling {
    /// The fields of the register value `word`.
    pub open spec fn spec_from(word: u16) -> Self {
        ErrorHandling {
            protocol_error_flood_enable: flag(word as u32, 0),
            overflow_error_flood_enable: flag(word as u32, 1),
            protocol_error_fatal_enable: flag(word as u32, 2),
            overflow_error_fatal_enable: flag(word as u32, 3),
            end_of_chain_error_fatal_enable: flag(word as u32, 4),
            response_error_fatal_enable: flag(word as u32, 5),
            crc_error_fatal_enable: flag(word as u32, 6),
            system_error_fatal_enable: flag(word as u32, 7),
            chain_fail: flag(word as u32, 8),
            response_error: flag(word as u32, 9),
            protocol_error_nonfatal_enable: flag(word as u32, 10),
            overflow_error_nonfatal_enable: flag(word as u32, 11),
            end_of_chain_error_nonfatal_enable: flag(word as u32, 12),
            response_error_nonfatal_enable: flag(word as u32, 13),
            crc_error_nonfatal_enable: flag(word as u32, 14),
            system_error_nonfatal_enable: flag(word as u32, 15),
        }
    }
}

impl vstd::std_specs::convert::FromSpecImpl<u16> for ErrorHandling {
    open spec fn obeys_from_spec() -> bool {
        true
    }

    open spec fn from_spec(word: u16) -> Self {
        Self::spec_from(word)
    }
}

impl From<u16> for ErrorHandling {
    fn from(word: u16) -> (r: Self) {
        let w = word as u32;
        ErrorHandling {
            protocol_error_flood_enable: get_flag(w, 0),
            overflow_error_flood_enable: get_flag(w, 1),
            protocol_error_fatal_enable: get_flag(w, 2),
            overflow_error_fatal_enable: get_flag(w, 3),
            end_of_chain_error_fatal_enable: get_flag(w, 4),
            response_error_fatal_enable: get_flag(w, 5),
            crc_error_fatal_enable: get_flag(w, 6),
            system_error_fatal_enable: get_flag(w, 7),
            chain_fail: get_flag(w, 8),
            response_error: get_flag(w, 9),
            protocol_error_nonfatal_enable: get_flag(w, 10),
            overflow_error_nonfatal_enable: get_flag(w, 11),
            end_of_chain_error_nonfatal_enable: get_flag(w, 12),
            response_error_nonfatal_enable: get_flag(w, 13),
            crc_error_nonfatal_enable: get_flag(w, 14),
            system_error_nonfatal_enable: get_flag(w, 15),
        }
    }
}

/// Command register of the Host/Secondary Interface
#[derive(Debug, Clone, PartialEq, Eq)]
pub struct HostOrSecondaryCommand {
    pub warm_reset: bool,
    pub double_ended: bool,
    pub device_number: u8,
    pub chain_side: bool,
    pub host_hide: bool,
    pub act_as_slave: bool,
    pub host_inbound_end_of_chain_error: bool,
    pub drop_on_uninitialized_link: bool,
}

impl HostOrSecondaryCommand {
    /// The fields of the register value `word`.
    pub open spec fn spec_from(word: u16) -> Self {
        HostOrSecondaryCommand {
            warm_reset: flag(word as u32, 0),
            double_ended: flag(word as u32, 1),
            device_number: field(word as u32, 2, 0x1f) as u8,
            chain_side: flag(word as u32, 7),
            host_hide: flag(word as u32, 8),
            act_as_slave: flag(word as u32, 10),
            host_inbound_end_of_chain_error: flag(word as u32, 11),
            drop_on_uninitialized_link: flag(word as u32, 12),
        }
    }
}

impl vstd::std_specs::convert::FromSpecImpl<u16> for HostOrSecondaryCommand {
    open spec fn obeys_from_spec() -> bool {
        true
    }

    open spec fn from_spec(word: u16) -> Self {
        Self::spec_from(word)
    }
}

impl From<u16> for HostOrSecondaryCommand {
    fn from(word: u16) -> (r: Self) {
        let w = word as u32;
        HostOrSecondaryCommand {
            warm_reset: get_flag(w, 0),
            double_ended: get_flag(w, 1),
            device_number: get_u8(w, 2, 0x1f),
            chain_side: get_flag(w, 7),
            host_hide: get_flag(w, 8),
            act_as_slave: get_flag(w, 10),
            host_inbound_end_of_chain_error: get_flag(w, 11),
            drop_on_uninitialized_link: get_flag(w, 12),
        }
    }
}

impl<'a> vstd::std_specs::convert::FromSpecImpl<&'a RevisionId> for u8 {
    open spec fn obeys_from_spec() -> bool {
        true
    }

    open spec fn from_spec(data: &'a RevisionId) -> Self {
        (data.major << 5u8) | (data.minor & 0b11111u8)
    }
}

impl<'a> From<&'a RevisionId> for u8 {
    fn from(data: &'a RevisionId) -> (r: Self) {
        (data.major << 5u8) | (data.minor & 0b11111u8)
    }
}

/// Encoding a decoded Revision ID register gives back the register.
pub proof fn lemma_revision_id_roundtrip(byte: u8)
    ensures
        ({
            let id = RevisionId::spec_from(byte);
            (id.major << 5u8) | (id.minor & 0b11111u8)
        }) == byte,
{
    let b = byte as u32;
    assert(((((b >> 5u32) & 0x7u32) as u8) << 5u8) | ((((b >> 0u32) & 0x1fu32) as u8) & 0b11111u8)
        == byte) by (bit_vector)
        requires
            b == byte as u32,
    ;
}

/// Link frequency, with the extension bit of the Link Frequency Extension capability
#[derive(Debug, Clone, PartialEq, Eq)]
pub enum LinkFrequency {
    Rate200MHz,
    Rate300MHz,
    Rate400MHz,
    Rate500MHz,
    Rate600MHz,
    Rate800MHz,
    Rate1000MHz,
    Rate1200MHz,
    Rate1400MHz,
    Rate1600MHz,
    Rate1800MHz,
    Rate2000MHz,
    Rate2200MHz,
    Rate2400MHz,
    Rate2600MHz,
    VendorSpecific,
    Rate2800MHz,
    Rate3000MHz,
    Rate3200MHz,
    Reserved(u8),
}

impl LinkFrequency {
    /// The frequency that the 4-bit link frequency field with the extension bit encodes;
    /// any other combination is reserved, with the extension bit as bit 4 of its value.
    pub open spec fn spec_new(link_freq_ext: bool, link_freq: u8) -> Self {
        if !link_freq_ext && link_freq == 0b0000 { LinkFrequency::Rate200MHz }
        else if !link_freq_ext && link_freq == 0b0001 { LinkFrequency::Rate300MHz }
        else if !link_freq_ext && link_freq == 0b0010 { LinkFrequency::Rate400MHz }
        else if !link_freq_ext && link_freq == 0b0011 { LinkFrequency::Rate500MHz }
        else if !link_freq_ext && link_freq == 0b0100 { LinkFrequency::Rate600MHz }
        else if !link_freq_ext && link_freq == 0b0101 { LinkFrequency::Rate800MHz }
        else if !link_freq_ext && link_freq == 0b0110 { LinkFrequency::Rate1000MHz }
        else if !link_freq_ext && link_freq == 0b0111 { LinkFrequency::Rate1200MHz }
        else if !link_freq_ext && link_freq == 0b1000 { LinkFrequency::Rate1400MHz }
        else if !link_freq_ext && link_freq == 0b1001 { LinkFrequency::Rate1600MHz }
        else if !link_freq_ext && link_freq == 0b1010 { LinkFrequency::Rate1800MHz }
        else if !link_freq_ext && link_freq == 0b1011 { LinkFrequency::Rate2000MHz }
        else if !link_freq_ext && link_freq == 0b1100 { LinkFrequency::Rate2200MHz }
        else if !link_freq_ext && link_freq == 0b1101 { LinkFrequency::Rate2400MHz }
        else if !link_freq_ext && link_freq == 0b1110 { LinkFrequency::Rate2600MHz }
        else if !link_freq_ext && link_freq == 0b1111 { LinkFrequency::VendorSpecific }
        else if link_freq_ext && link_freq == 0b0001 { LinkFrequency::Rate2800MHz }
        else if link_freq_ext && link_freq == 0b0010 { LinkFrequency::Rate3000MHz }
        else if link_freq_ext && link_freq == 0b0011 { LinkFrequency::Rate3200MHz }
        else { LinkFrequency::Reserved((link_freq & 0b1111u8) | if link_freq_ext { 0x10u8 } else { 0u8 }) }
    }

    /// The frequency that the 4-bit link frequency field with the extension bit encodes.
    pub fn new(link_freq_ext: bool, link_freq: u8) -> (r: Self)
        ensures
            r == Self::spec_new(link_freq_ext, link_freq),
    {
        if !link_freq_ext && link_freq == 0b0000 { LinkFrequency::Rate200MHz }
        else if !link_freq_ext && link_freq == 0b0001 { LinkFrequency::Rate300MHz }
        else if !link_freq_ext && link_freq == 0b0010 { LinkFrequency::Rate400MHz }
        else if !link_freq_ext && link_freq == 0b0011 { LinkFrequency::Rate500MHz }
        else if !link_freq_ext && link_freq == 0b0100 { LinkFrequency::Rate600MHz }
        else if !link_freq_ext && link_freq == 0b0101 { LinkFrequency::Rate800MHz }
        else if !link_freq_ext && link_freq == 0b0110 { LinkFrequency::Rate1000MHz }
        else if !link_freq_ext && link_freq == 0b0111 { LinkFrequency::Rate1200MHz }
        else if !link_freq_ext && link_freq == 0b1000 { LinkFrequency::Rate1400MHz }
        else if !link_freq_ext && link_freq == 0b1001 { LinkFrequency::Rate1600MHz }
        else if !link_freq_ext && link_freq == 0b1010 { LinkFrequency::Rate1800MHz }
        else if !link_freq_ext && link_freq == 0b1011 { LinkFrequency::Rate2000MHz }
        else if !link_freq_ext && link_freq == 0b1100 { LinkFrequency::Rate2200MHz }
        else if !link_freq_ext && link_freq == 0b1101 { LinkFrequency::Rate2400MHz }
        else if !link_freq_ext && link_freq == 0b1110 { LinkFrequency::Rate2600MHz }
        else if !link_freq_ext && link_freq == 0b1111 { LinkFrequency::VendorSpecific }
        else if link_freq_ext && link_freq == 0b0001 { LinkFrequency::Rate2800MHz }
        else if link_freq_ext && link_freq == 0b0010 { LinkFrequency::Rate3000MHz }
        else if link_freq_ext && link_freq == 0b0011 { LinkFrequency::Rate3200MHz }
        else { LinkFrequency::Reserved((link_freq & 0b1111u8) | if link_freq_ext { 0x10u8 } else { 0u8 }) }
    }
}

/// Link error bits of a Link Frequency/Error register
#[derive(Debug, Clone, PartialEq, Eq)]
pub struct LinkError {
    pub protocol_error: bool,
    pub overflow_error: bool,
    pub end_of_chain_error: bool,
    pub ctl_timeout: bool,
}

impl LinkError {
    /// The fields of the register value `byte`.
    pub open spec fn spec_from(byte: u8) -> Self {
        LinkError {
            protocol_error: flag(byte as u32, 4),
            overflow_error: flag(byte as u32, 5),
            end_of_chain_error: flag(byte as u32, 6),
            ctl_timeout: flag(byte as u32, 7),
        }
    }
}

impl vstd::std_specs::convert::FromSpecImpl<u8> for LinkError {
    open spec fn obeys_from_spec() -> bool {
        true
    }

    open spec fn from_spec(byte: u8) -> Self {
        Self::spec_from(byte)
    }
}

impl From<u8> for LinkError {
    fn from(byte: u8) -> (r: Self) {
        let w = byte as u32;
        LinkError {
            protocol_error: get_flag(w, 4),
            overflow_error: get_flag(w, 5),
            end_of_chain_error: get_flag(w, 6),
            ctl_timeout: get_flag(w, 7),
        }
    }
}

/// Host/Secondary Interface
#[derive(Debug, Clone, PartialEq, Eq)]
pub struct HostOrSecondaryInterface {
    pub command: HostOrSecondaryCommand,
    pub link_control: LinkControl,
    pub link_config: LinkConfiguration,
    pub revision_id: RevisionId,
    pub link_freq: u8,
    pub link_error: LinkError,
    pub link_freq_cap: LinkFrequencyCapability,
    pub feature: FeatureCapability,
    pub enumeration_scratchpad: u16,
    pub error_handling: ErrorHandling,
    pub mem_base_upper: u8,
    pub mem_limit_upper: u8,
}

impl HostOrSecondaryInterface {
    /// Size of the interface registers
    pub const SIZE: usize = 22;

    /// The link frequency with the extension bit `link_freq_ext`.
    pub fn link_freq(&self, link_freq_ext: bool) -> (r: LinkFrequency)
        ensures
            r == LinkFrequency::spec_new(link_freq_ext, self.link_freq),
    {
        LinkFrequency::new(link_freq_ext, self.link_freq)
    }

    /// The interface that the first 22 bytes of `bytes` hold.
    pub open spec fn spec_from_bytes(bytes: Seq<u8>) -> Self {
        HostOrSecondaryInterface {
            command: HostOrSecondaryCommand::spec_from(le_u16(bytes, 0)),
            link_control: LinkControl::spec_from(le_u16(bytes, 2)),
            link_config: LinkConfiguration::spec_from(le_u16(bytes, 4)),
            revision_id: RevisionId::spec_from(bytes[6]),
            link_freq: field(bytes[7] as u32, 0, 0xf) as u8,
            link_error: LinkError::spec_from(bytes[7]),
            link_freq_cap: LinkFrequencyCapability::spec_from(le_u16(bytes, 8)),
            feature: FeatureCapability::spec_from(le_u16(bytes, 10)),
            enumeration_scratchpad: le_u16(bytes, 14),
            error_handling: ErrorHandling::spec_from(le_u16(bytes, 16)),
            mem_base_upper: bytes[18],
            mem_limit_upper: bytes[19],
        }
    }

    fn from_bytes(bytes: &[u8]) -> (r: Self)
        requires
            bytes@.len() >= 22,
        ensures
            r == Self::spec_from_bytes(bytes@),
    {
        HostOrSecondaryInterface {
            command: HostOrSecondaryCommand::from(read_u16(bytes, 0)),
            link_control: LinkControl::from(read_u16(bytes, 2)),
            link_config: LinkConfiguration::from(read_u16(bytes, 4)),
            revision_id: RevisionId::from(bytes[6]),
            link_freq: get_u8(bytes[7] as u32, 0, 0xf),
            link_error: LinkError::from(bytes[7]),
            link_freq_cap: LinkFrequencyCapability::from(read_u16(bytes, 8)),
            feature: FeatureCapability::from(read_u16(bytes, 10)),
            enumeration_scratchpad: read_u16(bytes, 14),
            error_handling: ErrorHandling::from(read_u16(bytes, 16)),
            mem_base_upper: bytes[18],
            mem_limit_upper: bytes[19],
        }
    }
}

impl vstd::std_specs::convert::FromSpecImpl<[u8; 22]> for HostOrSecondaryInterface {
    open spec fn obeys_from_spec() -> bool {
        true
    }

    open spec fn from_spec(bytes: [u8; 22]) -> Self {
        Self::spec_from_bytes(bytes@)
    }
}

impl From<[u8; 22]> for HostOrSecondaryInterface {
    fn from(bytes: [u8; 22]) -> (r: Self) {
        Self::from_bytes(bytes.as_slice())
    }
}

/// Switch capability
#[derive(Debug, Clone, PartialEq, Eq)]
pub struct Switch {}

/// Reserved Host capability
#[derive(Debug, Clone, PartialEq, Eq)]
pub struct ReservedHost {}

/// Interrupt Discovery and Configuration capability
#[derive(Debug, Clone, PartialEq, Eq)]
pub struct InterruptDiscoveryAndConfiguration {}

/// UnitID Clumping capability
#[derive(Debug, Clone, PartialEq, Eq)]
pub struct UnitIdClumping {}

/// Extended Configuration Space Access capability
#[derive(Debug, Clone, PartialEq, Eq)]
pub struct ExtendedConfigurationSpaceAccess {}

/// Address Mapping capability
#[derive(Debug, Clone, PartialEq, Eq)]
pub struct AddressMapping {}

/// MSI Mapping capability
#[derive(Debug, Clone, PartialEq, Eq)]
pub struct MsiMapping {
    pub enabled: bool,
    pub fixed: bool,
    pub base_address_lower: u32,
    pub base_address_upper: u32,
}

impl MsiMapping {
    /// Size of the capability registers
    pub const SIZE: usize = 10;

    /// The 64-bit base address: the upper register, then the lower one without its low 20 bits.
    pub fn base_address(&self) -> (r: u64)
        ensures
            r == qword(self.base_address_lower & 0xfff0_0000u32, self.base_address_upper),
    {
        make_qword(self.base_address_lower & 0xfff0_0000u32, self.base_address_upper)
    }

    /// The capability that the first ten bytes of `bytes` hold.
    pub open spec fn spec_from_bytes(bytes: Seq<u8>) -> Self {
        MsiMapping {
            enabled: flag(le_u16(bytes, 0) as u32, 0),
            fixed: flag(le_u16(bytes, 0) as u32, 1),
            base_address_lower: le_u32(bytes, 2),
            base_address_upper: le_u32(bytes, 6),
        }
    }

    fn from_bytes(bytes: &[u8]) -> (r: Self)
        requires
            bytes@.len() >= 10,
        ensures
            r == Self::spec_from_bytes(bytes@),
    {
        let cmd = read_u16(bytes, 0) as u32;
        MsiMapping {
            enabled: get_flag(cmd, 0),
            fixed: get_flag(cmd, 1),
            base_address_lower: read_u32(bytes, 2),
            base_address_upper: read_u32(bytes, 6),
        }
    }
}

impl vstd::std_specs::convert::FromSpecImpl<[u8; 10]> for MsiMapping {
    open spec fn obeys_from_spec() -> bool {
        true
    }

    open spec fn from_spec(bytes: [u8; 10]) -> Self {
        Self::spec_from_bytes(bytes@)
    }
}

impl From<[u8; 10]> for MsiMapping {
    fn from(bytes: [u8; 10]) -> (r: Self) {
        Self::from_bytes(bytes.as_slice())
    }
}

/// Direct Route capability
#[derive(Debug, Clone, PartialEq, Eq)]
pub struct DirectRoute {}

/// VCSet capability
#[derive(Debug, Clone, PartialEq, Eq)]
pub struct VCSet {}

/// Retry Mode capability
#[derive(Debug, Clone, PartialEq, Eq)]
pub struct RetryMode {}

/// X86 Encoding capability
#[derive(Debug, Clone, PartialEq, Eq)]
pub struct X86Encoding {}

/// Gen3 capability
#[derive(Debug, Clone, PartialEq, Eq)]
pub struct Gen3 {}

/// Function-Level Extension capability
#[derive(Debug, Clone, PartialEq, Eq)]
pub struct FunctionLevelExtension {}

/// Power Management capability
#[derive(Debug, Clone, PartialEq, Eq)]
pub struct PowerManagement {}

/// High Node Count capability
#[derive(Debug, Clone, PartialEq, Eq)]
pub struct HighNodeCount {}

} // verus!
