//! L1 PM Substates extended capability.
//!
//! Besides decoding the three registers, each register value can be encoded back into its
//! double word.
use vstd::prelude::*;
use crate::bits::{field, flag, get_flag, get_u16, get_u8, le_u32, read_u32};
use super::ExtendedCapabilityDataError;
pub use super::latency_tolerance_reporting::MaxLatency;

verus! {

broadcast use crate::bits::lemma_field_le_mask;

/// L1 PM Substates capability
#[derive(Debug, Clone, PartialEq, Eq)]
pub struct L1PmSubstates {
    /// L1 PM Substates Capabilities
    pub l1_pm_substates_capabilities: L1PmSubstatesCapabilities,
    /// L1 PM Substates Control 1
    pub l1_pm_substates_control_1: L1PmSubstatesControl1,
    /// L1 PM Substates Control 2
    pub l1_pm_substates_control_2: L1PmSubstatesControl2,
}

impl L1PmSubstates {
    /// The capability that `bytes` (the data after the extended capability header) holds.
    pub open spec fn spec_parse(bytes: Seq<u8>) -> Result<Self, ExtendedCapabilityDataError> {
        if bytes.len() < 12 {
            Err(ExtendedCapabilityDataError { name: "L1 PM Substates", size: 12 })
        } else {
            Ok(L1PmSubstates {
                l1_pm_substates_capabilities: L1PmSubstatesCapabilities::spec_from(le_u32(bytes, 0)),
                l1_pm_substates_control_1: L1PmSubstatesControl1::spec_from(le_u32(bytes, 4)),
                l1_pm_substates_control_2: L1PmSubstatesControl2::spec_from(le_u32(bytes, 8)),
            })
        }
    }
}

impl vstd::std_specs::convert::TryFromSpecImpl<&[u8]> for L1PmSubstates {
    open spec fn obeys_try_from_spec() -> bool {
        true
    }

    open spec fn try_from_spec(slice: &[u8]) -> Result<Self, Self::Error> {
        Self::spec_parse(slice@)
    }
}

impl TryFrom<&[u8]> for L1PmSubstates {
    type Error = ExtendedCapabilityDataError;

    fn try_from(slice: &[u8]) -> (r: Result<Self, Self::Error>) {
        if slice.len() < 12 {
            return Err(ExtendedCapabilityDataError { name: "L1 PM Substates", size: 12 });
        }
        Ok(L1PmSubstates {
            l1_pm_substates_capabilities: L1PmSubstatesCapabilities::decode(read_u32(slice, 0)),
            l1_pm_substates_control_1: L1PmSubstatesControl1::decode(read_u32(slice, 4)),
            l1_pm_substates_control_2: L1PmSubstatesControl2::decode(read_u32(slice, 8)),
        })
    }
}

/// One for a set flag, zero otherwise.
pub open spec fn bit(b: bool) -> u32 {
    if b {
        1
    } else {
        0
    }
}

fn to_bit(b: bool) -> (r: u32)
    ensures
        r == bit(b),
{
    if b {
        1
    } else {
        0
    }
}

/// L1 PM Substates Capabilities register
#[derive(Debug, Clone, PartialEq, Eq)]
pub struct L1PmSubstatesCapabilities {
    /// PCI-PM L1.2 Supported
    pub pci_pm_l1_2_supported: bool,
    /// PCI-PM L1.1 Supported
    pub pci_pm_l1_1_supported: bool,
    /// ASPM L1.2 Supported
    pub aspm_l1_2_supported: bool,
    /// ASPM L1.1 Supported
    pub aspm_l1_1_supported: bool,
    /// L1 PM Substates Supported
    pub l1_pm_substates_supported: bool,
    /// Port Common_Mode_Restore_Time
    pub port_common_mode_restore_time: u8,
    /// Port T_POWER_ON
    pub port_t_power_on: PortTPowerOn,
}

impl L1PmSubstatesCapabilities {
    /// The fields of the register value `dword`.
    pub open spec fn spec_from(dword: u32) -> Self {
        L1PmSubstatesCapabilities {
            pci_pm_l1_2_supported: flag(dword, 0),
            pci_pm_l1_1_supported: flag(dword, 1),
            aspm_l1_2_supported: flag(dword, 2),
            aspm_l1_1_supported: flag(dword, 3),
            l1_pm_substates_supported: flag(dword, 4),
            port_common_mode_restore_time: field(dword, 8, 0xff) as u8,
            port_t_power_on: PortTPowerOn {
                value: field(dword, 19, 0x1f) as u8,
                scale: PortTPowerOnScale::spec_from(field(dword, 16, 0x3) as u8),
            },
        }
    }

    fn decode(dword: u32) -> (r: Self)
        ensures
            r == Self::spec_from(dword),
    {
        L1PmSubstatesCapabilities {
            pci_pm_l1_2_supported: get_flag(dword, 0),
            pci_pm_l1_1_supported: get_flag(dword, 1),
            aspm_l1_2_supported: get_flag(dword, 2),
            aspm_l1_1_supported: get_flag(dword, 3),
            l1_pm_substates_supported: get_flag(dword, 4),
            port_common_mode_restore_time: get_u8(dword, 8, 0xff),
            port_t_power_on: PortTPowerOn {
                value: get_u8(dword, 19, 0x1f),
                scale: PortTPowerOnScale::from(get_u8(dword, 16, 0x3)),
            },
        }
    }

    /// The register value: the flags in bits 0 to 4, the Common_Mode_Restore_Time in the
    /// second byte and the T_POWER_ON in the third.
    pub open spec fn spec_to_bits(self) -> u32 {
        bit(self.pci_pm_l1_2_supported) | bit(self.pci_pm_l1_1_supported) << 1u32 | bit(
            self.aspm_l1_2_supported,
        ) << 2u32 | bit(self.aspm_l1_1_supported) << 3u32 | bit(self.l1_pm_substates_supported)
            << 4u32 | (self.port_common_mode_restore_time as u32) << 8u32
            | (self.port_t_power_on.spec_to_bits() as u32) << 16u32
    }
}

impl vstd::std_specs::convert::FromSpecImpl<L1PmSubstatesCapabilities> for u32 {
    open spec fn obeys_from_spec() -> bool {
        true
    }

    open spec fn from_spec(data: L1PmSubstatesCapabilities) -> Self {
        data.spec_to_bits()
    }
}

impl From<L1PmSubstatesCapabilities> for u32 {
    fn from(data: L1PmSubstatesCapabilities) -> (r: Self) {
        to_bit(data.pci_pm_l1_2_supported) | to_bit(data.pci_pm_l1_1_supported) << 1u32 | to_bit(
            data.aspm_l1_2_supported,
        ) << 2u32 | to_bit(data.aspm_l1_1_supported) << 3u32 | to_bit(data.l1_pm_substates_supported)
            << 4u32 | (data.port_common_mode_restore_time as u32) << 8u32 | (u8::from(
            data.port_t_power_on,
        ) as u32) << 16u32
    }
}

/// The time (in microseconds) that the Port needs the port on the other side of the Link to
/// wait in L1.2: a value and its scale
#[derive(Debug, Clone, PartialEq, Eq)]
pub struct PortTPowerOn {
    pub value: u8,
    pub scale: PortTPowerOnScale,
}

impl PortTPowerOn {
    /// The time in microseconds: the value times the scale; none for the reserved scale.
    pub fn value(&self) -> (r: Option<usize>)
        ensures
            r == (match self.scale.spec_micros() {
                Some(m) => Some((self.value * m) as usize),
                None => None,
            }),
    {
        match self.scale.micros() {
            Some(m) => Some(self.value as usize * m),
            None => None,
        }
    }

    /// The byte that holds the scale in bits 0 and 1 and the value from bit 3.
    pub open spec fn spec_to_bits(self) -> u8 {
        (self.value << 3u8) | self.scale.spec_to_bits()
    }
}

impl vstd::std_specs::convert::FromSpecImpl<PortTPowerOn> for u8 {
    open spec fn obeys_from_spec() -> bool {
        true
    }

    open spec fn from_spec(data: PortTPowerOn) -> Self {
        data.spec_to_bits()
    }
}

impl From<PortTPowerOn> for u8 {
    fn from(data: PortTPowerOn) -> (r: Self) {
        (data.value << 3u8) | u8::from(data.scale)
    }
}

/// The scale of a T_POWER_ON value
#[derive(Debug, Clone, Copy, PartialEq, Eq)]
pub enum PortTPowerOnScale {
    /// 2 µs
    Time2us,
    /// 10 µs
    Time10us,
    /// 100 µs
    Time100us,
    /// Reserved
    Reserved,
}

impl PortTPowerOnScale {
    /// The scale that the field `byte` encodes; only its values 0 to 2 name one.
    pub open spec fn spec_from(byte: u8) -> Self {
        match byte {
            0 => Self::Time2us,
            1 => Self::Time10us,
            2 => Self::Time100us,
            _ => Self::Reserved,
        }
    }

    /// The field that encodes the scale.
    pub open spec fn spec_to_bits(self) -> u8 {
        match self {
            Self::Time2us => 0,
            Self::Time10us => 1,
            Self::Time100us => 2,
            Self::Reserved => 3,
        }
    }

    /// The microseconds that one unit of the scale stands for; none for the reserved scale.
    pub open spec fn spec_micros(self) -> Option<usize> {
        match self {
            Self::Time2us => Some(2),
            Self::Time10us => Some(10),
            Self::Time100us => Some(100),
            Self::Reserved => None,
        }
    }

    /// The microseconds that one unit of the scale stands for; none for the reserved scale.
    pub fn micros(&self) -> (r: Option<usize>)
        ensures
            r == self.spec_micros(),
    {
        match self {
            Self::Time2us => Some(2),
            Self::Time10us => Some(10),
            Self::Time100us => Some(100),
            Self::Reserved => None,
        }
    }
}

impl vstd::std_specs::convert::FromSpecImpl<u8> for PortTPowerOnScale {
    open spec fn obeys_from_spec() -> bool {
        true
    }

    open spec fn from_spec(byte: u8) -> Self {
        Self::spec_from(byte)
    }
}

impl From<u8> for PortTPowerOnScale {
    fn from(byte: u8) -> (r: Self) {
        match byte {
            0 => Self::Time2us,
            1 => Self::Time10us,
            2 => Self::Time100us,
            _ => Self::Reserved,
        }
    }
}

impl vstd::std_specs::convert::FromSpecImpl<PortTPowerOnScale> for u8 {
    open spec fn obeys_from_spec() -> bool {
        true
    }

    open spec fn from_spec(data: PortTPowerOnScale) -> Self {
        data.spec_to_bits()
    }
}

impl From<PortTPowerOnScale> for u8 {
    fn from(data: PortTPowerOnScale) -> (r: Self) {
        match data {
            PortTPowerOnScale::Time2us => 0,
            PortTPowerOnScale::Time10us => 1,
            PortTPowerOnScale::Time100us => 2,
            PortTPowerOnScale::Reserved => 3,
        }
    }
}

/// L1 PM Substates Control 1 register
#[derive(Debug, Clone, PartialEq, Eq)]
pub struct L1PmSubstatesControl1 {
    /// PCI-PM L1.2 Enable
    pub pci_pm_l1_2_enable: bool,
    /// PCI-PM L1.1 Enable
    pub pci_pm_l1_1_enable: bool,
    /// ASPM L1.2 Enable
    pub aspm_l1_2_enable: bool,
    /// ASPM L1.1 Enable
    pub aspm_l1_1_enable: bool,
    /// T(COMMONMODE) in microseconds, for the Downstream Port to time the re-establishment of
    /// common mode
    pub common_mode_restore_time: u8,
    /// The LTR threshold that decides whether entry into L1 gives L1.1 or L1.2
    pub ltr_l1_2_threshold: MaxLatency,
}

impl L1PmSubstatesControl1 {
    /// The fields of the register value `dword`.
    pub open spec fn spec_from(dword: u32) -> Self {
        L1PmSubstatesControl1 {
            pci_pm_l1_2_enable: flag(dword, 0),
            pci_pm_l1_1_enable: flag(dword, 1),
            aspm_l1_2_enable: flag(dword, 2),
            aspm_l1_1_enable: flag(dword, 3),
            common_mode_restore_time: field(dword, 8, 0xff) as u8,
            ltr_l1_2_threshold: MaxLatency {
                value: field(dword, 16, 0x3ff) as u16,
                scale: field(dword, 29, 0x7) as u8,
            },
        }
    }

    fn decode(dword: u32) -> (r: Self)
        ensures
            r == Self::spec_from(dword),
    {
        L1PmSubstatesControl1 {
            pci_pm_l1_2_enable: get_flag(dword, 0),
            pci_pm_l1_1_enable: get_flag(dword, 1),
            aspm_l1_2_enable: get_flag(dword, 2),
            aspm_l1_1_enable: get_flag(dword, 3),
            common_mode_restore_time: get_u8(dword, 8, 0xff),
            ltr_l1_2_threshold: MaxLatency {
                value: get_u16(dword, 16, 0x3ff),
                scale: get_u8(dword, 29, 0x7),
            },
        }
    }

    /// The register value: the flags in bits 0 to 3, the Common_Mode_Restore_Time in the
    /// second byte and the LTR threshold word in the upper half.
    pub open spec fn spec_to_bits(self) -> u32 {
        bit(self.pci_pm_l1_2_enable) | bit(self.pci_pm_l1_1_enable) << 1u32 | bit(
            self.aspm_l1_2_enable,
        ) << 2u32 | bit(self.aspm_l1_1_enable) << 3u32 | (self.common_mode_restore_time as u32)
            << 8u32 | (self.ltr_l1_2_threshold.spec_to_bits() as u32) << 16u32
    }
}

impl vstd::std_specs::convert::FromSpecImpl<L1PmSubstatesControl1> for u32 {
    open spec fn obeys_from_spec() -> bool {
        true
    }

    open spec fn from_spec(data: L1PmSubstatesControl1) -> Self {
        data.spec_to_bits()
    }
}

impl From<L1PmSubstatesControl1> for u32 {
    fn from(data: L1PmSubstatesControl1) -> (r: Self) {
        to_bit(data.pci_pm_l1_2_enable) | to_bit(data.pci_pm_l1_1_enable) << 1u32 | to_bit(
            data.aspm_l1_2_enable,
        ) << 2u32 | to_bit(data.aspm_l1_1_enable) << 3u32 | (data.common_mode_restore_time as u32)
            << 8u32 | (u16::from(data.ltr_l1_2_threshold) as u32) << 16u32
    }
}

/// L1 PM Substates Control 2 register
#[derive(Debug, Clone, PartialEq, Eq)]
pub struct L1PmSubstatesControl2 {
    /// T_POWER_ON
    pub t_power_on: PortTPowerOn,
}

impl L1PmSubstatesControl2 {
    /// The fields of the register value `dword`.
    pub open spec fn spec_from(dword: u32) -> Self {
        L1PmSubstatesControl2 {
            t_power_on: PortTPowerOn {
                value: field(dword, 3, 0x1f) as u8,
                scale: PortTPowerOnScale::spec_from(field(dword, 0, 0x3) as u8),
            },
        }
    }

    fn decode(dword: u32) -> (r: Self)
        ensures
            r == Self::spec_from(dword),
    {
        L1PmSubstatesControl2 {
            t_power_on: PortTPowerOn {
                value: get_u8(dword, 3, 0x1f),
                scale: PortTPowerOnScale::from(get_u8(dword, 0, 0x3)),
            },
        }
    }

    /// The register value: the T_POWER_ON byte.
    pub open spec fn spec_to_bits(self) -> u32 {
        self.t_power_on.spec_to_bits() as u32
    }
}

impl vstd::std_specs::convert::FromSpecImpl<L1PmSubstatesControl2> for u32 {
    open spec fn obeys_from_spec() -> bool {
        true
    }

    open spec fn from_spec(data: L1PmSubstatesControl2) -> Self {
        data.spec_to_bits()
    }
}

impl From<L1PmSubstatesControl2> for u32 {
    fn from(data: L1PmSubstatesControl2) -> (r: Self) {
        u8::from(data.t_power_on) as u32
    }
}

/// Encoding the Capabilities register that a double word decodes to gives back the double word
/// with its reserved bits cleared.
pub proof fn lemma_capabilities_decode_encode(dword: u32)
    ensures
        L1PmSubstatesCapabilities::spec_from(dword).spec_to_bits() == dword & 0x00fb_ff1f,
{
    let s = field(dword, 16, 0x3) as u8;
    assert(PortTPowerOnScale::spec_from(s).spec_to_bits() == s);
    assert(bit(flag(dword, 0)) | bit(flag(dword, 1)) << 1u32 | bit(flag(dword, 2)) << 2u32 | bit(
        flag(dword, 3),
    ) << 3u32 | bit(flag(dword, 4)) << 4u32 | (field(dword, 8, 0xff) as u8 as u32) << 8u32 | ((((
    field(dword, 19, 0x1f) as u8) << 3u8) | (field(dword, 16, 0x3) as u8)) as u32) << 16u32
        == dword & 0x00fb_ff1f) by (bit_vector);
}

/// Decoding the double word that a Capabilities register encodes to gives back the register,
/// where its T_POWER_ON value fits its 5 bits.
pub proof fn lemma_capabilities_encode_decode(caps: L1PmSubstatesCapabilities)
    requires
        caps.port_t_power_on.value < 32,
    ensures
        L1PmSubstatesCapabilities::spec_from(caps.spec_to_bits()) == caps,
{
    let d = caps.spec_to_bits();
    let (a, b, c, e, f) = (
        caps.pci_pm_l1_2_supported,
        caps.pci_pm_l1_1_supported,
        caps.aspm_l1_2_supported,
        caps.aspm_l1_1_supported,
        caps.l1_pm_substates_supported,
    );
    let t = caps.port_common_mode_restore_time;
    let v = caps.port_t_power_on.value;
    let s = caps.port_t_power_on.scale.spec_to_bits();
    assert(s < 4);
    assert(PortTPowerOnScale::spec_from(s) == caps.port_t_power_on.scale);
    assert({
        let d = bit(a) | bit(b) << 1u32 | bit(c) << 2u32 | bit(e) << 3u32 | bit(f) << 4u32 | (t as u32)
            << 8u32 | (((v << 3u8) | s) as u32) << 16u32;
        &&& flag(d, 0) == a
        &&& flag(d, 1) == b
        &&& flag(d, 2) == c
        &&& flag(d, 3) == e
        &&& flag(d, 4) == f
        &&& field(d, 8, 0xff) as u8 == t
        &&& field(d, 19, 0x1f) as u8 == v
        &&& field(d, 16, 0x3) as u8 == s
    }) by (bit_vector)
        requires
            v < 32,
            s < 4,
    ;
}

/// Encoding the Control 1 register that a double word decodes to gives back the double word
/// with its reserved bits cleared.
pub proof fn lemma_control_1_decode_encode(dword: u32)
    ensures
        L1PmSubstatesControl1::spec_from(dword).spec_to_bits() == dword & 0xe3ff_ff0f,
{
    assert(bit(flag(dword, 0)) | bit(flag(dword, 1)) << 1u32 | bit(flag(dword, 2)) << 2u32 | bit(
        flag(dword, 3),
    ) << 3u32 | (field(dword, 8, 0xff) as u8 as u32) << 8u32 | (((((field(dword, 29, 0x7) as u8)
        as u16) << 13u16) | (field(dword, 16, 0x3ff) as u16)) as u32) << 16u32 == dword
        & 0xe3ff_ff0f) by (bit_vector);
}

/// Decoding the double word that a Control 1 register encodes to gives back the register,
/// where the LTR threshold value fits its 10 bits and its scale its 3.
pub proof fn lemma_control_1_encode_decode(ctl: L1PmSubstatesControl1)
    requires
        ctl.ltr_l1_2_threshold.value < 1024,
        ctl.ltr_l1_2_threshold.scale < 8,
    ensures
        L1PmSubstatesControl1::spec_from(ctl.spec_to_bits()) == ctl,
{
    let (a, b, c, e) = (
        ctl.pci_pm_l1_2_enable,
        ctl.pci_pm_l1_1_enable,
        ctl.aspm_l1_2_enable,
        ctl.aspm_l1_1_enable,
    );
    let t = ctl.common_mode_restore_time;
    let v = ctl.ltr_l1_2_threshold.value;
    let s = ctl.ltr_l1_2_threshold.scale;
    assert({
        let d = bit(a) | bit(b) << 1u32 | bit(c) << 2u32 | bit(e) << 3u32 | (t as u32) << 8u32 | ((((
        s as u16) << 13u16) | v) as u32) << 16u32;
        &&& flag(d, 0) == a
        &&& flag(d, 1) == b
        &&& flag(d, 2) == c
        &&& flag(d, 3) == e
        &&& field(d, 8, 0xff) as u8 == t
        &&& field(d, 16, 0x3ff) as u16 == v
        &&& field(d, 29, 0x7) as u8 == s
    }) by (bit_vector)
        requires
            v < 1024,
            s < 8,
    ;
}

/// Encoding the Control 2 register that a double word decodes to gives back the double word
/// with its reserved bits cleared.
pub proof fn lemma_control_2_decode_encode(dword: u32)
    ensures
        L1PmSubstatesControl2::spec_from(dword).spec_to_bits() == dword & 0xfb,
{
    let s = field(dword, 0, 0x3) as u8;
    assert(PortTPowerOnScale::spec_from(s).spec_to_bits() == s);
    assert(((((field(dword, 3, 0x1f) as u8) << 3u8) | (field(dword, 0, 0x3) as u8)) as u32)
        == dword & 0xfb) by (bit_vector);
}

/// Decoding the double word that a Control 2 register encodes to gives back the register,
/// where its T_POWER_ON value fits its 5 bits.
pub proof fn lemma_control_2_encode_decode(ctl: L1PmSubstatesControl2)
    requires
        ctl.t_power_on.value < 32,
    ensures
        L1PmSubstatesControl2::spec_from(ctl.spec_to_bits()) == ctl,
{
    let v = ctl.t_power_on.value;
    let s = ctl.t_power_on.scale.spec_to_bits();
    assert(s < 4);
    assert(PortTPowerOnScale::spec_from(s) == ctl.t_power_on.scale);
    assert({
        let d = ((v << 3u8) | s) as u32;
        &&& field(d, 3, 0x1f) as u8 == v
        &&& field(d, 0, 0x3) as u8 == s
    }) by (bit_vector)
        requires
            v < 32,
            s < 4,
    ;
}


/// Reading the T_POWER_ON value (bits 3 to 7) and scale (bits 0 and 1) of a byte and encoding
/// them again gives back the byte with its reserved bit 2 cleared.
pub proof fn lemma_port_t_power_on_decode_encode(byte: u8)
    ensures
        (PortTPowerOn {
            value: field(byte as u32, 3, 0x1f) as u8,
            scale: PortTPowerOnScale::spec_from(field(byte as u32, 0, 0x3) as u8),
        }).spec_to_bits() == byte & 0xfb,
{
    let s = field(byte as u32, 0, 0x3) as u8;
    assert(PortTPowerOnScale::spec_from(s).spec_to_bits() == s);
    assert((((field(byte as u32, 3, 0x1f) as u8) << 3u8) | (field(byte as u32, 0, 0x3) as u8))
        == byte & 0xfb) by (bit_vector);
}

/// Encoding a T_POWER_ON value and scale and reading the two fields of the byte back gives
/// them back, where the value fits its 5 bits.
pub proof fn lemma_port_t_power_on_encode_decode(t: PortTPowerOn)
    requires
        t.value < 32,
    ensures
        field(t.spec_to_bits() as u32, 3, 0x1f) == t.value,
        PortTPowerOnScale::spec_from(field(t.spec_to_bits() as u32, 0, 0x3) as u8) == t.scale,
{
    let v = t.value;
    let s = t.scale.spec_to_bits();
    assert(s < 4);
    assert({
        let d = ((v << 3u8) | s) as u32;
        &&& field(d, 3, 0x1f) == v
        &&& field(d, 0, 0x3) == s
    }) by (bit_vector)
        requires
            v < 32,
            s < 4,
    ;
}

} // verus!
