//! Accelerated Graphics Port (AGP) capability.
use vstd::prelude::*;
use crate::bits::{field, flag, get_flag, get_u8, le_u16, le_u32, read_u16, read_u32};
use super::CapabilityDataError;

verus! {

broadcast use crate::bits::lemma_field_le_mask;

/// Accelerated Graphics Port capability
#[derive(Debug, Clone, PartialEq, Eq)]
pub struct AcceleratedGraphicsPort {
    pub identifier: Identifier,
    pub status: Status,
    pub command: Command,
    pub isochronous_status: Option<IsochronousStatus>,
    pub control: Option<Control>,
    pub aperture_size: Option<ApertureSize>,
    pub enabled_aperture_page_size: Option<EnabledAperturePageSize>,
    pub gart_pointer: Option<GartPointer>,
    pub isochronous_command: Option<IsochronousCommand>,
}

impl AcceleratedGraphicsPort {
    /// The capability that `bytes` (the data after the capability header) holds: the optional
    /// registers that follow the mandatory ones are present as far as `bytes` reaches.
    pub open spec fn spec_parse(bytes: Seq<u8>) -> Result<Self, CapabilityDataError> {
        if bytes.len() < 10 {
            Err(CapabilityDataError { name: "AGP", size: 10 })
        } else {
            let status = Status::spec_from(le_u32(bytes, 2));
            let n = bytes.len();
            Ok(AcceleratedGraphicsPort {
                identifier: Identifier::spec_from(le_u16(bytes, 0)),
                status,
                command: Command::spec_from(le_u32(bytes, 6)),
                isochronous_status: if n >= 14 && status.isoch_support {
                    Some(IsochronousStatus::spec_from(le_u32(bytes, 10)))
                } else {
                    None
                },
                control: if n >= 18 { Some(Control::spec_from(le_u32(bytes, 14))) } else { None },
                aperture_size: if n >= 20 { Some(ApertureSize(le_u16(bytes, 18))) } else { None },
                enabled_aperture_page_size: if n >= 22 {
                    Some(EnabledAperturePageSize(le_u16(bytes, 20)))
                } else {
                    None
                },
                gart_pointer: if n >= 30 {
                    Some(GartPointer { gartlo: le_u32(bytes, 22), garthi: le_u32(bytes, 26) })
                } else if n >= 26 {
                    Some(GartPointer { gartlo: le_u32(bytes, 22), garthi: 0 })
                } else {
                    None
                },
                isochronous_command: if n >= 32 && status.isoch_support {
                    Some(IsochronousCommand::spec_from(le_u16(bytes, 30)))
                } else {
                    None
                },
            })
        }
    }
}

impl vstd::std_specs::convert::TryFromSpecImpl<&[u8]> for AcceleratedGraphicsPort {
    open spec fn obeys_try_from_spec() -> bool {
        true
    }

    open spec fn try_from_spec(slice: &[u8]) -> Result<Self, Self::Error> {
        Self::spec_parse(slice@)
    }
}

impl TryFrom<&[u8]> for AcceleratedGraphicsPort {
    type Error = CapabilityDataError;

    fn try_from(slice: &[u8]) -> (r: Result<Self, Self::Error>) {
        let n = slice.len();
        if n < 10 {
            return Err(CapabilityDataError { name: "AGP", size: 10 });
        }
        let status = Status::from(read_u32(slice, 2));
        let isoch = status.isoch_support;
        let isochronous_status = if n >= 14 && isoch {
            Some(IsochronousStatus::from(read_u32(slice, 10)))
        } else {
            None
        };
        let control = if n >= 18 { Some(Control::from(read_u32(slice, 14))) } else { None };
        let aperture_size = if n >= 20 { Some(ApertureSize(read_u16(slice, 18))) } else { None };
        let enabled_aperture_page_size = if n >= 22 {
            Some(EnabledAperturePageSize(read_u16(slice, 20)))
        } else {
            None
        };
        let gart_pointer = if n >= 30 {
            Some(GartPointer { gartlo: read_u32(slice, 22), garthi: read_u32(slice, 26) })
        } else if n >= 26 {
            Some(GartPointer { gartlo: read_u32(slice, 22), garthi: 0 })
        } else {
            None
        };
        let isochronous_command = if n >= 32 && isoch {
            Some(IsochronousCommand::from(read_u16(slice, 30)))
        } else {
            None
        };
        Ok(AcceleratedGraphicsPort {
            identifier: Identifier::from(read_u16(slice, 0)),
            status,
            command: Command::from(read_u32(slice, 6)),
            isochronous_status,
            control,
            aperture_size,
            enabled_aperture_page_size,
            gart_pointer,
            isochronous_command,
        })
    }
}

/// Major and minor revision numbers of the AGP interface specification
#[derive(Debug, Clone, PartialEq, Eq)]
pub struct Identifier {
    pub minor: u8,
    pub major: u8,
}

impl Identifier {
    /// The fields of the register value `word`.
    pub open spec fn spec_from(word: u16) -> Self {
        Identifier {
            minor: field(word as u32, 0, 0xf) as u8,
            major: field(word as u32, 4, 0xf) as u8,
        }
    }
}

impl vstd::std_specs::convert::FromSpecImpl<u16> for Identifier {
    open spec fn obeys_from_spec() -> bool {
        true
    }

    open spec fn from_spec(word: u16) -> Self {
        Self::spec_from(word)
    }
}

impl From<u16> for Identifier {
    fn from(word: u16) -> (r: Self) {
        let w = word as u32;
        Identifier {
            minor: get_u8(w, 0, 0xf),
            major: get_u8(w, 4, 0xf),
        }
    }
}

/// AGP Status register
#[derive(Debug, Clone, PartialEq, Eq)]
pub struct Status {
    pub rate: DataRateSupport,
    pub agp_3_0_mode: bool,
    pub fw: bool,
    pub over4g: bool,
    pub htrans: bool,
    pub gart64b: bool,
    pub ita_coh: bool,
    pub sba: bool,
    pub cal_cycle: CalCycle,
    pub arqsz: u8,
    pub reserved: bool,
    pub isoch_support: bool,
    pub rq: u8,
}

impl Status {
    /// The fields of the register value `dword`.
    pub open spec fn spec_from(dword: u32) -> Self {
        Status {
            rate: DataRateSupport::spec_from(field(dword, 0, 0x7) as u8),
            agp_3_0_mode: flag(dword, 3),
            fw: flag(dword, 4),
            over4g: flag(dword, 5),
            htrans: flag(dword, 6),
            gart64b: flag(dword, 7),
            ita_coh: flag(dword, 8),
            sba: flag(dword, 9),
            cal_cycle: CalCycle::spec_from(field(dword, 10, 0x7) as u8),
            arqsz: field(dword, 13, 0x7) as u8,
            reserved: flag(dword, 16),
            isoch_support: flag(dword, 17),
            rq: field(dword, 24, 0xff) as u8,
        }
    }
}

impl vstd::std_specs::convert::FromSpecImpl<u32> for Status {
    open spec fn obeys_from_spec() -> bool {
        true
    }

    open spec fn from_spec(dword: u32) -> Self {
        Self::spec_from(dword)
    }
}

impl From<u32> for Status {
    fn from(dword: u32) -> (r: Self) {
        Status {
            rate: DataRateSupport::from(get_u8(dword, 0, 0x7)),
            agp_3_0_mode: get_flag(dword, 3),
            fw: get_flag(dword, 4),
            over4g: get_flag(dword, 5),
            htrans: get_flag(dword, 6),
            gart64b: get_flag(dword, 7),
            ita_coh: get_flag(dword, 8),
            sba: get_flag(dword, 9),
            cal_cycle: CalCycle::from(get_u8(dword, 10, 0x7)),
            arqsz: get_u8(dword, 13, 0x7),
            reserved: get_flag(dword, 16),
            isoch_support: get_flag(dword, 17),
            rq: get_u8(dword, 24, 0xff),
        }
    }
}

/// Calibration cycle period
#[derive(Debug, Clone, Copy, PartialEq, Eq)]
pub enum CalCycle {
    Period4ms,
    Period16ms,
    Period64ms,
    Period256ms,
    CalibrationCycleNotNeeded,
    Reserved(u8),
}

impl CalCycle {
    /// The value that `byte` encodes.
    pub open spec fn spec_from(byte: u8) -> Self {
        match byte {
            0b000 => Self::Period4ms,
            0b001 => Self::Period16ms,
            0b010 => Self::Period64ms,
            0b011 => Self::Period256ms,
            0b111 => Self::CalibrationCycleNotNeeded,
            _ => Self::Reserved(byte),
        }
    }
}

impl CalCycle {
    /// The register field that encodes the value.
    pub open spec fn spec_to_bits(self) -> u8 {
        match self {
            CalCycle::Period4ms => 0b000,
            CalCycle::Period16ms => 0b001,
            CalCycle::Period64ms => 0b010,
            CalCycle::Period256ms => 0b011,
            CalCycle::CalibrationCycleNotNeeded => 0b111,
            CalCycle::Reserved(v) => v,
        }
    }
}

impl vstd::std_specs::convert::FromSpecImpl<CalCycle> for u8 {
    open spec fn obeys_from_spec() -> bool {
        true
    }

    open spec fn from_spec(value: CalCycle) -> Self {
        value.spec_to_bits()
    }
}

impl From<CalCycle> for u8 {
    fn from(value: CalCycle) -> (r: Self) {
        match value {
            CalCycle::Period4ms => 0b000,
            CalCycle::Period16ms => 0b001,
            CalCycle::Period64ms => 0b010,
            CalCycle::Period256ms => 0b011,
            CalCycle::CalibrationCycleNotNeeded => 0b111,
            CalCycle::Reserved(v) => v,
        }
    }
}

/// Encoding a decoded CalCycle field gives back the field.
pub proof fn lemma_cal_cycle_roundtrip(byte: u8)
    ensures
        CalCycle::spec_from(byte).spec_to_bits() == byte,
{
}

impl vstd::std_specs::convert::FromSpecImpl<u8> for CalCycle {
    open spec fn obeys_from_spec() -> bool {
        true
    }

    open spec fn from_spec(byte: u8) -> Self {
        Self::spec_from(byte)
    }
}

impl From<u8> for CalCycle {
    fn from(byte: u8) -> (r: Self) {
        match byte {
            0b000 => Self::Period4ms,
            0b001 => Self::Period16ms,
            0b010 => Self::Period64ms,
            0b011 => Self::Period256ms,
            0b111 => Self::CalibrationCycleNotNeeded,
            _ => Self::Reserved(byte),
        }
    }
}

/// Data rates supported by the device
#[derive(Debug, Clone, Copy, PartialEq, Eq)]
pub enum DataRateSupport {
    Speed4x,
    Speed8x,
    Speed4xAnd8x,
    Reserved(u8),
}

impl DataRateSupport {
    /// The value that `byte` encodes.
    pub open spec fn spec_from(byte: u8) -> Self {
        match byte {
            0b001 => Self::Speed4x,
            0b010 => Self::Speed8x,
            0b011 => Self::Speed4xAnd8x,
            _ => Self::Reserved(byte),
        }
    }
}

impl DataRateSupport {
    /// The register field that encodes the value.
    pub open spec fn spec_to_bits(self) -> u8 {
        match self {
            DataRateSupport::Speed4x => 0b001,
            DataRateSupport::Speed8x => 0b010,
            DataRateSupport::Speed4xAnd8x => 0b011,
            DataRateSupport::Reserved(v) => v,
        }
    }
}

impl vstd::std_specs::convert::FromSpecImpl<DataRateSupport> for u8 {
    open spec fn obeys_from_spec() -> bool {
        true
    }

    open spec fn from_spec(value: DataRateSupport) -> Self {
        value.spec_to_bits()
    }
}

impl From<DataRateSupport> for u8 {
    fn from(value: DataRateSupport) -> (r: Self) {
        match value {
            DataRateSupport::Speed4x => 0b001,
            DataRateSupport::Speed8x => 0b010,
            DataRateSupport::Speed4xAnd8x => 0b011,
            DataRateSupport::Reserved(v) => v,
        }
    }
}

/// Encoding a decoded DataRateSupport field gives back the field.
pub proof fn lemma_data_rate_support_roundtrip(byte: u8)
    ensures
        DataRateSupport::spec_from(byte).spec_to_bits() == byte,
{
}

impl vstd::std_specs::convert::FromSpecImpl<u8> for DataRateSupport {
    open spec fn obeys_from_spec() -> bool {
        true
    }

    open spec fn from_spec(byte: u8) -> Self {
        Self::spec_from(byte)
    }
}

impl From<u8> for DataRateSupport {
    fn from(byte: u8) -> (r: Self) {
        match byte {
            0b001 => Self::Speed4x,
            0b010 => Self::Speed8x,
            0b011 => Self::Speed4xAnd8x,
            _ => Self::Reserved(byte),
        }
    }
}

/// AGP Command register
#[derive(Debug, Clone, PartialEq, Eq)]
pub struct Command {
    pub drate: DataRateEnabled,
    pub fw_enable: bool,
    pub over4g: bool,
    pub gart64b: bool,
    pub agp_enable: bool,
    pub sba_enable: bool,
    pub pcal_cycle: CalCycle,
    pub parqsz: u8,
    pub prq: u8,
}

impl Command {
    /// The fields of the register value `dword`.
    pub open spec fn spec_from(dword: u32) -> Self {
        Command {
            drate: DataRateEnabled::spec_from(field(dword, 0, 0x7) as u8),
            fw_enable: flag(dword, 4),
            over4g: flag(dword, 5),
            gart64b: flag(dword, 7),
            agp_enable: flag(dword, 8),
            sba_enable: flag(dword, 9),
            pcal_cycle: CalCycle::spec_from(field(dword, 10, 0x7) as u8),
            parqsz: field(dword, 13, 0x7) as u8,
            prq: field(dword, 24, 0xff) as u8,
        }
    }
}

impl vstd::std_specs::convert::FromSpecImpl<u32> for Command {
    open spec fn obeys_from_spec() -> bool {
        true
    }

    open spec fn from_spec(dword: u32) -> Self {
        Self::spec_from(dword)
    }
}

impl From<u32> for Command {
    fn from(dword: u32) -> (r: Self) {
        Command {
            drate: DataRateEnabled::from(get_u8(dword, 0, 0x7)),
            fw_enable: get_flag(dword, 4),
            over4g: get_flag(dword, 5),
            gart64b: get_flag(dword, 7),
            agp_enable: get_flag(dword, 8),
            sba_enable: get_flag(dword, 9),
            pcal_cycle: CalCycle::from(get_u8(dword, 10, 0x7)),
            parqsz: get_u8(dword, 13, 0x7),
            prq: get_u8(dword, 24, 0xff),
        }
    }
}

/// Data rate enabled
#[derive(Debug, Clone, Copy, PartialEq, Eq)]
pub enum DataRateEnabled {
    Speed4x,
    Speed8x,
    Reserved(u8),
}

impl DataRateEnabled {
    /// The value that `byte` encodes.
    pub open spec fn spec_from(byte: u8) -> Self {
        match byte {
            0b001 => Self::Speed4x,
            0b010 => Self::Speed8x,
            _ => Self::Reserved(byte),
        }
    }
}

impl DataRateEnabled {
    /// The register field that encodes the value.
    pub open spec fn spec_to_bits(self) -> u8 {
        match self {
            DataRateEnabled::Speed4x => 0b001,
            DataRateEnabled::Speed8x => 0b010,
            DataRateEnabled::Reserved(v) => v,
        }
    }
}

impl vstd::std_specs::convert::FromSpecImpl<DataRateEnabled> for u8 {
    open spec fn obeys_from_spec() -> bool {
        true
    }

    open spec fn from_spec(value: DataRateEnabled) -> Self {
        value.spec_to_bits()
    }
}

impl From<DataRateEnabled> for u8 {
    fn from(value: DataRateEnabled) -> (r: Self) {
        match value {
            DataRateEnabled::Speed4x => 0b001,
            DataRateEnabled::Speed8x => 0b010,
            DataRateEnabled::Reserved(v) => v,
        }
    }
}

/// Encoding a decoded DataRateEnabled field gives back the field.
pub proof fn lemma_data_rate_enabled_roundtrip(byte: u8)
    ensures
        DataRateEnabled::spec_from(byte).spec_to_bits() == byte,
{
}

impl vstd::std_specs::convert::FromSpecImpl<u8> for DataRateEnabled {
    open spec fn obeys_from_spec() -> bool {
        true
    }

    open spec fn from_spec(byte: u8) -> Self {
        Self::spec_from(byte)
    }
}

impl From<u8> for DataRateEnabled {
    fn from(byte: u8) -> (r: Self) {
        match byte {
            0b001 => Self::Speed4x,
            0b010 => Self::Speed8x,
            _ => Self::Reserved(byte),
        }
    }
}

/// Isochronous Status register
#[derive(Debug, Clone, PartialEq, Eq)]
pub struct IsochronousStatus {
    pub isoch_error_code: IsochErrorCode,
    pub isoch_l: u8,
    pub isoch_y: IsochY,
    pub isoch_n: u8,
    pub maxbw: u8,
}

impl IsochronousStatus {
    /// The fields of the register value `dword`.
    pub open spec fn spec_from(dword: u32) -> Self {
        IsochronousStatus {
            isoch_error_code: IsochErrorCode(field(dword, 0, 0x3) as u8),
            isoch_l: field(dword, 3, 0x7) as u8,
            isoch_y: IsochY(field(dword, 6, 0x3) as u8),
            isoch_n: field(dword, 8, 0xff) as u8,
            maxbw: field(dword, 16, 0xff) as u8,
        }
    }
}

impl vstd::std_specs::convert::FromSpecImpl<u32> for IsochronousStatus {
    open spec fn obeys_from_spec() -> bool {
        true
    }

    open spec fn from_spec(dword: u32) -> Self {
        Self::spec_from(dword)
    }
}

impl From<u32> for IsochronousStatus {
    fn from(dword: u32) -> (r: Self) {
        IsochronousStatus {
            isoch_error_code: IsochErrorCode(get_u8(dword, 0, 0x3)),
            isoch_l: get_u8(dword, 3, 0x7),
            isoch_y: IsochY(get_u8(dword, 6, 0x3)),
            isoch_n: get_u8(dword, 8, 0xff),
            maxbw: get_u8(dword, 16, 0xff),
        }
    }
}

/// Isochronous payload size
#[derive(Debug, Clone, PartialEq, Eq)]
pub struct IsochY(pub u8);

/// Isochronous error code
#[derive(Debug, Clone, PartialEq, Eq)]
pub struct IsochErrorCode(pub u8);

/// AGP Control register
#[derive(Debug, Clone, PartialEq, Eq)]
pub struct Control {
    pub gtlben: bool,
    pub aperenb: bool,
    pub cal_cycle_dis: bool,
}

impl Control {
    /// The fields of the register value `dword`.
    pub open spec fn spec_from(dword: u32) -> Self {
        Control {
            gtlben: flag(dword, 7),
            aperenb: flag(dword, 8),
            cal_cycle_dis: flag(dword, 9),
        }
    }
}

impl vstd::std_specs::convert::FromSpecImpl<u32> for Control {
    open spec fn obeys_from_spec() -> bool {
        true
    }

    open spec fn from_spec(dword: u32) -> Self {
        Self::spec_from(dword)
    }
}

impl From<u32> for Control {
    fn from(dword: u32) -> (r: Self) {
        Control {
            gtlben: get_flag(dword, 7),
            aperenb: get_flag(dword, 8),
            cal_cycle_dis: get_flag(dword, 9),
        }
    }
}

/// Aperture size
#[derive(Debug, Clone, PartialEq, Eq)]
pub struct ApertureSize(pub u16);

/// Enabled aperture page size
#[derive(Debug, Clone, PartialEq, Eq)]
pub struct EnabledAperturePageSize(pub u16);

/// GART pointer
#[derive(Debug, Clone, PartialEq, Eq)]
pub struct GartPointer {
    pub gartlo: u32,
    pub garthi: u32,
}

/// Isochronous Command register
#[derive(Debug, Clone, PartialEq, Eq)]
pub struct IsochronousCommand {
    pub pisoch_y: u8,
    pub pisoch_n: u8,
}

impl IsochronousCommand {
    /// The fields of the register value `word`.
    pub open spec fn spec_from(word: u16) -> Self {
        IsochronousCommand {
            pisoch_y: field(word as u32, 6, 0x3) as u8,
            pisoch_n: field(word as u32, 8, 0xff) as u8,
        }
    }
}

impl vstd::std_specs::convert::FromSpecImpl<u16> for IsochronousCommand {
    open spec fn obeys_from_spec() -> bool {
        true
    }

    open spec fn from_spec(word: u16) -> Self {
        Self::spec_from(word)
    }
}

impl From<u16> for IsochronousCommand {
    fn from(word: u16) -> (r: Self) {
        let w = word as u32;
        IsochronousCommand {
            pisoch_y: get_u8(w, 6, 0x3),
            pisoch_n: get_u8(w, 8, 0xff),
        }
    }
}

} // verus!
