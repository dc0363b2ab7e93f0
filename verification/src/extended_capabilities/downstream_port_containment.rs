//! Downstream Port Containment (DPC) extended capability.
//!
//! The automatic disabling of the Link below a Downstream Port after an uncorrectable error,
//! which keeps the TLPs after the error from propagating.
use vstd::prelude::*;
use crate::bits::{field, flag, get_flag, get_u8, le_u16, le_u32, le_u32x4, read_u16, read_u32, read_u32x4};
pub use super::advanced_error_reporting::{HeaderLog, TlpPrefixLog};

verus! {

broadcast use crate::bits::lemma_field_le_mask;

/// Downstream Port Containment errors
#[derive(Debug, Clone, PartialEq, Eq)]
pub enum DownstreamPortContainmentError {
    /// The data is shorter than the mandatory registers (8 bytes)
    Mandatory,
    /// The data is shorter than the RP Extensions registers (36 bytes)
    RpExtensions,
    /// The data does not hold the RP PIO ImpSpec Log register (4 bytes)
    RpPioImpspecLog,
    /// The data does not hold the double word `number` of the RP PIO TLP Prefix Log
    RpPioTlpPrefixLog { number: usize },
}

/// Downstream Port Containment capability
#[derive(Debug, Clone, PartialEq, Eq)]
pub struct DownstreamPortContainment {
    /// DPC Capability
    pub dpc_capability: DpcCapability,
    /// DPC Control
    pub dpc_control: DpcControl,
    /// DPC Status
    pub dpc_status: DpcStatus,
    /// DPC Error Source ID
    pub dpc_error_source_id: u16,
    /// The registers of Root Ports, present where the capability sets RP Extensions for DPC
    pub rp_extensions: Option<RpExtensions>,
}

/// Double word `i` of the RP PIO TLP Prefix Log when `n` of them are allocated: read at 48
/// bytes into the data, zero past the allocated ones.
pub open spec fn tlp_prefix_word(bytes: Seq<u8>, n: int, i: int) -> u32 {
    if i < n {
        le_u32(bytes, 48 + 4 * i)
    } else {
        0
    }
}

/// The number of RP PIO TLP Prefix Log double words allocated for an RP PIO Log Size.
pub open spec fn tlp_prefix_words(rp_pio_log_size: u8) -> int {
    if rp_pio_log_size - 5 < 4 {
        rp_pio_log_size - 5
    } else {
        4
    }
}

impl DownstreamPortContainment {
    /// The registers of Root Ports that `bytes` holds after the mandatory ones.
    pub open spec fn spec_rp_extensions(bytes: Seq<u8>, log_size: u8) -> RpExtensions {
        let n = tlp_prefix_words(log_size);
        RpExtensions {
            rp_pio_status: RpPio::spec_from(le_u32(bytes, 8)),
            rp_pio_mask: RpPio::spec_from(le_u32(bytes, 12)),
            rp_pio_severity: RpPio::spec_from(le_u32(bytes, 16)),
            rp_pio_syserr: RpPio::spec_from(le_u32(bytes, 20)),
            rp_pio_exception: RpPio::spec_from(le_u32(bytes, 24)),
            rp_pio_header_log: HeaderLog(le_u32x4(bytes, 28)),
            rp_pio_impspec_log: if log_size >= 5 {
                Some(le_u32(bytes, 44))
            } else {
                None
            },
            rp_pio_tlp_prefix_log: if log_size > 5 {
                Some(
                    TlpPrefixLog(
                        [
                            tlp_prefix_word(bytes, n, 0),
                            tlp_prefix_word(bytes, n, 1),
                            tlp_prefix_word(bytes, n, 2),
                            tlp_prefix_word(bytes, n, 3),
                        ],
                    ),
                )
            } else {
                None
            },
        }
    }

    /// The capability that `bytes` (the data after the extended capability header) holds. The
    /// RP PIO ImpSpec Log is allocated for an RP PIO Log Size of 5 or more, and the RP PIO TLP
    /// Prefix Log has the Log Size minus 5 double words, at most 4.
    pub open spec fn spec_parse(bytes: Seq<u8>) -> Result<Self, DownstreamPortContainmentError> {
        if bytes.len() < 8 {
            Err(DownstreamPortContainmentError::Mandatory)
        } else {
            let cap = DpcCapability::spec_from(le_u16(bytes, 0));
            let log_size = cap.rp_pio_log_size;
            if cap.rp_extensions_for_dpc && bytes.len() < 44 {
                Err(DownstreamPortContainmentError::RpExtensions)
            } else if cap.rp_extensions_for_dpc && log_size >= 5 && bytes.len() < 48 {
                Err(DownstreamPortContainmentError::RpPioImpspecLog)
            } else if cap.rp_extensions_for_dpc && log_size > 5 && bytes.len() < 48 + 4
                * tlp_prefix_words(log_size) {
                Err(
                    DownstreamPortContainmentError::RpPioTlpPrefixLog {
                        number: ((bytes.len() - 48) / 4) as usize,
                    },
                )
            } else {
                Ok(DownstreamPortContainment {
                    dpc_capability: cap,
                    dpc_control: DpcControl::spec_from(le_u16(bytes, 2)),
                    dpc_status: DpcStatus::spec_from(le_u16(bytes, 4)),
                    dpc_error_source_id: le_u16(bytes, 6),
                    rp_extensions: if cap.rp_extensions_for_dpc {
                        Some(Self::spec_rp_extensions(bytes, log_size))
                    } else {
                        None
                    },
                })
            }
        }
    }
}

impl vstd::std_specs::convert::TryFromSpecImpl<&[u8]> for DownstreamPortContainment {
    open spec fn obeys_try_from_spec() -> bool {
        true
    }

    open spec fn try_from_spec(slice: &[u8]) -> Result<Self, Self::Error> {
        Self::spec_parse(slice@)
    }
}

impl TryFrom<&[u8]> for DownstreamPortContainment {
    type Error = DownstreamPortContainmentError;

    fn try_from(slice: &[u8]) -> (r: Result<Self, Self::Error>) {
        if slice.len() < 8 {
            return Err(DownstreamPortContainmentError::Mandatory);
        }
        let dpc_capability = DpcCapability::from(read_u16(slice, 0));
        let log_size = dpc_capability.rp_pio_log_size;
        let rp_extensions = if dpc_capability.rp_extensions_for_dpc {
            if slice.len() < 44 {
                return Err(DownstreamPortContainmentError::RpExtensions);
            }
            let rp_pio_impspec_log = if log_size >= 5 {
                if slice.len() < 48 {
                    return Err(DownstreamPortContainmentError::RpPioImpspecLog);
                }
                Some(read_u32(slice, 44))
            } else {
                None
            };
            let rp_pio_tlp_prefix_log = if log_size > 5 {
                let n: usize = if log_size - 5 < 4 {
                    (log_size - 5) as usize
                } else {
                    4
                };
                if slice.len() < 48 + 4 * n {
                    return Err(
                        DownstreamPortContainmentError::RpPioTlpPrefixLog {
                            number: (slice.len() - 48) / 4,
                        },
                    );
                }
                let w0 = if n > 0 { read_u32(slice, 48) } else { 0 };
                let w1 = if n > 1 { read_u32(slice, 52) } else { 0 };
                let w2 = if n > 2 { read_u32(slice, 56) } else { 0 };
                let w3 = if n > 3 { read_u32(slice, 60) } else { 0 };
                Some(TlpPrefixLog([w0, w1, w2, w3]))
            } else {
                None
            };
            Some(
                RpExtensions {
                    rp_pio_status: RpPio::from(read_u32(slice, 8)),
                    rp_pio_mask: RpPio::from(read_u32(slice, 12)),
                    rp_pio_severity: RpPio::from(read_u32(slice, 16)),
                    rp_pio_syserr: RpPio::from(read_u32(slice, 20)),
                    rp_pio_exception: RpPio::from(read_u32(slice, 24)),
                    rp_pio_header_log: HeaderLog(read_u32x4(slice, 28)),
                    rp_pio_impspec_log,
                    rp_pio_tlp_prefix_log,
                },
            )
        } else {
            None
        };
        Ok(DownstreamPortContainment {
            dpc_capability,
            dpc_control: DpcControl::from(read_u16(slice, 2)),
            dpc_status: DpcStatus::from(read_u16(slice, 4)),
            dpc_error_source_id: read_u16(slice, 6),
            rp_extensions,
        })
    }
}

/// Registers of Root Ports that support RP Extensions for DPC
#[derive(Debug, Clone, PartialEq, Eq)]
pub struct RpExtensions {
    /// RP PIO Status
    pub rp_pio_status: RpPio,
    /// RP PIO Mask
    pub rp_pio_mask: RpPio,
    /// RP PIO Severity
    pub rp_pio_severity: RpPio,
    /// RP PIO SysError
    pub rp_pio_syserr: RpPio,
    /// RP PIO Exception
    pub rp_pio_exception: RpPio,
    /// RP PIO Header Log
    pub rp_pio_header_log: HeaderLog,
    /// RP PIO ImpSpec Log, allocated for an RP PIO Log Size of 5 or more
    pub rp_pio_impspec_log: Option<u32>,
    /// RP PIO TLP Prefix Log: the RP PIO Log Size minus 5 double words, at most 4
    pub rp_pio_tlp_prefix_log: Option<TlpPrefixLog>,
}

/// DPC Capability register
#[derive(Debug, Clone, PartialEq, Eq)]
pub struct DpcCapability {
    /// DPC Interrupt Message Number
    pub dpc_interrupt_message_number: u8,
    /// RP Extensions for DPC
    pub rp_extensions_for_dpc: bool,
    /// Poisoned TLP Egress Blocking Supported
    pub poisoned_tlp_egress_blocking_supported: bool,
    /// DPC Software Triggering Supported
    pub dpc_software_triggering_supported: bool,
    /// RP PIO Log Size
    pub rp_pio_log_size: u8,
    /// DL_Active ERR_COR Signaling Supported
    pub dl_active_err_cor_signaling_supported: bool,
}

impl DpcCapability {
    /// The fields of the register value `word`.
    pub open spec fn spec_from(word: u16) -> Self {
        DpcCapability {
            dpc_interrupt_message_number: field(word as u32, 0, 0x1f) as u8,
            rp_extensions_for_dpc: flag(word as u32, 5),
            poisoned_tlp_egress_blocking_supported: flag(word as u32, 6),
            dpc_software_triggering_supported: flag(word as u32, 7),
            rp_pio_log_size: field(word as u32, 8, 0xf) as u8,
            dl_active_err_cor_signaling_supported: flag(word as u32, 12),
        }
    }
}

impl vstd::std_specs::convert::FromSpecImpl<u16> for DpcCapability {
    open spec fn obeys_from_spec() -> bool {
        true
    }

    open spec fn from_spec(word: u16) -> Self {
        Self::spec_from(word)
    }
}

impl From<u16> for DpcCapability {
    fn from(word: u16) -> (r: Self) {
        let w = word as u32;
        DpcCapability {
            dpc_interrupt_message_number: get_u8(w, 0, 0x1f),
            rp_extensions_for_dpc: get_flag(w, 5),
            poisoned_tlp_egress_blocking_supported: get_flag(w, 6),
            dpc_software_triggering_supported: get_flag(w, 7),
            rp_pio_log_size: get_u8(w, 8, 0xf),
            dl_active_err_cor_signaling_supported: get_flag(w, 12),
        }
    }
}

/// DPC Control register
#[derive(Debug, Clone, PartialEq, Eq)]
pub struct DpcControl {
    /// DPC Trigger Enable
    pub dpc_trigger_enable: DpcTrigger,
    /// DPC Completion Control
    pub dpc_completion_control: bool,
    /// DPC Interrupt Enable
    pub dpc_interrupt_enable: bool,
    /// DPC ERR_COR Enable
    pub dpc_err_cor_enable: bool,
    /// Poisoned TLP Egress Blocking Enable
    pub poisoned_tlp_egress_blocking_enable: bool,
    /// DPC Software Trigger
    pub dpc_software_trigger: bool,
    /// DL_Active ERR_COR Enable
    pub dl_active_err_cor_enable: bool,
}

impl DpcControl {
    /// The fields of the register value `word`.
    pub open spec fn spec_from(word: u16) -> Self {
        DpcControl {
            dpc_trigger_enable: DpcTrigger::spec_from(field(word as u32, 0, 0x3) as u8),
            dpc_completion_control: flag(word as u32, 2),
            dpc_interrupt_enable: flag(word as u32, 3),
            dpc_err_cor_enable: flag(word as u32, 4),
            poisoned_tlp_egress_blocking_enable: flag(word as u32, 5),
            dpc_software_trigger: flag(word as u32, 6),
            dl_active_err_cor_enable: flag(word as u32, 7),
        }
    }
}

impl vstd::std_specs::convert::FromSpecImpl<u16> for DpcControl {
    open spec fn obeys_from_spec() -> bool {
        true
    }

    open spec fn from_spec(word: u16) -> Self {
        Self::spec_from(word)
    }
}

impl From<u16> for DpcControl {
    fn from(word: u16) -> (r: Self) {
        let w = word as u32;
        DpcControl {
            dpc_trigger_enable: DpcTrigger::from(get_u8(w, 0, 0x3)),
            dpc_completion_control: get_flag(w, 2),
            dpc_interrupt_enable: get_flag(w, 3),
            dpc_err_cor_enable: get_flag(w, 4),
            poisoned_tlp_egress_blocking_enable: get_flag(w, 5),
            dpc_software_trigger: get_flag(w, 6),
            dl_active_err_cor_enable: get_flag(w, 7),
        }
    }
}

/// Whether DPC is enabled and which conditions trigger it
#[derive(Debug, Clone, Copy, PartialEq, Eq)]
pub enum DpcTrigger {
    Disabled,
    /// Triggered by an unmasked uncorrectable error or an ERR_FATAL Message
    ErrFatalMessage,
    /// Triggered by an unmasked uncorrectable error or an ERR_NONFATAL or ERR_FATAL Message
    ErrNonFatalMessage,
    Reserved,
}

impl DpcTrigger {
    /// The value that `byte` encodes.
    pub open spec fn spec_from(byte: u8) -> Self {
        match byte {
            0b00 => Self::Disabled,
            0b01 => Self::ErrFatalMessage,
            0b10 => Self::ErrNonFatalMessage,
            _ => Self::Reserved,
        }
    }
}

impl vstd::std_specs::convert::FromSpecImpl<u8> for DpcTrigger {
    open spec fn obeys_from_spec() -> bool {
        true
    }

    open spec fn from_spec(byte: u8) -> Self {
        Self::spec_from(byte)
    }
}

impl From<u8> for DpcTrigger {
    fn from(byte: u8) -> (r: Self) {
        match byte {
            0b00 => Self::Disabled,
            0b01 => Self::ErrFatalMessage,
            0b10 => Self::ErrNonFatalMessage,
            _ => Self::Reserved,
        }
    }
}

/// DPC Status register
#[derive(Debug, Clone, PartialEq, Eq)]
pub struct DpcStatus {
    /// DPC Trigger Status
    pub dpc_trigger_status: bool,
    /// DPC Trigger Reason and its extension
    pub dpc_trigger_reason: DpcTriggerReason,
    /// DPC Interrupt Status
    pub dpc_interrupt_status: bool,
    /// DPC RP Busy
    pub dpc_rp_busy: bool,
    /// RP PIO First Error Pointer
    pub rp_pio_first_error_pointer: u8,
}

impl DpcStatus {
    /// The fields of the register value `word`.
    pub open spec fn spec_from(word: u16) -> Self {
        DpcStatus {
            dpc_trigger_status: flag(word as u32, 0),
            dpc_trigger_reason: DpcTriggerReason::spec_new(field(word as u32, 1, 0x3) as u8, field(word as u32, 5, 0x3) as u8),
            dpc_interrupt_status: flag(word as u32, 3),
            dpc_rp_busy: flag(word as u32, 4),
            rp_pio_first_error_pointer: field(word as u32, 8, 0x1f) as u8,
        }
    }
}

impl vstd::std_specs::convert::FromSpecImpl<u16> for DpcStatus {
    open spec fn obeys_from_spec() -> bool {
        true
    }

    open spec fn from_spec(word: u16) -> Self {
        Self::spec_from(word)
    }
}

impl From<u16> for DpcStatus {
    fn from(word: u16) -> (r: Self) {
        let w = word as u32;
        DpcStatus {
            dpc_trigger_status: get_flag(w, 0),
            dpc_trigger_reason: DpcTriggerReason::new(get_u8(w, 1, 0x3), get_u8(w, 5, 0x3)),
            dpc_interrupt_status: get_flag(w, 3),
            dpc_rp_busy: get_flag(w, 4),
            rp_pio_first_error_pointer: get_u8(w, 8, 0x1f),
        }
    }
}

/// Why DPC was triggered
#[derive(Debug, Clone, PartialEq, Eq)]
pub enum DpcTriggerReason {
    /// An unmasked uncorrectable error
    UnmaskedUncorrectableError,
    /// An ERR_NONFATAL was received
    ReceivingAnErrNonFatal,
    /// An ERR_FATAL was received
    ReceivingAnErrFatal,
    /// An RP PIO error
    RpPioError,
    /// The DPC Software Trigger bit
    DpcSoftwareTriggerBit,
    Reserved(u8),
}

impl DpcTriggerReason {
    /// The reason that the Trigger Reason field `reason` and its extension `reason_extension`
    /// give: the extension counts only where the reason is 3.
    pub open spec fn spec_new(reason: u8, reason_extension: u8) -> Self {
        if reason == 0 {
            Self::UnmaskedUncorrectableError
        } else if reason == 1 {
            Self::ReceivingAnErrNonFatal
        } else if reason == 2 {
            Self::ReceivingAnErrFatal
        } else if reason_extension == 0 {
            Self::RpPioError
        } else if reason_extension == 1 {
            Self::DpcSoftwareTriggerBit
        } else {
            Self::Reserved(reason_extension)
        }
    }

    /// The Trigger Reason field of the reason.
    pub open spec fn spec_value(&self) -> u8 {
        match self {
            Self::UnmaskedUncorrectableError => 0,
            Self::ReceivingAnErrNonFatal => 1,
            Self::ReceivingAnErrFatal => 2,
            _ => 3,
        }
    }

    /// The Trigger Reason Extension field of the reason.
    pub open spec fn spec_extension_value(&self) -> u8 {
        match self {
            Self::Reserved(v) => *v,
            Self::DpcSoftwareTriggerBit => 1,
            _ => 0,
        }
    }

    /// Decodes the Trigger Reason field and its extension.
    pub fn new(reason: u8, reason_extension: u8) -> (r: Self)
        ensures
            r == Self::spec_new(reason, reason_extension),
    {
        if reason == 0 {
            Self::UnmaskedUncorrectableError
        } else if reason == 1 {
            Self::ReceivingAnErrNonFatal
        } else if reason == 2 {
            Self::ReceivingAnErrFatal
        } else if reason_extension == 0 {
            Self::RpPioError
        } else if reason_extension == 1 {
            Self::DpcSoftwareTriggerBit
        } else {
            Self::Reserved(reason_extension)
        }
    }

    /// The Trigger Reason field of the reason.
    pub fn value(&self) -> (r: u8)
        ensures
            r == self.spec_value(),
    {
        match self {
            Self::UnmaskedUncorrectableError => 0,
            Self::ReceivingAnErrNonFatal => 1,
            Self::ReceivingAnErrFatal => 2,
            _ => 3,
        }
    }

    /// The Trigger Reason Extension field of the reason.
    pub fn extension_value(&self) -> (r: u8)
        ensures
            r == self.spec_extension_value(),
    {
        match self {
            Self::Reserved(v) => *v,
            Self::DpcSoftwareTriggerBit => 1,
            _ => 0,
        }
    }
}

/// Decoding the Trigger Reason fields and encoding them again gives back the reason field, and
/// the extension field where the reason is 3 (the one reason that has an extension).
pub proof fn lemma_dpc_trigger_reason_roundtrip(reason: u8, reason_extension: u8)
    requires
        reason < 4,
    ensures
        DpcTriggerReason::spec_new(reason, reason_extension).spec_value() == reason,
        reason == 3 ==> DpcTriggerReason::spec_new(reason, reason_extension).spec_extension_value()
            == reason_extension,
{
}

/// Encoding a trigger reason and decoding the fields again gives back the reason, for every
/// reason but a reserved extension that names a defined one.
pub proof fn lemma_dpc_trigger_reason_encode_roundtrip(r: DpcTriggerReason)
    requires
        !(r matches DpcTriggerReason::Reserved(v) && v < 2),
    ensures
        DpcTriggerReason::spec_new(r.spec_value(), r.spec_extension_value()) == r,
{
}

/// RP PIO Status, Mask, Severity, SysError and Exception registers
#[derive(Debug, Clone, PartialEq, Eq)]
pub struct RpPio {
    /// Configuration Request received UR Completion
    pub cfg_ur_cpl: bool,
    /// Configuration Request received CA Completion
    pub cfg_ca_cpl: bool,
    /// Configuration Request Completion Timeout
    pub cfg_cto: bool,
    /// I/O Request received UR Completion
    pub io_ur_cpl: bool,
    /// I/O Request received CA Completion
    pub io_ca_cpl: bool,
    /// I/O Request Completion Timeout
    pub io_cto: bool,
    /// Memory Request received UR Completion
    pub mem_ur_cpl: bool,
    /// Memory Request received CA Completion
    pub mem_ca_cpl: bool,
    /// Memory Request Completion Timeout
    pub mem_cto: bool,
}

impl RpPio {
    /// The fields of the register value `dword`.
    pub open spec fn spec_from(dword: u32) -> Self {
        RpPio {
            cfg_ur_cpl: flag(dword, 0),
            cfg_ca_cpl: flag(dword, 1),
            cfg_cto: flag(dword, 2),
            io_ur_cpl: flag(dword, 8),
            io_ca_cpl: flag(dword, 9),
            io_cto: flag(dword, 10),
            mem_ur_cpl: flag(dword, 16),
            mem_ca_cpl: flag(dword, 17),
            mem_cto: flag(dword, 18),
        }
    }
}

impl vstd::std_specs::convert::FromSpecImpl<u32> for RpPio {
    open spec fn obeys_from_spec() -> bool {
        true
    }

    open spec fn from_spec(dword: u32) -> Self {
        Self::spec_from(dword)
    }
}

impl From<u32> for RpPio {
    fn from(dword: u32) -> (r: Self) {
        RpPio {
            cfg_ur_cpl: get_flag(dword, 0),
            cfg_ca_cpl: get_flag(dword, 1),
            cfg_cto: get_flag(dword, 2),
            io_ur_cpl: get_flag(dword, 8),
            io_ca_cpl: get_flag(dword, 9),
            io_cto: get_flag(dword, 10),
            mem_ur_cpl: get_flag(dword, 16),
            mem_ca_cpl: get_flag(dword, 17),
            mem_cto: get_flag(dword, 18),
        }
    }
}

} // verus!
