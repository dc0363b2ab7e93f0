//! Advanced Error Reporting (AER) extended capability.
//!
//! The registers that every Function has come first; those of Root Ports and Root Complex
//! Event Collectors follow where the data holds them, and the TLP Prefix Log follows where the
//! capability says it is present.
use vstd::prelude::*;
use crate::bits::{field, flag, get_flag, get_u8, le_u16, le_u32, le_u32x4, read_u16, read_u32, read_u32x4};

verus! {

broadcast use crate::bits::lemma_field_le_mask;

/// Advanced Error Reporting errors
#[derive(Debug, Clone, PartialEq, Eq)]
pub enum AdvancedErrorReportingError {
    /// The data is shorter than the registers that every Function has
    Common,
    /// The TLP Prefix Log is present but the data does not hold it
    TlpPrefixLog,
}

/// Advanced Error Reporting capability
#[derive(Debug, Clone, PartialEq, Eq)]
pub struct AdvancedErrorReporting {
    /// Error detection status of individual errors
    pub uncorrectable_error_status: UncorrectableError,
    /// Which errors are reported to the Root Complex
    pub uncorrectable_error_mask: UncorrectableError,
    /// Which errors are reported as Fatal rather than Nonfatal
    pub uncorrectable_error_severity: UncorrectableError,
    /// Status of individual correctable error sources
    pub correctable_error_status: CorrectableError,
    /// Which correctable errors are reported to the Root Complex
    pub correctable_error_mask: CorrectableError,
    pub advanced_error_capabilities_and_control: AdvancedErrorCapabilitiesAndControl,
    pub header_log: HeaderLog,
    pub root_error_command: Option<RootErrorCommand>,
    pub root_error_status: Option<RootErrorStatus>,
    pub error_source_identification: Option<ErrorSourceIdentification>,
    pub tlp_prefix_log: Option<TlpPrefixLog>,
}

impl AdvancedErrorReporting {
    /// Size of the registers that every Function has
    pub const COMMON_SIZE: usize = 0x2c - 0x04;
    /// Size of the registers of Root Ports and Root Complex Event Collectors
    pub const RP_AND_RCEC_SIZE: usize = 0x38 - 0x04;
    /// Size with the TLP Prefix Log register
    pub const FULL_SIZE: usize = 0x48 - 0x04;
    /// Size of the Header Log register (four double words)
    pub const HEADER_LOG_SIZE: usize = 4 * 4;
    /// Size of the TLP Prefix Log register (four double words)
    pub const TLP_PREFIX_LOG_SIZE: usize = 4 * 4;

    /// The capability that `bytes` (the data after the extended capability header) holds. The
    /// Root Port registers are read where at least 12 bytes follow the common registers; the
    /// TLP Prefix Log, where the capability has it, follows them and ends the capability.
    pub open spec fn spec_parse(bytes: Seq<u8>) -> Result<Self, AdvancedErrorReportingError> {
        if bytes.len() < 40 {
            Err(AdvancedErrorReportingError::Common)
        } else {
            let aecc = AdvancedErrorCapabilitiesAndControl::spec_from(le_u32(bytes, 20));
            if aecc.tlp_prefix_log_present && bytes.len() < 0x44 {
                Err(AdvancedErrorReportingError::TlpPrefixLog)
            } else {
                let root = bytes.len() >= 52;
                Ok(AdvancedErrorReporting {
                    uncorrectable_error_status: UncorrectableError::spec_from(le_u32(bytes, 0)),
                    uncorrectable_error_mask: UncorrectableError::spec_from(le_u32(bytes, 4)),
                    uncorrectable_error_severity: UncorrectableError::spec_from(le_u32(bytes, 8)),
                    correctable_error_status: CorrectableError::spec_from(le_u32(bytes, 12)),
                    correctable_error_mask: CorrectableError::spec_from(le_u32(bytes, 16)),
                    advanced_error_capabilities_and_control: aecc,
                    header_log: HeaderLog(le_u32x4(bytes, 24)),
                    root_error_command: if root {
                        Some(RootErrorCommand::spec_from(le_u32(bytes, 40)))
                    } else {
                        None
                    },
                    root_error_status: if root {
                        Some(RootErrorStatus::spec_from(le_u32(bytes, 44)))
                    } else {
                        None
                    },
                    error_source_identification: if root {
                        Some(
                            ErrorSourceIdentification {
                                err_cor_source_identification: le_u16(bytes, 48),
                                err_fatal_or_nonfatal_source_identification: le_u16(bytes, 50),
                            },
                        )
                    } else {
                        None
                    },
                    tlp_prefix_log: if aecc.tlp_prefix_log_present {
                        Some(TlpPrefixLog(le_u32x4(bytes, 0x34)))
                    } else {
                        None
                    },
                })
            }
        }
    }
}

impl vstd::std_specs::convert::TryFromSpecImpl<&[u8]> for AdvancedErrorReporting {
    open spec fn obeys_try_from_spec() -> bool {
        true
    }

    open spec fn try_from_spec(slice: &[u8]) -> Result<Self, Self::Error> {
        Self::spec_parse(slice@)
    }
}

impl TryFrom<&[u8]> for AdvancedErrorReporting {
    type Error = AdvancedErrorReportingError;

    fn try_from(slice: &[u8]) -> (r: Result<Self, Self::Error>) {
        if slice.len() < Self::COMMON_SIZE {
            return Err(AdvancedErrorReportingError::Common);
        }
        let aecc = AdvancedErrorCapabilitiesAndControl::from(read_u32(slice, 20));
        let tlp_prefix_log = if aecc.tlp_prefix_log_present {
            if slice.len() < Self::FULL_SIZE {
                return Err(AdvancedErrorReportingError::TlpPrefixLog);
            }
            Some(TlpPrefixLog(read_u32x4(slice, Self::RP_AND_RCEC_SIZE)))
        } else {
            None
        };
        let (root_error_command, root_error_status, error_source_identification) = if slice.len()
            >= Self::COMMON_SIZE + 12 {
            (
                Some(RootErrorCommand::from(read_u32(slice, 40))),
                Some(RootErrorStatus::from(read_u32(slice, 44))),
                Some(
                    ErrorSourceIdentification {
                        err_cor_source_identification: read_u16(slice, 48),
                        err_fatal_or_nonfatal_source_identification: read_u16(slice, 50),
                    },
                ),
            )
        } else {
            (None, None, None)
        };
        Ok(AdvancedErrorReporting {
            uncorrectable_error_status: UncorrectableError::from(read_u32(slice, 0)),
            uncorrectable_error_mask: UncorrectableError::from(read_u32(slice, 4)),
            uncorrectable_error_severity: UncorrectableError::from(read_u32(slice, 8)),
            correctable_error_status: CorrectableError::from(read_u32(slice, 12)),
            correctable_error_mask: CorrectableError::from(read_u32(slice, 16)),
            advanced_error_capabilities_and_control: aecc,
            header_log: HeaderLog(read_u32x4(slice, 24)),
            root_error_command,
            root_error_status,
            error_source_identification,
            tlp_prefix_log,
        })
    }
}

/// Uncorrectable Error Status, Mask and Severity registers: one bit per error
#[derive(Debug, Clone, PartialEq, Eq)]
pub struct UncorrectableError {
    /// Link Training Error (legacy)
    pub link_training_error: bool,
    /// Data Link Protocol Error
    pub data_link_protocol_error_status: bool,
    /// Surprise Down Error
    pub surprise_down_error_status: bool,
    /// Poisoned TLP Received
    pub poisoned_tlp_received_status: bool,
    /// Flow Control Protocol Error
    pub flow_control_protocol_error_status: bool,
    /// Completion Timeout
    pub completion_timeout_status: bool,
    /// Completer Abort
    pub completer_abort_status: bool,
    /// Unexpected Completion
    pub unexpected_completion_status: bool,
    /// Receiver Overflow
    pub receiver_overflow_status: bool,
    /// Malformed TLP
    pub malformed_tlp_status: bool,
    /// ECRC Error
    pub ecrc_error_status: bool,
    /// Unsupported Request Error
    pub unsupported_request_error_status: bool,
    /// ACS Violation
    pub acs_violation_status: bool,
    /// Uncorrectable Internal Error
    pub uncorrectable_internal_error_status: bool,
    /// MC Blocked TLP
    pub mc_blocked_tlp_status: bool,
    /// AtomicOp Egress Blocked
    pub atomicop_egress_blocked_status: bool,
    /// TLP Prefix Blocked Error
    pub tlp_prefix_blocked_error_status: bool,
    /// Poisoned TLP Egress Blocked
    pub poisoned_tlp_egress_blocked_status: bool,
}

impl UncorrectableError {
    /// The fields of the register value `dword`.
    pub open spec fn spec_from(dword: u32) -> Self {
        UncorrectableError {
            link_training_error: flag(dword, 0),
            data_link_protocol_error_status: flag(dword, 4),
            surprise_down_error_status: flag(dword, 5),
            poisoned_tlp_received_status: flag(dword, 12),
            flow_control_protocol_error_status: flag(dword, 13),
            completion_timeout_status: flag(dword, 14),
            completer_abort_status: flag(dword, 15),
            unexpected_completion_status: flag(dword, 16),
            receiver_overflow_status: flag(dword, 17),
            malformed_tlp_status: flag(dword, 18),
            ecrc_error_status: flag(dword, 19),
            unsupported_request_error_status: flag(dword, 20),
            acs_violation_status: flag(dword, 21),
            uncorrectable_internal_error_status: flag(dword, 22),
            mc_blocked_tlp_status: flag(dword, 23),
            atomicop_egress_blocked_status: flag(dword, 24),
            tlp_prefix_blocked_error_status: flag(dword, 25),
            poisoned_tlp_egress_blocked_status: flag(dword, 26),
        }
    }
}

impl vstd::std_specs::convert::FromSpecImpl<u32> for UncorrectableError {
    open spec fn obeys_from_spec() -> bool {
        true
    }

    open spec fn from_spec(dword: u32) -> Self {
        Self::spec_from(dword)
    }
}

impl From<u32> for UncorrectableError {
    fn from(dword: u32) -> (r: Self) {
        UncorrectableError {
            link_training_error: get_flag(dword, 0),
            data_link_protocol_error_status: get_flag(dword, 4),
            surprise_down_error_status: get_flag(dword, 5),
            poisoned_tlp_received_status: get_flag(dword, 12),
            flow_control_protocol_error_status: get_flag(dword, 13),
            completion_timeout_status: get_flag(dword, 14),
            completer_abort_status: get_flag(dword, 15),
            unexpected_completion_status: get_flag(dword, 16),
            receiver_overflow_status: get_flag(dword, 17),
            malformed_tlp_status: get_flag(dword, 18),
            ecrc_error_status: get_flag(dword, 19),
            unsupported_request_error_status: get_flag(dword, 20),
            acs_violation_status: get_flag(dword, 21),
            uncorrectable_internal_error_status: get_flag(dword, 22),
            mc_blocked_tlp_status: get_flag(dword, 23),
            atomicop_egress_blocked_status: get_flag(dword, 24),
            tlp_prefix_blocked_error_status: get_flag(dword, 25),
            poisoned_tlp_egress_blocked_status: get_flag(dword, 26),
        }
    }
}

/// Correctable Error Status and Mask registers: one bit per error
#[derive(Debug, Clone, PartialEq, Eq)]
pub struct CorrectableError {
    /// Receiver Error
    pub receiver_error_status: bool,
    /// Bad TLP
    pub bad_tlp_status: bool,
    /// Bad DLLP
    pub bad_dllp_status: bool,
    /// REPLAY_NUM Rollover
    pub replay_num_rollover_status: bool,
    /// Replay Timer Timeout
    pub replay_timer_timeout_status: bool,
    /// Advisory Non-Fatal Error
    pub advisory_non_fatal_error_status: bool,
    /// Corrected Internal Error
    pub corrected_internal_error_status: bool,
    /// Header Log Overflow
    pub header_log_overflow_status: bool,
}

impl CorrectableError {
    /// The fields of the register value `dword`.
    pub open spec fn spec_from(dword: u32) -> Self {
        CorrectableError {
            receiver_error_status: flag(dword, 0),
            bad_tlp_status: flag(dword, 6),
            bad_dllp_status: flag(dword, 7),
            replay_num_rollover_status: flag(dword, 8),
            replay_timer_timeout_status: flag(dword, 12),
            advisory_non_fatal_error_status: flag(dword, 13),
            corrected_internal_error_status: flag(dword, 14),
            header_log_overflow_status: flag(dword, 15),
        }
    }
}

impl vstd::std_specs::convert::FromSpecImpl<u32> for CorrectableError {
    open spec fn obeys_from_spec() -> bool {
        true
    }

    open spec fn from_spec(dword: u32) -> Self {
        Self::spec_from(dword)
    }
}

impl From<u32> for CorrectableError {
    fn from(dword: u32) -> (r: Self) {
        CorrectableError {
            receiver_error_status: get_flag(dword, 0),
            bad_tlp_status: get_flag(dword, 6),
            bad_dllp_status: get_flag(dword, 7),
            replay_num_rollover_status: get_flag(dword, 8),
            replay_timer_timeout_status: get_flag(dword, 12),
            advisory_non_fatal_error_status: get_flag(dword, 13),
            corrected_internal_error_status: get_flag(dword, 14),
            header_log_overflow_status: get_flag(dword, 15),
        }
    }
}

/// Advanced Error Capabilities and Control register
#[derive(Debug, Clone, PartialEq, Eq)]
pub struct AdvancedErrorCapabilitiesAndControl {
    /// First Error Pointer
    pub first_error_pointer: u8,
    /// ECRC Generation Capable
    pub ecrc_generation_capable: bool,
    /// ECRC Generation Enable
    pub ecrc_generation_enable: bool,
    /// ECRC Check Capable
    pub ecrc_check_capable: bool,
    /// ECRC Check Enable
    pub ecrc_check_enable: bool,
    /// Multiple Header Recording Capable
    pub multiple_header_recording_capable: bool,
    /// Multiple Header Recording Enable
    pub multiple_header_recording_enable: bool,
    /// TLP Prefix Log Present
    pub tlp_prefix_log_present: bool,
    /// Completion Timeout Prefix/Header Log Capable
    pub completion_timeout_prefix_or_header_log_capable: bool,
}

impl AdvancedErrorCapabilitiesAndControl {
    /// The fields of the register value `dword`.
    pub open spec fn spec_from(dword: u32) -> Self {
        AdvancedErrorCapabilitiesAndControl {
            first_error_pointer: field(dword, 0, 0x1f) as u8,
            ecrc_generation_capable: flag(dword, 5),
            ecrc_generation_enable: flag(dword, 6),
            ecrc_check_capable: flag(dword, 7),
            ecrc_check_enable: flag(dword, 8),
            multiple_header_recording_capable: flag(dword, 9),
            multiple_header_recording_enable: flag(dword, 10),
            tlp_prefix_log_present: flag(dword, 11),
            completion_timeout_prefix_or_header_log_capable: flag(dword, 12),
        }
    }
}

impl vstd::std_specs::convert::FromSpecImpl<u32> for AdvancedErrorCapabilitiesAndControl {
    open spec fn obeys_from_spec() -> bool {
        true
    }

    open spec fn from_spec(dword: u32) -> Self {
        Self::spec_from(dword)
    }
}

impl From<u32> for AdvancedErrorCapabilitiesAndControl {
    fn from(dword: u32) -> (r: Self) {
        AdvancedErrorCapabilitiesAndControl {
            first_error_pointer: get_u8(dword, 0, 0x1f),
            ecrc_generation_capable: get_flag(dword, 5),
            ecrc_generation_enable: get_flag(dword, 6),
            ecrc_check_capable: get_flag(dword, 7),
            ecrc_check_enable: get_flag(dword, 8),
            multiple_header_recording_capable: get_flag(dword, 9),
            multiple_header_recording_enable: get_flag(dword, 10),
            tlp_prefix_log_present: get_flag(dword, 11),
            completion_timeout_prefix_or_header_log_capable: get_flag(dword, 12),
        }
    }
}

/// The header of the TLP that a detected error corresponds to
#[derive(Debug, Clone, PartialEq, Eq)]
pub struct HeaderLog(pub [u32; 4]);

/// Root Error Command register
#[derive(Debug, Clone, PartialEq, Eq)]
pub struct RootErrorCommand {
    /// Correctable Error Reporting Enable
    pub correctable_error_reporting_enable: bool,
    /// Non-Fatal Error Reporting Enable
    pub non_fatal_error_reporting_enable: bool,
    /// Fatal Error Reporting Enable
    pub fatal_error_reporting_enable: bool,
}

impl RootErrorCommand {
    /// The fields of the register value `dword`.
    pub open spec fn spec_from(dword: u32) -> Self {
        RootErrorCommand {
            correctable_error_reporting_enable: flag(dword, 0),
            non_fatal_error_reporting_enable: flag(dword, 1),
            fatal_error_reporting_enable: flag(dword, 2),
        }
    }
}

impl vstd::std_specs::convert::FromSpecImpl<u32> for RootErrorCommand {
    open spec fn obeys_from_spec() -> bool {
        true
    }

    open spec fn from_spec(dword: u32) -> Self {
        Self::spec_from(dword)
    }
}

impl From<u32> for RootErrorCommand {
    fn from(dword: u32) -> (r: Self) {
        RootErrorCommand {
            correctable_error_reporting_enable: get_flag(dword, 0),
            non_fatal_error_reporting_enable: get_flag(dword, 1),
            fatal_error_reporting_enable: get_flag(dword, 2),
        }
    }
}

/// Root Error Status register
#[derive(Debug, Clone, PartialEq, Eq)]
pub struct RootErrorStatus {
    /// ERR_COR Received
    pub err_cor_received: bool,
    /// Multiple ERR_COR Received
    pub multiple_err_cor_received: bool,
    /// ERR_FATAL/NONFATAL Received
    pub err_fatal_or_nonfatal_received: bool,
    /// Multiple ERR_FATAL/NONFATAL Received
    pub multiple_err_fatal_or_nonfatal_received: bool,
    /// First Uncorrectable Fatal
    pub first_uncorrectable_fatal: bool,
    /// Non-Fatal Error Messages Received
    pub non_fatal_error_messages_received: bool,
    /// Fatal Error Messages Received
    pub fatal_error_messages_received: bool,
    /// Advanced Error Interrupt Message Number
    pub advanced_error_interrupt_message_number: u8,
}

impl RootErrorStatus {
    /// The fields of the register value `dword`.
    pub open spec fn spec_from(dword: u32) -> Self {
        RootErrorStatus {
            err_cor_received: flag(dword, 0),
            multiple_err_cor_received: flag(dword, 1),
            err_fatal_or_nonfatal_received: flag(dword, 2),
            multiple_err_fatal_or_nonfatal_received: flag(dword, 3),
            first_uncorrectable_fatal: flag(dword, 4),
            non_fatal_error_messages_received: flag(dword, 5),
            fatal_error_messages_received: flag(dword, 6),
            advanced_error_interrupt_message_number: field(dword, 27, 0x1f) as u8,
        }
    }
}

impl vstd::std_specs::convert::FromSpecImpl<u32> for RootErrorStatus {
    open spec fn obeys_from_spec() -> bool {
        true
    }

    open spec fn from_spec(dword: u32) -> Self {
        Self::spec_from(dword)
    }
}

impl From<u32> for RootErrorStatus {
    fn from(dword: u32) -> (r: Self) {
        RootErrorStatus {
            err_cor_received: get_flag(dword, 0),
            multiple_err_cor_received: get_flag(dword, 1),
            err_fatal_or_nonfatal_received: get_flag(dword, 2),
            multiple_err_fatal_or_nonfatal_received: get_flag(dword, 3),
            first_uncorrectable_fatal: get_flag(dword, 4),
            non_fatal_error_messages_received: get_flag(dword, 5),
            fatal_error_messages_received: get_flag(dword, 6),
            advanced_error_interrupt_message_number: get_u8(dword, 27, 0x1f),
        }
    }
}

/// Error Source Identification register: the Requester IDs of the first reported errors
#[derive(Debug, Clone, PartialEq, Eq)]
pub struct ErrorSourceIdentification {
    /// ERR_COR Source Identification
    pub err_cor_source_identification: u16,
    /// ERR_FATAL/NONFATAL Source Identification
    pub err_fatal_or_nonfatal_source_identification: u16,
}

/// The End-End TLP Prefixes of the TLP that a detected error corresponds to
#[derive(Debug, Clone, PartialEq, Eq)]
pub struct TlpPrefixLog(pub [u32; 4]);

} // verus!
