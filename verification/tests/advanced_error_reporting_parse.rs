use pcics::extended_capabilities::advanced_error_reporting::{AdvancedErrorCapabilitiesAndControl, AdvancedErrorReporting, CorrectableError, ErrorSourceIdentification, HeaderLog, RootErrorCommand, RootErrorStatus, UncorrectableError};

#[test]
fn advanced_error_reporting_parse() {
    let data = [
        0x01, 0x00, 0x01, 0x14, 0x00, 0x00, 0x00, 0x00,
        0x00, 0x00, 0x31, 0x00, 0x11, 0xd0, 0x06, 0x00,
        0x00, 0x00, 0x00, 0x00, 0xc1, 0x31, 0x00, 0x00,
        0x00, 0x00, 0x00, 0x00, 0x00, 0x00, 0x00, 0x00,
        0x00, 0x00, 0x00, 0x00, 0x00, 0x00, 0x00, 0x00,
        0x00, 0x00, 0x00, 0x00, 0x00, 0x00, 0x00, 0x00,
        0x00, 0x00, 0x00, 0x00, 0x00, 0x00, 0x00, 0x00,
        0x00, 0x00, 0x00, 0x00, 0x00, 0x00, 0x00, 0x00,
    ];
    let result: AdvancedErrorReporting = data[4..].try_into().unwrap();
    let sample = AdvancedErrorReporting {
        uncorrectable_error_status: UncorrectableError {
            link_training_error: false,
            data_link_protocol_error_status: false,
            surprise_down_error_status: false,
            poisoned_tlp_received_status: false,
            flow_control_protocol_error_status: false,
            completion_timeout_status: false,
            completer_abort_status: false,
            unexpected_completion_status: false,
            receiver_overflow_status: false,
            malformed_tlp_status: false,
            ecrc_error_status: false,
            unsupported_request_error_status: false,
            acs_violation_status: false,
            uncorrectable_internal_error_status: false,
            mc_blocked_tlp_status: false,
            atomicop_egress_blocked_status: false,
            tlp_prefix_blocked_error_status: false,
            poisoned_tlp_egress_blocked_status: false,
        },
        uncorrectable_error_mask: UncorrectableError {
            link_training_error: false,
            data_link_protocol_error_status: false,
            surprise_down_error_status: false,
            poisoned_tlp_received_status: false,
            flow_control_protocol_error_status: false,
            completion_timeout_status: false,
            completer_abort_status: false,
            unexpected_completion_status: true,
            receiver_overflow_status: false,
            malformed_tlp_status: false,
            ecrc_error_status: false,
            unsupported_request_error_status: true,
            acs_violation_status: true,
            uncorrectable_internal_error_status: false,
            mc_blocked_tlp_status: false,
            atomicop_egress_blocked_status: false,
            tlp_prefix_blocked_error_status: false,
            poisoned_tlp_egress_blocked_status: false,
        },
        uncorrectable_error_severity: UncorrectableError {
            link_training_error: true,
            data_link_protocol_error_status: true,
            surprise_down_error_status: false,
            poisoned_tlp_received_status: true,
            flow_control_protocol_error_status: false,
            completion_timeout_status: true,
            completer_abort_status: true,
            unexpected_completion_status: false,
            receiver_overflow_status: true,
            malformed_tlp_status: true,
            ecrc_error_status: false,
            unsupported_request_error_status: false,
            acs_violation_status: false,
            uncorrectable_internal_error_status: false,
            mc_blocked_tlp_status: false,
            atomicop_egress_blocked_status: false,
            tlp_prefix_blocked_error_status: false,
            poisoned_tlp_egress_blocked_status: false,
        },
        correctable_error_status: CorrectableError {
            receiver_error_status: false,
            bad_tlp_status: false,
            bad_dllp_status: false,
            replay_num_rollover_status: false,
            replay_timer_timeout_status: false,
            advisory_non_fatal_error_status: false,
            corrected_internal_error_status: false,
            header_log_overflow_status: false,
        },
        correctable_error_mask: CorrectableError {
            receiver_error_status: true,
            bad_tlp_status: true,
            bad_dllp_status: true,
            replay_num_rollover_status: true,
            replay_timer_timeout_status: true,
            advisory_non_fatal_error_status: true,
            corrected_internal_error_status: false,
            header_log_overflow_status: false,
        },
        advanced_error_capabilities_and_control: AdvancedErrorCapabilitiesAndControl {
            first_error_pointer: 0x00,
            ecrc_generation_capable: false,
            ecrc_generation_enable: false,
            ecrc_check_capable: false,
            ecrc_check_enable: false,
            multiple_header_recording_capable: false,
            multiple_header_recording_enable: false,
            tlp_prefix_log_present: false,
            completion_timeout_prefix_or_header_log_capable: false,
        },
        header_log: HeaderLog([0x00, 0x00, 0x00, 0x00]),
        root_error_command: Some(RootErrorCommand {
            correctable_error_reporting_enable: false,
            non_fatal_error_reporting_enable: false,
            fatal_error_reporting_enable: false,
        }),
        root_error_status: Some(RootErrorStatus {
            err_cor_received: false,
            multiple_err_cor_received: false,
            err_fatal_or_nonfatal_received: false,
            multiple_err_fatal_or_nonfatal_received: false,
            first_uncorrectable_fatal: false,
            non_fatal_error_messages_received: false,
            fatal_error_messages_received: false,
            advanced_error_interrupt_message_number: 0x00,
        }),
        error_source_identification: Some(ErrorSourceIdentification {
            err_cor_source_identification: 0x00,
            err_fatal_or_nonfatal_source_identification: 0x00,
        }),
        tlp_prefix_log: None,
    };
    assert_eq!(sample, result);
}
