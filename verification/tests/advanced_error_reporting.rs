use pcics::extended_capabilities::advanced_error_reporting::{AdvancedErrorCapabilitiesAndControl, CorrectableError, RootErrorCommand, RootErrorStatus, UncorrectableError};

#[test]
fn uncorrectable_error_status() {
    // UESvrt: DLP+ SDES- TLP- FCP- CmpltTO- CmpltAbrt- UnxCmplt- RxOF+ MalfTLP+ ECRC- UnsupReq- ACSViol-
    let data = [0x11, 0x00, 0x06, 0x00];
    let sample = UncorrectableError {
        link_training_error: true,
        data_link_protocol_error_status: true,
        surprise_down_error_status: false,
        poisoned_tlp_received_status: false,
        flow_control_protocol_error_status: false,
        completion_timeout_status: false,
        completer_abort_status: false,
        unexpected_completion_status: false,
        receiver_overflow_status: true,
        malformed_tlp_status: true,
        ecrc_error_status: false,
        unsupported_request_error_status: false,
        acs_violation_status: false,
        uncorrectable_internal_error_status: false,
        mc_blocked_tlp_status: false,
        atomicop_egress_blocked_status: false,
        tlp_prefix_blocked_error_status: false,
        poisoned_tlp_egress_blocked_status: false,
    };
    assert_eq!(sample, u32::from_le_bytes(data).into());
}

#[test]
fn correctable_error_status() {
    // CEMsk:  RxErr- BadTLP- BadDLLP- Rollover- Timeout- AdvNonFatalErr+
    let data = [0x00, 0x20, 0x00, 0x00];
    let sample = CorrectableError {
        receiver_error_status: false,
        bad_tlp_status: false,
        bad_dllp_status: false,
        replay_num_rollover_status: false,
        replay_timer_timeout_status: false,
        advisory_non_fatal_error_status: true,
        corrected_internal_error_status: false,
        header_log_overflow_status: false,
    };
    assert_eq!(sample, u32::from_le_bytes(data).into());
}

#[test]
fn advanced_error_capabilities_and_control() {
    // AERCap: First Error Pointer: 00, ECRCGenCap- ECRCGenEn- ECRCChkCap- ECRCChkEn-
    //         MultHdrRecCap- MultHdrRecEn- TLPPfxPres- HdrLogCap-
    let data = [0x00, 0x00, 0x00, 0x00];
    let sample = AdvancedErrorCapabilitiesAndControl {
        first_error_pointer: 0,
        ecrc_generation_capable: false,
        ecrc_generation_enable: false,
        ecrc_check_capable: false,
        ecrc_check_enable: false,
        multiple_header_recording_capable: false,
        multiple_header_recording_enable: false,
        tlp_prefix_log_present: false,
        completion_timeout_prefix_or_header_log_capable: false,
    };
    assert_eq!(sample, u32::from_le_bytes(data).into());
}

#[test]
fn root_error_command() {
    // RootCmd: CERptEn+ NFERptEn+ FERptEn+
    let data = [0x07, 0x00, 0x00, 0x00];
    let sample = RootErrorCommand {
        correctable_error_reporting_enable: true,
        non_fatal_error_reporting_enable: true,
        fatal_error_reporting_enable: true,
    };
    assert_eq!(sample, u32::from_le_bytes(data).into());
}

#[test]
fn root_error_status() {
    // RootSta: CERcvd- MultCERcvd- UERcvd- MultUERcvd-
    //          FirstFatal- NonFatalMsg- FatalMsg- IntMsg 0
    let data = [0x00, 0x00, 0x00, 0x00];
    let sample = RootErrorStatus {
        err_cor_received: false,
        multiple_err_cor_received: false,
        err_fatal_or_nonfatal_received: false,
        multiple_err_fatal_or_nonfatal_received: false,
        first_uncorrectable_fatal: false,
        non_fatal_error_messages_received: false,
        fatal_error_messages_received: false,
        advanced_error_interrupt_message_number: 0,
    };
    assert_eq!(sample, u32::from_le_bytes(data).into());
}
