use pcics::extended_capabilities::downstream_port_containment::{DownstreamPortContainment, DpcCapability, DpcControl, DpcStatus, DpcTrigger, DpcTriggerReason, HeaderLog, RpExtensions, RpPio, TlpPrefixLog};

#[test]
fn downstream_port_containment_parse() {
    let data = [
        0x1d, 0x00, 0x01, 0x00, // Header
        0xe0, 0x17, 0x00, 0x00, // DPC Capability & DPC Control
        0x00, 0x1f, 0x00, 0x00, // DPC Status & DPC Error Source ID
        0x01, 0x00, 0x00, 0x00, // RP PIO Status
        0x07, 0x07, 0x07, 0x00, // RP PIO Mask
        0x00, 0x00, 0x00, 0x00, // RP PIO Severity
        0x00, 0x00, 0x00, 0x00, // RP PIO SysError
        0x00, 0x00, 0x00, 0x00, // RP PIO Exception
        // RP PIO Header Log
        0x01, 0x00, 0x00, 0x00, 0x02, 0x00, 0x00, 0x00,
        0x03, 0x00, 0x00, 0x00, 0x04, 0x00, 0x00, 0x00,
        // RP PIO ImpSpec Log
        0x42, 0x00, 0x00, 0x00,
        // RP PIO TLP Prefix Log
        0x11, 0x00, 0x00, 0x00, 0x22, 0x00, 0x00, 0x00,
        0x33, 0x00, 0x00, 0x00,
    ];

    let result: DownstreamPortContainment = data[4..].try_into().unwrap();

    let sample = DownstreamPortContainment {
        dpc_capability: DpcCapability {
            dpc_interrupt_message_number: 0,
            rp_extensions_for_dpc: true,
            poisoned_tlp_egress_blocking_supported: true,
            dpc_software_triggering_supported: true,
            rp_pio_log_size: 7,
            dl_active_err_cor_signaling_supported: true,
        },
        dpc_control: DpcControl {
            dpc_trigger_enable: DpcTrigger::Disabled,
            dpc_completion_control: false,
            dpc_interrupt_enable: false,
            dpc_err_cor_enable: false,
            poisoned_tlp_egress_blocking_enable: false,
            dpc_software_trigger: false,
            dl_active_err_cor_enable: false,
        },
        dpc_status: DpcStatus {
            dpc_trigger_status: false,
            dpc_trigger_reason: DpcTriggerReason::UnmaskedUncorrectableError,
            dpc_interrupt_status: false,
            dpc_rp_busy: false,
            rp_pio_first_error_pointer: 0x1f,
        },
        dpc_error_source_id: 0,
        rp_extensions: Some(RpExtensions {
            rp_pio_status: RpPio {
                cfg_ur_cpl: true,
                cfg_ca_cpl: false,
                cfg_cto: false,
                io_ur_cpl: false,
                io_ca_cpl: false,
                io_cto: false,
                mem_ur_cpl: false,
                mem_ca_cpl: false,
                mem_cto: false,
            },
            rp_pio_mask: RpPio {
                cfg_ur_cpl: true,
                cfg_ca_cpl: true,
                cfg_cto: true,
                io_ur_cpl: true,
                io_ca_cpl: true,
                io_cto: true,
                mem_ur_cpl: true,
                mem_ca_cpl: true,
                mem_cto: true,
            },
            rp_pio_severity: RpPio {
                cfg_ur_cpl: false,
                cfg_ca_cpl: false,
                cfg_cto: false,
                io_ur_cpl: false,
                io_ca_cpl: false,
                io_cto: false,
                mem_ur_cpl: false,
                mem_ca_cpl: false,
                mem_cto: false,
            },
            rp_pio_syserr: RpPio {
                cfg_ur_cpl: false,
                cfg_ca_cpl: false,
                cfg_cto: false,
                io_ur_cpl: false,
                io_ca_cpl: false,
                io_cto: false,
                mem_ur_cpl: false,
                mem_ca_cpl: false,
                mem_cto: false,
            },
            rp_pio_exception: RpPio {
                cfg_ur_cpl: false,
                cfg_ca_cpl: false,
                cfg_cto: false,
                io_ur_cpl: false,
                io_ca_cpl: false,
                io_cto: false,
                mem_ur_cpl: false,
                mem_ca_cpl: false,
                mem_cto: false,
            },
            rp_pio_header_log: HeaderLog([0x01, 0x02, 0x03, 0x04]),
            rp_pio_impspec_log: Some(0x42),
            rp_pio_tlp_prefix_log: Some(TlpPrefixLog([0x11, 0x22, 0x00, 0x00])),
        }),
    };

    assert_eq!(sample, result);
}
