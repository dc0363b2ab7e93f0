use pcics::capabilities::pci_express::{ActiveStatePowerManagement, CompletionTimeoutRanges, CompletionTimeoutValue, CompliancePresetOrDeEmphasis, CrosslinkResolution, DeEmphasis, Device, Device2, DeviceCapabilities, DeviceCapabilities2, DeviceControl, DeviceControl2, DeviceStatus, DeviceStatus2, DeviceType, DownstreamComponentPresence, EmergencyPowerReduction, EndEndTlpPrefixBlocking, EndpointL0sAcceptableLatency, EndpointL1AcceptableLatency, ExtendedTagFieldSupported, L0sExitLatency, L1ExitLatency, Link, Link2, LinkCapabilities, LinkCapabilities2, LinkControl, LinkControl2, LinkSpeed, LinkStatus, LinkStatus2, LinkWidth, LnSystemCls, MaxEndEndTlpPrefixes, MaxSize, Obff, ObffEnable, PciExpress, PhantomFunctionsSupported, ReadCompletionBoundary, SlotPowerLimit, SlotPowerLimitScale, SupportedLinkSpeedsVector, TphCompleter, TransmitMargin};

#[test]
fn endpoint() {
    // Capabilities: [a0] Express (v2) Endpoint, MSI 00
    //         DevCap: MaxPayload 512 bytes, PhantFunc 0, Latency L0s <512ns, L1 <64us
    //                 ExtTag- AttnBtn- AttnInd- PwrInd- RBE+ FLReset+ SlotPowerLimit 0.000W
    //         DevCtl: CorrErr- NonFatalErr+ FatalErr+ UnsupReq+
    //                 RlxdOrd+ ExtTag- PhantFunc- AuxPwr- NoSnoop- FLReset-
    //                 MaxPayload 256 bytes, MaxReadReq 512 bytes
    //         DevSta: CorrErr+ NonFatalErr- FatalErr- UnsupReq+ AuxPwr- TransPend-
    //         LnkCap: Port #0, Speed 8GT/s, Width x4, ASPM L0s L1, Exit Latency L0s <2us, L1 <16us
    //                 ClockPM- Surprise- LLActRep- BwNot- ASPMOptComp+
    //         LnkCtl: ASPM Disabled; RCB 64 bytes Disabled- CommClk+
    //                 ExtSynch- ClockPM- AutWidDis- BWInt- AutBWInt-
    //         LnkSta: Speed 8GT/s (ok), Width x4 (ok)
    //                 TrErr- Train- SlotClk+ DLActive- BWMgmt- ABWMgmt-
    //         DevCap2: Completion Timeout: Range ABCD, TimeoutDis+, NROPrPrP-, LTR+
    //                  10BitTagComp-, 10BitTagReq-, OBFF Not Supported, ExtFmt-, EETLPPrefix-
    //                  EmergencyPowerReduction Not Supported, EmergencyPowerReductionInit-
    //                  FRS-, TPHComp-, ExtTPHComp-
    //                  AtomicOpsCap: 32bit- 64bit- 128bitCAS-
    //         DevCtl2: Completion Timeout: 65ms to 210ms, TimeoutDis-, LTR-, OBFF Disabled
    //                  AtomicOpsCtl: ReqEn-
    //         LnkCtl2: Target Link Speed: 2.5GT/s, EnterCompliance- SpeedDis-
    //                  Transmit Margin: Normal Operating Range, EnterModifiedCompliance- ComplianceSOS-
    //                  Compliance De-emphasis: -6dB
    //         LnkSta2: Current De-emphasis Level: -3.5dB, EqualizationComplete+, EqualizationPhase1+
    //                  EqualizationPhase2+, EqualizationPhase3+, LinkEqualizationRequest-
    let data = [
        0x10, 0xe0, 0x02, 0x00, 0xc2, 0x8c, 0x00, 0x10, 0x3e, 0x20, 0x09, 0x00, 0x43, 0x5c, 0x42, 0x00,
        0x40, 0x00, 0x43, 0x10, 0x00, 0x00, 0x00, 0x00, 0x00, 0x00, 0x00, 0x00, 0x00, 0x00, 0x00, 0x00,
        0x00, 0x00, 0x00, 0x00, 0x1f, 0x08, 0x00, 0x00, 0x06, 0x00, 0x00, 0x00, 0x0e, 0x00, 0x00, 0x00,
        0x01, 0x00, 0x1f, 0x00, 0x00, 0x00, 0x00, 0x00, 0x00, 0x00, 0x00, 0x00,
    ];
    let result: PciExpress = data[2..].try_into().unwrap();

    let sample = PciExpress {
        version: 2,
        device_type: DeviceType::Endpoint {
            link: Link {
                capabilities: LinkCapabilities {
                    max_link_speed: LinkSpeed::Rate8GTps,
                    maximum_link_width: LinkWidth::X4,
                    active_state_power_management_support: ActiveStatePowerManagement::L0sAndL1,
                    l0s_exit_latency: L0sExitLatency::Ge1usAndLt2us,
                    l1_exit_latency: L1ExitLatency::Ge8usAndLt16us,
                    clock_power_management: false,
                    surprise_down_error_reporting_capable: false,
                    data_link_layer_link_active_reporting_capable: false,
                    link_bandwidth_notification_capability: false,
                    aspm_optionality_compliance: true,
                    port_number: 0,
                },
                control: LinkControl {
                    active_state_power_management_control: ActiveStatePowerManagement::NoAspm,
                    read_completion_boundary: ReadCompletionBoundary::B64,
                    link_disable: false,
                    retrain_link: false,
                    common_clock_configuration: true,
                    extended_synch: false,
                    enable_clock_power_management: false,
                    hardware_autonomous_width_disable: false,
                    link_bandwidth_management_interrupt_enable: false,
                    link_autonomous_bandwidth_interrupt_enable: false,
                },
                status: LinkStatus {
                    current_link_speed: LinkSpeed::Rate8GTps,
                    negotiated_link_width: LinkWidth::X4,
                    link_training_error: false,
                    link_training: false,
                    slot_clock_configuration: true,
                    data_link_layer_link_active: false,
                    link_bandwidth_management_status: false,
                    link_autonomous_bandwidth_status: false,
                },
            },
            link_2: Some(Link2 {
                capabilities: LinkCapabilities2 {
                    lower_skp_os_generation_supported_speeds_vector: SupportedLinkSpeedsVector {
                        speed_2_5_gtps: false,
                        speed_5_0_gtps: false,
                        speed_8_0_gtps: false,
                        speed_16_0_gtps: false,
                        speed_32_0_gtps: false,
                        speed_64_0_gtps: false,
                        reserved: false,
                    },
                    lower_skp_os_reception_supported_speeds_vector: SupportedLinkSpeedsVector {
                        speed_2_5_gtps: false,
                        speed_5_0_gtps: false,
                        speed_8_0_gtps: false,
                        speed_16_0_gtps: false,
                        speed_32_0_gtps: false,
                        speed_64_0_gtps: false,
                        reserved: false,
                    },
                    retimer_presence_detect_supported: false,
                    two_retimers_presence_detect_supported: false,
                    drs_supported: false,
                    supported_link_speeds_vector: SupportedLinkSpeedsVector {
                        speed_2_5_gtps: true,
                        speed_5_0_gtps: true,
                        speed_8_0_gtps: true,
                        speed_16_0_gtps: false,
                        speed_32_0_gtps: false,
                        speed_64_0_gtps: false,
                        reserved: false,
                    },
                    crosslink_supported: false,
                },
                control: LinkControl2 {
                    target_link_speed: LinkSpeed::Rate2GTps,
                    enter_compliance: false,
                    hardware_autonomous_speed_disable: false,
                    selectable_de_emphasis: DeEmphasis::Minus6dB,
                    transmit_margin: TransmitMargin(0),
                    enter_modified_compliance: false,
                    compliance_sos: false,
                    compliance_preset_or_de_emphasis: CompliancePresetOrDeEmphasis(0),
                },
                status: LinkStatus2 {
                    current_de_emphasis_level: DeEmphasis::Minus3_5dB,
                    equalization_complete: true,
                    equalization_phase_1_successful: true,
                    equalization_phase_2_successful: true,
                    equalization_phase_3_successful: true,
                    link_equalization_request: false,
                    retimer_presence_detected: false,
                    two_retimers_presence_detected: false,
                    crosslink_resolution: CrosslinkResolution::NotSupported,
                    downstream_component_presence: DownstreamComponentPresence::DownNotDetermined,
                    drs_message_received: false,
                },
            }),
        },
        slot_implemented: false,
        interrupt_message_number: 0,
        tcs_routing_support: false,
        device: Device {
            capabilities: DeviceCapabilities {
                max_payload_size_supported: MaxSize::B512,
                phantom_functions_supported: PhantomFunctionsSupported::NoBits,
                extended_tag_field_supported: ExtendedTagFieldSupported::Five,
                endpoint_l0s_acceptable_latency: EndpointL0sAcceptableLatency::Max512ns,
                endpoint_l1_acceptable_latency: EndpointL1AcceptableLatency::Max64us,
                attention_button_present: false,
                attention_indicator_present: false,
                power_indicator_present: false,
                role_based_error_reporting: true,
                captured_slot_power_limit: SlotPowerLimit { value: 0, scale: SlotPowerLimitScale::One },
                function_level_reset_capability: true,
            },
            control: DeviceControl {
                correctable_error_reporting_enable: false,
                non_fatal_error_reporting_enable: true,
                fatal_error_reporting_enable: true,
                unsupported_request_reporting_enable: true,
                enable_relaxed_ordering: true,
                max_payload_size: MaxSize::B256,
                extended_tag_field_enable: false,
                phantom_functions_enable: false,
                aux_power_pm_enable: false,
                enable_no_snoop: false,
                max_read_request_size: MaxSize::B512,
                bcre_or_flreset: false,
            },
            status: DeviceStatus {
                correctable_error_detected: true,
                non_fatal_error_detected: false,
                fatal_error_detected: false,
                unsupported_request_detected: true,
                aux_power_detected: false,
                transactions_pending: false,
            },
        },
        device_2: Some(Device2 {
            capabilities: DeviceCapabilities2 {
                ln_system_cls: LnSystemCls::NotSupported,
                support_10bit_tag_completer: false,
                support_10bit_tag_requester: false,
                obff_supported: Obff::NotSupported,
                emergency_power_reduction_supported: EmergencyPowerReduction::NotSupported,
                emergency_power_reduction_initialization_required: false,
                frs_supported: false,
                completion_timeout_ranges_supported: CompletionTimeoutRanges::RangesABCD,
                completion_timeout_disable_supported: true,
                ari_forwarding_supported: false,
                atomic_op_routing_supported: false,
                u32_atomicop_completer_supported: false,
                u64_atomicop_completer_supported: false,
                u128_cas_completer_supported: false,
                no_ro_enabled_pr_pr_passing: false,
                ltr_mechanism_supported: true,
                tph_completer_supported: TphCompleter::NotSupported,
                extended_fmt_field_supported: false,
                end_end_tlp_prefix_supported: false,
                max_end_end_tlp_prefixes: MaxEndEndTlpPrefixes::Max4,
            },
            control: DeviceControl2 {
                emergency_power_reduction_request: false,
                enable_10bit_tag_requester: false,
                completion_timeout_value: CompletionTimeoutValue::RangeB65msTo210ms,
                completion_timeout_disable: false,
                ari_forwarding_enable: false,
                atomic_op_requester_enable: false,
                atomic_op_egress_blocking: false,
                ido_request_enable: false,
                ido_completion_enable: false,
                ltr_mechanism_enable: false,
                obff_enable: ObffEnable::Disabled,
                end_end_tlp_prefix_blocking: EndEndTlpPrefixBlocking::ForwardingEnabled,
            },
            status: DeviceStatus2 {},
        }),
    };
    assert_eq!(sample, result);
}
