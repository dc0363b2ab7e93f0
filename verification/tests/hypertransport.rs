use pcics::capabilities::hypertransport::{ErrorHandling, FeatureCapability, HostOrSecondaryCommand, HostOrSecondaryInterface, LinkConfiguration, LinkControl, LinkError, LinkFrequencyCapability, LinkWidth, MsiMapping, RevisionId, SlaveOrPrimaryCommand, SlaveOrPrimaryInterface};

#[test]
fn slave_or_primary_interface() {
    // Command: BaseUnitID=0 UnitCnt=12 MastHost- DefDir- DUL-
    // Link Control 0: CFlE- CST- CFE- <LkFail- Init+ EOC- TXO- <CRCErr=0 IsocEn- LSEn- ExtCTL- 64b-
    // Link Config 0: MLWI=16bit DwFcIn- MLWO=16bit DwFcOut- LWI=16bit DwFcInEn- LWO=16bit DwFcOutEn-
    // Link Control 1: CFlE- CST- CFE- <LkFail+ Init- EOC+ TXO+ <CRCErr=0 IsocEn- LSEn- ExtCTL- 64b-
    // Link Config 1: MLWI=8bit DwFcIn- MLWO=8bit DwFcOut- LWI=8bit DwFcInEn- LWO=8bit DwFcOutEn-
    // Revision ID: 3.00
    // Link Frequency 0: [c]
    // Link Error 0: <Prot- <Ovfl- <EOC- CTLTm-
    // Link Frequency Capability 0: 200MHz+ 300MHz- 400MHz+ 500MHz- 600MHz+ 800MHz+ 1.0GHz+ 1.2GHz- 1.4GHz- 1.6GHz- Vend-
    // Feature Capability: IsocFC- LDTSTOP+ CRCTM- ECTLT- 64bA- UIDRD-
    // Link Frequency 1: 200MHz
    // Link Error 1: <Prot- <Ovfl- <EOC- CTLTm-
    // Link Frequency Capability 1: 200MHz- 300MHz- 400MHz- 500MHz- 600MHz- 800MHz- 1.0GHz- 1.2GHz- 1.4GHz- 1.6GHz- Vend-
    // Error Handling: PFlE- OFlE- PFE- OFE- EOCFE- RFE- CRCFE- SERRFE- CF- RE- PNFE- ONFE- EOCNFE- RNFE- CRCNFE- SERRNFE-
    // Prefetchable memory behind bridge Upper: 00-00
    // Bus Number: 00
    let data = [
        0x08, 0x54, 0x80, 0x01, // +00h
        0x20, 0x00, 0x11, 0x11, // +04h
        0xd0, 0x00, 0x00, 0x00, // +08h
        0x60, 0x0c, 0x75, 0x1e, // +0Ch
        0x02, 0x00, 0x00, 0x00, // +10h
        0x00, 0x00, 0x00, 0x00, // +14h
        0x00, 0x00, 0x00, 0x00, // +18h
    ];
    let data: [u8; SlaveOrPrimaryInterface::SIZE] = data[2..].try_into().unwrap();
    let result: SlaveOrPrimaryInterface = data.into();
    let sample = SlaveOrPrimaryInterface {
        command: SlaveOrPrimaryCommand {
            base_unitid: 0,
            unit_count: 12,
            master_host: false,
            default_direction: false,
            drop_on_uninitialized_link: false,
        },
        link_control_0: LinkControl {
            source_id_enable: false,
            crc_flood_enable: false,
            crc_start_test: false,
            crc_force_error: false,
            link_failure: false,
            initialization_complete: true,
            end_of_chain: false,
            transmitter_off: false,
            crc_error: 0,
            isochronous_flow_control_enable: false,
            ldtstop_tristate_enable: false,
            extended_ctl_time: false,
            enable_64_bit_addressing: false,
        },
        link_config_0: LinkConfiguration {
            max_link_width_in: LinkWidth::Width16bits,
            doubleword_flow_control_in: false,
            max_link_width_out: LinkWidth::Width16bits,
            doubleword_flow_control_out: false,
            link_width_in: LinkWidth::Width16bits,
            doubleword_flow_control_in_enable: false,
            link_width_out: LinkWidth::Width16bits,
            doubleword_flow_control_out_enable: false,
        },
        link_control_1: LinkControl {
            source_id_enable: false,
            crc_flood_enable: false,
            crc_start_test: false,
            crc_force_error: false,
            link_failure: true,
            initialization_complete: false,
            end_of_chain: true,
            transmitter_off: true,
            crc_error: 0,
            isochronous_flow_control_enable: false,
            ldtstop_tristate_enable: false,
            extended_ctl_time: false,
            enable_64_bit_addressing: false,
        },
        link_config_1: LinkConfiguration {
            max_link_width_in: LinkWidth::Width8bits,
            doubleword_flow_control_in: false,
            max_link_width_out: LinkWidth::Width8bits,
            doubleword_flow_control_out: false,
            link_width_in: LinkWidth::Width8bits,
            doubleword_flow_control_in_enable: false,
            link_width_out: LinkWidth::Width8bits,
            doubleword_flow_control_out_enable: false,
        },
        revision_id: RevisionId { minor: 0, major: 3 },
        link_freq_0: 0b1100,
        link_error_0: LinkError {
            protocol_error: false,
            overflow_error: false,
            end_of_chain_error: false,
            ctl_timeout: false,
        },
        link_freq_cap_0: LinkFrequencyCapability {
            supports_200mhz: true,
            supports_300mhz: false,
            supports_400mhz: true,
            supports_500mhz: false,
            supports_600mhz: true,
            supports_800mhz: true,
            supports_1000mhz: true,
            supports_1200mhz: false,
            supports_1400mhz: false,
            supports_1600mhz: true,
            supports_1800mhz: true,
            supports_2000mhz: true,
            supports_2200mhz: true,
            supports_2400mhz: false,
            supports_2600mhz: false,
            supports_vendor_specific: false,
        },
        feature: FeatureCapability {
            isochronous_flow_control_mode: false,
            ldtstop: true,
            crc_test_mode: false,
            extended_ctl_time_required: false,
            qword_addressing: false,
            unitid_reorder_disable: false,
            source_identification_extension: false,
            extended_register_set: false,
            upstream_configuration_enable: false,
        },
        link_freq_1: 0, // 0 -> 200MHz (default)
        link_error_1: LinkError {
            protocol_error: false,
            overflow_error: false,
            end_of_chain_error: false,
            ctl_timeout: false,
        },
        link_freq_cap_1: LinkFrequencyCapability {
            supports_200mhz: false,
            supports_300mhz: false,
            supports_400mhz: false,
            supports_500mhz: false,
            supports_600mhz: false,
            supports_800mhz: false,
            supports_1000mhz: false,
            supports_1200mhz: false,
            supports_1400mhz: false,
            supports_1600mhz: false,
            supports_1800mhz: false,
            supports_2000mhz: false,
            supports_2200mhz: false,
            supports_2400mhz: false,
            supports_2600mhz: false,
            supports_vendor_specific: false,
        },
        enumeration_scratchpad: 0,
        error_handling: ErrorHandling {
            protocol_error_flood_enable: false,
            overflow_error_flood_enable: false,
            protocol_error_fatal_enable: false,
            overflow_error_fatal_enable: false,
            end_of_chain_error_fatal_enable: false,
            response_error_fatal_enable: false,
            crc_error_fatal_enable: false,
            system_error_fatal_enable: false,
            chain_fail: false,
            response_error: false,
            protocol_error_nonfatal_enable: false,
            overflow_error_nonfatal_enable: false,
            end_of_chain_error_nonfatal_enable: false,
            response_error_nonfatal_enable: false,
            crc_error_nonfatal_enable: false,
            system_error_nonfatal_enable: false,
        },
        mem_base_upper: 0,
        mem_limit_upper: 0,
        bus_number: 0,
    };
    assert_eq!(sample, result);
}

#[test]
fn host_or_secondary_interface() {
    // Command: WarmRst+ DblEnd- DevNum=0 ChainSide- HostHide+ Slave- <EOCErr- DUL-
    // Link Control: CFlE- CST- CFE- <LkFail- Init+ EOC- TXO- <CRCErr=0 IsocEn- LSEn+ ExtCTL- 64b+
    // Link Config: MLWI=16bit DwFcIn- MLWO=16bit DwFcOut- LWI=16bit DwFcInEn- LWO=16bit DwFcOutEn-
    // Revision ID: 3.00
    // Link Frequency: [c]
    // Link Error: <Prot- <Ovfl- <EOC- CTLTm-
    // Link Frequency Capability: 200MHz+ 300MHz- 400MHz+ 500MHz- 600MHz+ 800MHz+ 1.0GHz+ 1.2GHz+ 1.4GHz+ 1.6GHz+ Vend+
    // Feature Capability: IsocFC+ LDTSTOP+ CRCTM- ECTLT- 64bA+ UIDRD- ExtRS- UCnfE-
    let data = [
        0x08, 0x00, 0x01, 0x21, // +00h
        0x20, 0xa0, 0x11, 0x11, // +04h
        0x60, 0x0c, 0xf5, 0xff, // +08h
        0x13, 0x00, 0x00, 0x00, // +0Ch
        0xee, 0x02, 0x84, 0x80, // +10h
        0x00, 0x00, 0x01, 0x00, // +14h
    ];
    let data: [u8; HostOrSecondaryInterface::SIZE] = data[2..].try_into().unwrap();
    let result: HostOrSecondaryInterface = data.into();
    let sample = HostOrSecondaryInterface {
        command: HostOrSecondaryCommand {
            warm_reset: true,
            double_ended: false,
            device_number: 0,
            chain_side: false,
            host_hide: true,
            act_as_slave: false,
            host_inbound_end_of_chain_error: false,
            drop_on_uninitialized_link: false,
        },
        link_control: LinkControl {
            source_id_enable: false,
            crc_flood_enable: false,
            crc_start_test: false,
            crc_force_error: false,
            link_failure: false,
            initialization_complete: true,
            end_of_chain: false,
            transmitter_off: false,
            crc_error: 0,
            isochronous_flow_control_enable: false,
            ldtstop_tristate_enable: true,
            extended_ctl_time: false,
            enable_64_bit_addressing: true,
        },
        link_config: LinkConfiguration {
            max_link_width_in: LinkWidth::Width16bits,
            doubleword_flow_control_in: false,
            max_link_width_out: LinkWidth::Width16bits,
            doubleword_flow_control_out: false,
            link_width_in: LinkWidth::Width16bits,
            doubleword_flow_control_in_enable: false,
            link_width_out: LinkWidth::Width16bits,
            doubleword_flow_control_out_enable: false,
        },
        revision_id: RevisionId { minor: 0, major: 3 },
        link_freq: 0b1100,
        link_error: LinkError {
            protocol_error: false,
            overflow_error: false,
            end_of_chain_error: false,
            ctl_timeout: false,
        },
        // There is an error in lspci.c:
        // lfcap defined as u8 (should be u16)
        // therefore 1400MHz - VendorSpecific always not set
        link_freq_cap: LinkFrequencyCapability {
            supports_200mhz: true,
            supports_300mhz: false,
            supports_400mhz: true,
            supports_500mhz: false,
            supports_600mhz: true,
            supports_800mhz: true,
            supports_1000mhz: true,
            supports_1200mhz: true,
            supports_1400mhz: true,
            supports_1600mhz: true,
            supports_1800mhz: true,
            supports_2000mhz: true,
            supports_2200mhz: true,
            supports_2400mhz: true,
            supports_2600mhz: true,
            supports_vendor_specific: true,
        },
        feature: FeatureCapability {
            isochronous_flow_control_mode: true,
            ldtstop: true,
            crc_test_mode: false,
            extended_ctl_time_required: false,
            qword_addressing: true,
            unitid_reorder_disable: false,
            source_identification_extension: false,
            extended_register_set: false,
            upstream_configuration_enable: false,
        },
        enumeration_scratchpad: 0x02ee,
        error_handling: ErrorHandling {
            protocol_error_flood_enable: false,
            overflow_error_flood_enable: false,
            protocol_error_fatal_enable: true,
            overflow_error_fatal_enable: false,
            end_of_chain_error_fatal_enable: false,
            response_error_fatal_enable: false,
            crc_error_fatal_enable: false,
            system_error_fatal_enable: true,
            chain_fail: false,
            response_error: false,
            protocol_error_nonfatal_enable: false,
            overflow_error_nonfatal_enable: false,
            end_of_chain_error_nonfatal_enable: false,
            response_error_nonfatal_enable: false,
            crc_error_nonfatal_enable: false,
            system_error_nonfatal_enable: true,
        },
        mem_base_upper: 0,
        mem_limit_upper: 0,
    };
    assert_eq!(sample, result);
}

#[test]
fn revision_id() {
    let data: u8 = 0b00100101;
    let result: RevisionId = RevisionId::from(data);
    let sample = RevisionId { major: 1, minor: 5 };
    assert_eq!(sample, result);
}

#[test]
fn msi_mapping() {
    // MSI Mapping Enable+ Fixed+
    let data = [
        0x08, 0x00, 0x03, 0xa8, // +00h
        0x00, 0x00, 0x00, 0x00, // +04h
        0x34, 0x17, 0xda, 0x11, // +08h
    ];
    let data: [u8; MsiMapping::SIZE] = data[2..].try_into().unwrap();
    let result: MsiMapping = data.into();
    let sample = MsiMapping {
        enabled: true,
        fixed: true,
        base_address_lower: 0,
        base_address_upper: 0x11da1734,
    };
    assert_eq!(sample, result);

    assert_eq!(0x11da173400000000, result.base_address());
}
