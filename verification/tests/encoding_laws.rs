use pcics::capabilities::accelerated_graphics_port::{CalCycle, DataRateEnabled, DataRateSupport};
use pcics::capabilities::hypertransport::LinkWidth as HtLinkWidth;
use pcics::capabilities::pci_express::{
    CompletionTimeoutRanges, CompletionTimeoutValue, EmergencyPowerReduction,
    EndEndTlpPrefixBlocking, LinkSpeed, LnSystemCls, MaxEndEndTlpPrefixes, Obff, ObffEnable,
    TphCompleter,
};
use pcics::capabilities::pci_x::SecondaryStatus;
use pcics::extended_capabilities::designated_vendor_specific_extended_capability::compute_express_link::pcie_dvsec_for_cxl_device::CacheSfCoverage;
use pcics::extended_capabilities::downstream_port_containment::DpcTriggerReason;
use pcics::extended_capabilities::l1_pm_substates::L1PmSubstates;
use pcics::extended_capabilities::multifunction_virtual_channel::{
    FunctionArbitrationSelect, VcResourceCapability, VcResourceControl, VcResourceStatus,
};
use pcics::extended_capabilities::protocol_multiplexing::{
    PmuxProtocolArray, PmuxProtocolArrayEntry,
};
use pcics::extended_capabilities::root_complex_link_declaration::ElementType;

const DWORDS: [u32; 6] = [0, 0xffff_ffff, 0x1234_5678, 0xa5a5_a5a5, 0x5a5a_5a5a, 0x8000_0001];

#[test]
fn byte_fields_decode_encode_roundtrip() {
    for byte in 0..=u8::MAX {
        assert_eq!(byte, u8::from(LinkSpeed::from(byte)));
        assert_eq!(byte, u8::from(CompletionTimeoutRanges::from(byte)));
        assert_eq!(byte, u8::from(CompletionTimeoutValue::from(byte)));
        assert_eq!(byte, u8::from(HtLinkWidth::from(byte)));
        assert_eq!(byte, u8::from(CalCycle::from(byte)));
        assert_eq!(byte, u8::from(DataRateSupport::from(byte)));
        assert_eq!(byte, u8::from(DataRateEnabled::from(byte)));
        assert_eq!(byte, u8::from(FunctionArbitrationSelect::from(byte)));
        assert_eq!(byte, u8::from(ElementType::from(byte)));
    }
}

#[test]
fn two_bit_fields_decode_encode_roundtrip() {
    for byte in 0..4u8 {
        assert_eq!(byte, u8::from(TphCompleter::from_bits(byte)));
        assert_eq!(byte, u8::from(LnSystemCls::from_bits(byte)));
        assert_eq!(byte, u8::from(Obff::from_bits(byte)));
        assert_eq!(byte, u8::from(MaxEndEndTlpPrefixes::from_bits(byte)));
        assert_eq!(byte, u8::from(EmergencyPowerReduction::from_bits(byte)));
        assert_eq!(byte, u8::from(ObffEnable::from_bits(byte)));
    }
    for b in [false, true] {
        assert_eq!(b, bool::from(EndEndTlpPrefixBlocking::from(b)));
    }
}

#[test]
fn cache_sf_coverage_roundtrip() {
    assert_eq!(CacheSfCoverage::NoSnoopFilter, CacheSfCoverage::from_bits(0));
    assert_eq!(CacheSfCoverage::SnoopFilter(1 << 16), CacheSfCoverage::from_bits(1));
    assert_eq!(CacheSfCoverage::SnoopFilter(1 << 46), CacheSfCoverage::from_bits(31));
    for byte in 0..32u8 {
        assert_eq!(byte, u8::from(CacheSfCoverage::from_bits(byte)));
    }
}

#[test]
fn secondary_bus_mode_and_frequency_roundtrip() {
    for word in 0..=u16::MAX {
        let status = SecondaryStatus::from(word);
        assert_eq!(((word >> 6) & 0xf) as u8, status.secondary_bus_mode_and_frequency());
    }
}

#[test]
fn dpc_trigger_reason_roundtrip() {
    for reason in 0..4u8 {
        for extension in 0..4u8 {
            let r = DpcTriggerReason::new(reason, extension);
            assert_eq!(reason, r.value());
            if reason == 3 {
                assert_eq!(extension, r.extension_value());
            }
        }
    }
    assert_eq!(
        DpcTriggerReason::UnmaskedUncorrectableError,
        DpcTriggerReason::new(0, 3)
    );
}

#[test]
fn l1_pm_substates_registers_roundtrip() {
    for dword in DWORDS {
        let mut bytes = [0u8; 12];
        for i in 0..3 {
            bytes[4 * i..4 * i + 4].copy_from_slice(&dword.to_le_bytes());
        }
        let l1pm = L1PmSubstates::try_from(bytes.as_slice()).unwrap();
        let caps = l1pm.l1_pm_substates_capabilities;
        let ctl1 = l1pm.l1_pm_substates_control_1;
        let ctl2 = l1pm.l1_pm_substates_control_2;
        let encoded = [
            u32::from(caps.clone()),
            u32::from(ctl1.clone()),
            u32::from(ctl2.clone()),
        ];
        assert_eq!([dword & 0x00fb_ff1f, dword & 0xe3ff_ff0f, dword & 0xfb], encoded);
        let mut again = [0u8; 12];
        for i in 0..3 {
            again[4 * i..4 * i + 4].copy_from_slice(&encoded[i].to_le_bytes());
        }
        let l1pm_again = L1PmSubstates::try_from(again.as_slice()).unwrap();
        assert_eq!(caps, l1pm_again.l1_pm_substates_capabilities);
        assert_eq!(ctl1, l1pm_again.l1_pm_substates_control_1);
        assert_eq!(ctl2, l1pm_again.l1_pm_substates_control_2);
    }
}

#[test]
fn vc_resource_registers_roundtrip() {
    for dword in DWORDS {
        let cap = VcResourceCapability::from(dword);
        assert_eq!(cap, VcResourceCapability::from(u32::from(cap.clone())));
        let ctrl = VcResourceControl::from(dword);
        assert_eq!(ctrl, VcResourceControl::from(u32::from(ctrl.clone())));
        let word = dword as u16;
        let st = VcResourceStatus::from(word);
        assert_eq!(word & 0x3, u16::from(st.clone()));
        assert_eq!(st, VcResourceStatus::from(u16::from(st.clone())));
    }
}

#[test]
fn pmux_entry_bytes_roundtrip() {
    let entry = PmuxProtocolArrayEntry {
        protocol_id: 0xbeef,
        authority_id: 0x1234,
    };
    let bytes: [u8; 4] = entry.clone().into();
    assert_eq!([0xef, 0xbe, 0x34, 0x12], bytes);
    let mut array = PmuxProtocolArray::new(&bytes);
    assert_eq!(Some(entry), array.next());
    assert_eq!(None, array.next());
}
