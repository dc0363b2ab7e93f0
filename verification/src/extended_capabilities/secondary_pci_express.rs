//! Secondary PCI Express extended capability.
use vstd::prelude::*;
use crate::bits::{field, flag, get_flag, get_u8, le_u16, le_u32, read_u16, read_u32};
use crate::capabilities::pci_express::{
    LinkWidth, ReceiverPresetHint, SupportedLinkSpeedsVector, TransmitterPreset,
};
use super::ExtendedCapabilityDataError;

verus! {

broadcast use crate::bits::lemma_field_le_mask;

/// Offset of the Lane Equalization Control registers in the capability
pub const ECL_OFFSET: usize = 0x0C;

/// Secondary PCI Express capability
#[derive(Debug, Clone, PartialEq, Eq)]
pub struct SecondaryPciExpress<'a> {
    ecl_data: &'a [u8],
    pub link_control_3: LinkControl3,
    pub lane_error_status: LaneErrorStatus,
}

impl<'a> SecondaryPciExpress<'a> {
    /// The Lane Equalization Control registers and what follows them.
    pub closed spec fn spec_ecl_data(&self) -> Seq<u8> {
        self.ecl_data@
    }

    /// The Link Control 3 register.
    pub closed spec fn spec_link_control_3(&self) -> LinkControl3 {
        self.link_control_3
    }

    /// The Lane Error Status register.
    pub closed spec fn spec_lane_error_status(&self) -> LaneErrorStatus {
        self.lane_error_status
    }

    /// Whether `r` is what reading the capability from `bytes` (the data after the extended
    /// capability header) gives.
    pub open spec fn spec_parse(bytes: Seq<u8>, r: Result<Self, ExtendedCapabilityDataError>) -> bool {
        if bytes.len() < 8 {
            r == Err::<Self, ExtendedCapabilityDataError>(
                ExtendedCapabilityDataError { name: "Secondary PCI Express", size: 8 },
            )
        } else {
            &&& r is Ok
            &&& r->Ok_0.spec_link_control_3() == LinkControl3::spec_from(le_u32(bytes, 0))
            &&& r->Ok_0.spec_lane_error_status() == LaneErrorStatus(le_u32(bytes, 4))
            &&& r->Ok_0.spec_ecl_data() == bytes.skip(8)
        }
    }

    /// Reads the capability from `slice`, the data after the extended capability header.
    pub fn parse(slice: &'a [u8]) -> (r: Result<Self, ExtendedCapabilityDataError>)
        ensures
            Self::spec_parse(slice@, r),
    {
        if slice.len() < 8 {
            return Err(ExtendedCapabilityDataError { name: "Secondary PCI Express", size: 8 });
        }
        let ecl_data = &slice[8..slice.len()];
        assert(ecl_data@ == slice@.skip(8));
        Ok(SecondaryPciExpress {
            ecl_data,
            link_control_3: LinkControl3::from(read_u32(slice, 0)),
            lane_error_status: LaneErrorStatus(read_u32(slice, 4)),
        })
    }

    /// The Lane Equalization Control registers of the lanes of a Link of width `link_width`:
    /// two bytes for each lane.
    pub fn equalization_control_lanes(&self, link_width: LinkWidth) -> (r: EqualizationControlLanes<'a>)
        requires
            link_width.spec_value() * 2 <= self.spec_ecl_data().len(),
        ensures
            r.spec_data() == self.spec_ecl_data().subrange(0, link_width.spec_value() * 2),
    {
        let end = link_width.value() * 2;
        EqualizationControlLanes::new(&self.ecl_data[0..end])
    }
}

impl<'a> vstd::std_specs::convert::TryFromSpecImpl<&'a [u8]> for SecondaryPciExpress<'a> {
    open spec fn obeys_try_from_spec() -> bool {
        false
    }

    open spec fn try_from_spec(slice: &'a [u8]) -> Result<Self, Self::Error> {
        arbitrary()
    }
}

impl<'a> TryFrom<&'a [u8]> for SecondaryPciExpress<'a> {
    type Error = ExtendedCapabilityDataError;

    fn try_from(slice: &'a [u8]) -> (r: Result<Self, Self::Error>)
        ensures
            Self::spec_parse(slice@, r),
    {
        Self::parse(slice)
    }
}

/// Link Control 3 register
#[derive(Debug, Clone, PartialEq, Eq)]
pub struct LinkControl3 {
    /// Perform Equalization
    pub perform_equalization: bool,
    /// Link Equalization Request Interrupt Enable
    pub link_equalization_request_interrupt_enable: bool,
    /// Lower SKP OS Generation Vector: the Link speeds at which SKP Ordered Sets are scheduled at the rate of SRNS
    pub lower_skp_os_generation_vector: SupportedLinkSpeedsVector,
}

impl LinkControl3 {
    /// The fields of the register value `dword`.
    pub open spec fn spec_from(dword: u32) -> Self {
        LinkControl3 {
            perform_equalization: flag(dword, 0),
            link_equalization_request_interrupt_enable: flag(dword, 1),
            lower_skp_os_generation_vector: SupportedLinkSpeedsVector::spec_from(field(dword, 9, 0x7f) as u8),
        }
    }
}

impl vstd::std_specs::convert::FromSpecImpl<u32> for LinkControl3 {
    open spec fn obeys_from_spec() -> bool {
        true
    }

    open spec fn from_spec(dword: u32) -> Self {
        Self::spec_from(dword)
    }
}

impl From<u32> for LinkControl3 {
    fn from(dword: u32) -> (r: Self) {
        LinkControl3 {
            perform_equalization: get_flag(dword, 0),
            link_equalization_request_interrupt_enable: get_flag(dword, 1),
            lower_skp_os_generation_vector: SupportedLinkSpeedsVector::from(get_u8(dword, 9, 0x7f)),
        }
    }
}

/// Lane Error Status register: one bit per lane, set where the lane detected an error
#[derive(Debug, Clone, PartialEq, Eq)]
pub struct LaneErrorStatus(pub u32);

/// The Lane Equalization Control registers, read one after another
#[derive(Debug, Clone, PartialEq, Eq)]
pub struct EqualizationControlLanes<'a> {
    data: &'a [u8],
}

impl<'a> EqualizationControlLanes<'a> {
    /// The bytes of the registers that are not read yet.
    pub closed spec fn spec_data(&self) -> Seq<u8> {
        self.data@
    }

    /// The registers in `bytes`, two bytes each.
    pub fn new(bytes: &'a [u8]) -> (r: Self)
        ensures
            r.spec_data() == bytes@,
    {
        EqualizationControlLanes { data: bytes }
    }

    /// Reads the next register: the next two bytes, or none where fewer are left (they are
    /// dropped).
    pub fn next(&mut self) -> (r: Option<LaneEqualizationControl>)
        ensures
            old(self).spec_data().len() >= 2 ==> r == Some(
                LaneEqualizationControl::spec_from(le_u16(old(self).spec_data(), 0)),
            ) && final(self).spec_data() == old(self).spec_data().skip(2),
            old(self).spec_data().len() < 2 ==> r is None && final(self).spec_data().len() == 0,
    {
        if self.data.len() < 2 {
            self.data = &self.data[0..0];
            return None;
        }
        let data = self.data;
        self.data = &data[2..data.len()];
        assert(self.data@ == data@.skip(2));
        Some(LaneEqualizationControl::from(read_u16(data, 0)))
    }

    /// Reads all the registers.
    pub fn entries(&mut self) -> (r: Vec<LaneEqualizationControl>)
        ensures
            r.len() == old(self).spec_data().len() / 2,
            forall|i: int|
                0 <= i < r.len() ==> #[trigger] r[i] == LaneEqualizationControl::spec_from(
                    le_u16(old(self).spec_data(), 2 * i),
                ),
    {
        let ghost d = self.spec_data();
        let mut r: Vec<LaneEqualizationControl> = Vec::new();
        loop
            invariant
                self.spec_data() == d.skip(2 * r.len()),
                2 * r.len() <= d.len(),
                d == old(self).spec_data(),
                forall|i: int|
                    0 <= i < r.len() ==> #[trigger] r[i] == LaneEqualizationControl::spec_from(
                        le_u16(d, 2 * i),
                    ),
            decreases self.spec_data().len(),
        {
            let ghost before = self.spec_data();
            match self.next() {
                Some(e) => {
                    assert(le_u16(before, 0) == le_u16(d, 2 * r.len()));
                    r.push(e);
                    assert(self.spec_data() =~= d.skip(2 * r.len()));
                },
                None => {
                    return r;
                },
            }
        }
    }
}

/// Lane Equalization Control register: the 8.0 GT/s equalization controls of a lane
#[derive(Debug, Clone, PartialEq, Eq)]
pub struct LaneEqualizationControl {
    /// Downstream Port 8.0 GT/s Transmitter Preset
    pub downstream_port_transmitter_preset: TransmitterPreset,
    /// Downstream Port 8.0 GT/s Receiver Preset Hint
    pub downstream_port_receiver_preset_hint: ReceiverPresetHint,
    /// Upstream Port 8.0 GT/s Transmitter Preset
    pub upstream_port_transmitter_preset: TransmitterPreset,
    /// Upstream Port 8.0 GT/s Receiver Preset Hint
    pub upstream_port_receiver_preset_hint: ReceiverPresetHint,
}

impl LaneEqualizationControl {
    /// The fields of the register value `word`.
    pub open spec fn spec_from(word: u16) -> Self {
        LaneEqualizationControl {
            downstream_port_transmitter_preset: TransmitterPreset::spec_from(field(word as u32, 0, 0xf) as u8),
            downstream_port_receiver_preset_hint: ReceiverPresetHint::spec_from(field(word as u32, 4, 0x7) as u8),
            upstream_port_transmitter_preset: TransmitterPreset::spec_from(field(word as u32, 8, 0xf) as u8),
            upstream_port_receiver_preset_hint: ReceiverPresetHint::spec_from(field(word as u32, 12, 0x7) as u8),
        }
    }
}

impl vstd::std_specs::convert::FromSpecImpl<u16> for LaneEqualizationControl {
    open spec fn obeys_from_spec() -> bool {
        true
    }

    open spec fn from_spec(word: u16) -> Self {
        Self::spec_from(word)
    }
}

impl From<u16> for LaneEqualizationControl {
    fn from(word: u16) -> (r: Self) {
        let w = word as u32;
        LaneEqualizationControl {
            downstream_port_transmitter_preset: TransmitterPreset::from(get_u8(w, 0, 0xf)),
            downstream_port_receiver_preset_hint: ReceiverPresetHint::from(get_u8(w, 4, 0x7)),
            upstream_port_transmitter_preset: TransmitterPreset::from(get_u8(w, 8, 0xf)),
            upstream_port_receiver_preset_hint: ReceiverPresetHint::from(get_u8(w, 12, 0x7)),
        }
    }
}

} // verus!
