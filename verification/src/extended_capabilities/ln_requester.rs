//! LN Requester (LNR) extended capability.
//!
//! The capability is read from data that starts with its extended capability header.
use vstd::prelude::*;
use crate::bits::{field, flag, get_flag, get_u8, le_u16, read_u16};
use super::ExtendedCapabilityDataError;

verus! {

broadcast use crate::bits::lemma_field_le_mask;

/// LN Requester capability
#[derive(Debug, Clone, PartialEq, Eq)]
pub struct LnRequester {
    pub lnr_capability: LnrCapability,
    pub lnr_control: LnrControl,
}

impl LnRequester {
    /// Size in bytes, with the extended capability header
    pub const SIZE: usize = 0x8;

    /// The capability that `bytes` (at least 8 bytes from the extended capability header on)
    /// holds.
    pub open spec fn spec_from_bytes(bytes: Seq<u8>) -> Self {
        LnRequester {
            lnr_capability: LnrCapability::spec_from(le_u16(bytes, 4)),
            lnr_control: LnrControl::spec_from(le_u16(bytes, 6)),
        }
    }

    /// The capability that `bytes` (data that starts with the extended capability header) holds.
    pub open spec fn spec_parse(bytes: Seq<u8>) -> Result<Self, ExtendedCapabilityDataError> {
        if bytes.len() < 8 {
            Err(ExtendedCapabilityDataError { name: "LN Requester", size: 8 })
        } else {
            Ok(Self::spec_from_bytes(bytes))
        }
    }

    fn read(s: &[u8]) -> (r: Self)
        requires
            s.len() >= 8,
        ensures
            r == Self::spec_from_bytes(s@),
    {
        LnRequester {
            lnr_capability: LnrCapability::from(read_u16(s, 4)),
            lnr_control: LnrControl::from(read_u16(s, 6)),
        }
    }
}

impl vstd::std_specs::convert::FromSpecImpl<[u8; 8]> for LnRequester {
    open spec fn obeys_from_spec() -> bool {
        true
    }

    open spec fn from_spec(bytes: [u8; 8]) -> Self {
        Self::spec_from_bytes(bytes@)
    }
}

impl From<[u8; 8]> for LnRequester {
    fn from(bytes: [u8; 8]) -> (r: Self) {
        Self::read(bytes.as_slice())
    }
}

impl vstd::std_specs::convert::TryFromSpecImpl<&[u8]> for LnRequester {
    open spec fn obeys_try_from_spec() -> bool {
        true
    }

    open spec fn try_from_spec(slice: &[u8]) -> Result<Self, Self::Error> {
        Self::spec_parse(slice@)
    }
}

impl TryFrom<&[u8]> for LnRequester {
    type Error = ExtendedCapabilityDataError;

    fn try_from(slice: &[u8]) -> (r: Result<Self, Self::Error>) {
        if slice.len() < Self::SIZE {
            return Err(ExtendedCapabilityDataError { name: "LN Requester", size: Self::SIZE });
        }
        Ok(Self::read(slice))
    }
}

/// LNR Capability register
#[derive(Debug, Clone, PartialEq, Eq)]
pub struct LnrCapability {
    /// The Endpoint supports the LN protocol for 64-byte cachelines as a Requester
    pub lnr_64_supported: bool,
    /// The Endpoint supports the LN protocol for 128-byte cachelines as a Requester
    pub lnr_128_supported: bool,
    /// The most cachelines that the Requester can register at once, as a power of 2
    pub lnr_registration_max: u8,
}

impl LnrCapability {
    /// The fields of the register value `word`.
    pub open spec fn spec_from(word: u16) -> Self {
        LnrCapability {
            lnr_64_supported: flag(word as u32, 0),
            lnr_128_supported: flag(word as u32, 1),
            lnr_registration_max: field(word as u32, 8, 0x1f) as u8,
        }
    }
}

impl vstd::std_specs::convert::FromSpecImpl<u16> for LnrCapability {
    open spec fn obeys_from_spec() -> bool {
        true
    }

    open spec fn from_spec(word: u16) -> Self {
        Self::spec_from(word)
    }
}

impl From<u16> for LnrCapability {
    fn from(word: u16) -> (r: Self) {
        let w = word as u32;
        LnrCapability {
            lnr_64_supported: get_flag(w, 0),
            lnr_128_supported: get_flag(w, 1),
            lnr_registration_max: get_u8(w, 8, 0x1f),
        }
    }
}

/// LNR Control register
#[derive(Debug, Clone, PartialEq, Eq)]
pub struct LnrControl {
    /// The Endpoint may operate as an LN Requester
    pub lnr_enable: bool,
    /// The cacheline size of the LN protocol of the Requester
    pub lnr_cls: bool,
    /// The most cachelines that the Requester may register at once, as a power of 2
    pub lnr_registration_limit: u8,
}

impl LnrControl {
    /// The fields of the register value `word`.
    pub open spec fn spec_from(word: u16) -> Self {
        LnrControl {
            lnr_enable: flag(word as u32, 0),
            lnr_cls: flag(word as u32, 1),
            lnr_registration_limit: field(word as u32, 8, 0x1f) as u8,
        }
    }
}

impl vstd::std_specs::convert::FromSpecImpl<u16> for LnrControl {
    open spec fn obeys_from_spec() -> bool {
        true
    }

    open spec fn from_spec(word: u16) -> Self {
        Self::spec_from(word)
    }
}

impl From<u16> for LnrControl {
    fn from(word: u16) -> (r: Self) {
        let w = word as u32;
        LnrControl {
            lnr_enable: get_flag(w, 0),
            lnr_cls: get_flag(w, 1),
            lnr_registration_limit: get_u8(w, 8, 0x1f),
        }
    }
}

} // verus!
