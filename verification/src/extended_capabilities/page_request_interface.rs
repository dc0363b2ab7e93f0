//! Page Request Interface (PRI) extended capability.
use vstd::prelude::*;
use crate::bits::{flag, get_flag, le_u16, le_u32, read_u16, read_u32};
use super::ExtendedCapabilityDataError;

verus! {

/// Page Request Interface capability
#[derive(Debug, Clone, PartialEq, Eq)]
pub struct PageRequestInterface {
    /// Page Request Control
    pub page_request_control: PageRequestControl,
    /// Page Request Status
    pub page_request_status: PageRequestStatus,
    /// Outstanding Page Request Capacity
    pub outstanding_page_request_capacity: u32,
    /// Outstanding Page Request Allocation
    pub outstanding_page_request_allocation: u32,
}

impl PageRequestInterface {
    /// The capability that `bytes` (the data after the extended capability header) holds.
    pub open spec fn spec_parse(bytes: Seq<u8>) -> Result<Self, ExtendedCapabilityDataError> {
        if bytes.len() < 12 {
            Err(ExtendedCapabilityDataError { name: "Page Request Interface", size: 12 })
        } else {
            Ok(PageRequestInterface {
                page_request_control: PageRequestControl::spec_from(le_u16(bytes, 0)),
                page_request_status: PageRequestStatus::spec_from(le_u16(bytes, 2)),
                outstanding_page_request_capacity: le_u32(bytes, 4),
                outstanding_page_request_allocation: le_u32(bytes, 8),
            })
        }
    }
}

impl vstd::std_specs::convert::TryFromSpecImpl<&[u8]> for PageRequestInterface {
    open spec fn obeys_try_from_spec() -> bool {
        true
    }

    open spec fn try_from_spec(slice: &[u8]) -> Result<Self, Self::Error> {
        Self::spec_parse(slice@)
    }
}

impl TryFrom<&[u8]> for PageRequestInterface {
    type Error = ExtendedCapabilityDataError;

    fn try_from(slice: &[u8]) -> (r: Result<Self, Self::Error>) {
        if slice.len() < 12 {
            return Err(ExtendedCapabilityDataError { name: "Page Request Interface", size: 12 });
        }
        Ok(PageRequestInterface {
            page_request_control: PageRequestControl::from(read_u16(slice, 0)),
            page_request_status: PageRequestStatus::from(read_u16(slice, 2)),
            outstanding_page_request_capacity: read_u32(slice, 4),
            outstanding_page_request_allocation: read_u32(slice, 8),
        })
    }
}

/// Page Request Control register
#[derive(Debug, Clone, PartialEq, Eq)]
pub struct PageRequestControl {
    /// Enable (E)
    pub enable: bool,
    /// Reset (R)
    pub reset: bool,
}

impl PageRequestControl {
    /// The fields of the register value `word`.
    pub open spec fn spec_from(word: u16) -> Self {
        PageRequestControl {
            enable: flag(word as u32, 0),
            reset: flag(word as u32, 1),
        }
    }
}

impl vstd::std_specs::convert::FromSpecImpl<u16> for PageRequestControl {
    open spec fn obeys_from_spec() -> bool {
        true
    }

    open spec fn from_spec(word: u16) -> Self {
        Self::spec_from(word)
    }
}

impl From<u16> for PageRequestControl {
    fn from(word: u16) -> (r: Self) {
        let w = word as u32;
        PageRequestControl {
            enable: get_flag(w, 0),
            reset: get_flag(w, 1),
        }
    }
}

/// Page Request Status register
#[derive(Debug, Clone, PartialEq, Eq)]
pub struct PageRequestStatus {
    /// Response Failure (RF)
    pub response_failure: bool,
    /// Unexpected Page Request Group Index (UPRGI)
    pub unexpected_page_request_group_index: bool,
    /// Stopped (S)
    pub stopped: bool,
    /// PRG Response PASID Required
    pub prg_response_pasid_required: bool,
}

impl PageRequestStatus {
    /// The fields of the register value `word`.
    pub open spec fn spec_from(word: u16) -> Self {
        PageRequestStatus {
            response_failure: flag(word as u32, 0),
            unexpected_page_request_group_index: flag(word as u32, 1),
            stopped: flag(word as u32, 8),
            prg_response_pasid_required: flag(word as u32, 15),
        }
    }
}

impl vstd::std_specs::convert::FromSpecImpl<u16> for PageRequestStatus {
    open spec fn obeys_from_spec() -> bool {
        true
    }

    open spec fn from_spec(word: u16) -> Self {
        Self::spec_from(word)
    }
}

impl From<u16> for PageRequestStatus {
    fn from(word: u16) -> (r: Self) {
        let w = word as u32;
        PageRequestStatus {
            response_failure: get_flag(w, 0),
            unexpected_page_request_group_index: get_flag(w, 1),
            stopped: get_flag(w, 8),
            prg_response_pasid_required: get_flag(w, 15),
        }
    }
}

} // verus!
