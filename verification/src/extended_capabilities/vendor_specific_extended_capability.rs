//! Vendor-Specific Extended Capability (VSEC).
use vstd::prelude::*;
use crate::bits::{field, get_u16, get_u8, le_u32, read_u32};
use super::ExtendedCapabilityDataError;

verus! {

broadcast use crate::bits::lemma_field_le_mask;

/// Vendor-Specific Extended Capability
#[derive(Debug, Clone, PartialEq, Eq)]
pub struct VendorSpecificExtendedCapability<'a> {
    pub header: VsecHeader,
    pub registers: VsecRegisters<'a>,
}

impl<'a> VendorSpecificExtendedCapability<'a> {
    /// Whether `r` is what reading the capability from `bytes` (the data after the extended
    /// capability header) gives: the vendor-specific registers follow the vendor-specific
    /// header and take the VSEC Length minus 8 bytes.
    pub open spec fn spec_parse(bytes: Seq<u8>, r: Result<Self, ExtendedCapabilityDataError>) -> bool {
        if bytes.len() < 4 {
            r == Err::<Self, ExtendedCapabilityDataError>(
                ExtendedCapabilityDataError { name: "Vendor-Specific Extended Capability", size: 4 },
            )
        } else {
            let h = le_u32(bytes, 0);
            let length = field(h, 20, 0xfff) as u16;
            let tail = bytes.skip(4);
            &&& r is Ok
            &&& r->Ok_0.header == VsecHeader {
                vsec_id: field(h, 0, 0xffff) as u16,
                vsec_rev: field(h, 16, 0xf) as u8,
                vsec_length: length,
            }
            &&& if length < 8 {
                r->Ok_0.registers == VsecRegisters::InvalidLength(length)
            } else if length - 8 <= tail.len() {
                r->Ok_0.registers matches VsecRegisters::Valid(d) && d@ == tail.subrange(0, length - 8)
            } else {
                r->Ok_0.registers matches VsecRegisters::Incomplete(d) && d@ == tail
            }
        }
    }

    /// Reads the capability from `slice`, the data after the extended capability header.
    pub fn parse(slice: &'a [u8]) -> (r: Result<Self, ExtendedCapabilityDataError>)
        ensures
            Self::spec_parse(slice@, r),
    {
        if slice.len() < 4 {
            return Err(
                ExtendedCapabilityDataError { name: "Vendor-Specific Extended Capability", size: 4 },
            );
        }
        let h = read_u32(slice, 0);
        let vsec_length = get_u16(h, 20, 0xfff);
        let header = VsecHeader {
            vsec_id: get_u16(h, 0, 0xffff),
            vsec_rev: get_u8(h, 16, 0xf),
            vsec_length,
        };
        let tail = &slice[4..slice.len()];
        assert(tail@ == slice@.skip(4));
        let registers = if vsec_length >= 8 {
            let len = (vsec_length - 8) as usize;
            if len <= tail.len() {
                VsecRegisters::Valid(&tail[0..len])
            } else {
                VsecRegisters::Incomplete(tail)
            }
        } else {
            VsecRegisters::InvalidLength(vsec_length)
        };
        Ok(VendorSpecificExtendedCapability { header, registers })
    }
}

impl<'a> vstd::std_specs::convert::TryFromSpecImpl<&'a [u8]> for VendorSpecificExtendedCapability<'a> {
    open spec fn obeys_try_from_spec() -> bool {
        false
    }

    open spec fn try_from_spec(slice: &'a [u8]) -> Result<Self, Self::Error> {
        arbitrary()
    }
}

impl<'a> TryFrom<&'a [u8]> for VendorSpecificExtendedCapability<'a> {
    type Error = ExtendedCapabilityDataError;

    fn try_from(slice: &'a [u8]) -> (r: Result<Self, Self::Error>)
        ensures
            Self::spec_parse(slice@, r),
    {
        Self::parse(slice)
    }
}

/// Vendor-Specific Header
#[derive(Debug, Clone, PartialEq, Eq)]
pub struct VsecHeader {
    /// Nature and format of the VSEC structure, defined by the vendor
    pub vsec_id: u16,
    /// Version of the VSEC structure, defined by the vendor
    pub vsec_rev: u8,
    /// Size in bytes of the whole VSEC structure, from the extended capability header on
    pub vsec_length: u16,
}

/// Vendor-Specific Registers
#[derive(Debug, Clone, PartialEq, Eq)]
pub enum VsecRegisters<'a> {
    Valid(&'a [u8]),
    /// The VSEC Length is below 8
    InvalidLength(u16),
    /// The data is shorter than the VSEC Length: all of it
    Incomplete(&'a [u8]),
}

} // verus!
