//! Designated Vendor-Specific Extended Capability (DVSEC).
//!
//! The capability is read from data that starts with its extended capability header.
use vstd::prelude::*;
use crate::bits::{field, get_u16, get_u8, le_u16, le_u32, read_u16, read_u32};
pub use self::compute_express_link::ComputeExpressLink;

pub mod compute_express_link;

verus! {

broadcast use crate::bits::lemma_field_le_mask;

/// DVSEC errors
#[derive(Debug, Clone, PartialEq, Eq)]
pub enum DesignatedVendorSpecificExtendedCapabilityError {
    /// The DVSEC headers are not there
    Mandatory,
    /// The vendor-specific registers that the DVSEC Length names are not there
    VendorSpecificRegisters {
        dvsec_vendor_id: u16,
        dvsec_revision: u8,
        dvsec_length: u16,
        dvsec_id: u16,
        real: usize,
    },
    /// Compute Express Link error
    ComputeExpressLink { source: compute_express_link::ComputeExpressLinkError },
}

/// Short name of [`DesignatedVendorSpecificExtendedCapabilityError`]
pub type DvsecError = DesignatedVendorSpecificExtendedCapabilityError;

/// Designated Vendor-Specific Extended Capability
#[derive(Debug, Clone, PartialEq, Eq)]
pub struct DesignatedVendorSpecificExtendedCapability<'a> {
    /// The vendor that defined the contents of the capability
    pub dvsec_vendor_id: u16,
    /// Version of the DVSEC structure, defined by the vendor
    pub dvsec_revision: u8,
    /// Size in bytes of the whole DVSEC structure, from the extended capability header on
    pub dvsec_length: u16,
    /// Nature and format of the DVSEC structure, defined by the vendor
    pub dvsec_id: u16,
    pub dvsec_type: DvsecType<'a>,
}

/// Contents of the capability, by vendor
#[derive(Debug, Clone, PartialEq, Eq)]
pub enum DvsecType<'a> {
    Unspecified(&'a [u8]),
    ComputeExpressLink(ComputeExpressLink),
}

/// Short name of [`DesignatedVendorSpecificExtendedCapability`]
pub type Dvsec<'a> = DesignatedVendorSpecificExtendedCapability<'a>;

impl<'a> DesignatedVendorSpecificExtendedCapability<'a> {
    /// Smallest size in bytes, with the extended capability header
    pub const MIN_SIZE: usize = 0x0a;
    /// Largest size in bytes, with the extended capability header
    pub const MAX_SIZE: usize = 0xfff - 0x100;

    /// Whether `r` is what reading the capability from `bytes` (data that starts with the
    /// extended capability header) gives: the vendor-specific registers run from byte 10 to
    /// the DVSEC Length, and those of vendor 1E98h are a Compute Express Link DVSEC.
    pub open spec fn spec_parse(bytes: Seq<u8>, r: Result<Self, DvsecError>) -> bool {
        if bytes.len() < 10 {
            r == Err::<Self, DvsecError>(DvsecError::Mandatory)
        } else {
            let header = le_u32(bytes, 4);
            let vendor = field(header, 0, 0xffff) as u16;
            let revision = field(header, 16, 0xf) as u8;
            let length = field(header, 20, 0xfff) as u16;
            let id = le_u16(bytes, 8);
            if length < 10 || length > bytes.len() {
                r == Err::<Self, DvsecError>(
                    DvsecError::VendorSpecificRegisters {
                        dvsec_vendor_id: vendor,
                        dvsec_revision: revision,
                        dvsec_length: length,
                        dvsec_id: id,
                        real: bytes.len() as usize,
                    },
                )
            } else {
                let registers = bytes.subrange(10, length as int);
                if vendor == 0x1e98 {
                    match ComputeExpressLink::spec_try_new(registers, id) {
                        Ok(c) => r == Ok::<Self, DvsecError>(
                            Dvsec {
                                dvsec_vendor_id: vendor,
                                dvsec_revision: revision,
                                dvsec_length: length,
                                dvsec_id: id,
                                dvsec_type: DvsecType::ComputeExpressLink(c),
                            },
                        ),
                        Err(e) => r == Err::<Self, DvsecError>(
                            DvsecError::ComputeExpressLink { source: e },
                        ),
                    }
                } else {
                    &&& r is Ok
                    &&& r->Ok_0.dvsec_vendor_id == vendor
                    &&& r->Ok_0.dvsec_revision == revision
                    &&& r->Ok_0.dvsec_length == length
                    &&& r->Ok_0.dvsec_id == id
                    &&& r->Ok_0.dvsec_type matches DvsecType::Unspecified(d) && d@ == registers
                }
            }
        }
    }

    /// Reads the capability from `slice`, data that starts with the extended capability header.
    pub fn parse(slice: &'a [u8]) -> (r: Result<Self, DvsecError>)
        ensures
            Self::spec_parse(slice@, r),
    {
        if slice.len() < Self::MIN_SIZE {
            return Err(DvsecError::Mandatory);
        }
        let header = read_u32(slice, 4);
        let dvsec_vendor_id = get_u16(header, 0, 0xffff);
        let dvsec_revision = get_u8(header, 16, 0xf);
        let dvsec_length = get_u16(header, 20, 0xfff);
        let dvsec_id = read_u16(slice, 8);
        let length = dvsec_length as usize;
        if length < Self::MIN_SIZE || length > slice.len() {
            return Err(
                DvsecError::VendorSpecificRegisters {
                    dvsec_vendor_id,
                    dvsec_revision,
                    dvsec_length,
                    dvsec_id,
                    real: slice.len(),
                },
            );
        }
        let registers = &slice[Self::MIN_SIZE..length];
        let dvsec_type = if dvsec_vendor_id == 0x1e98 {
            match ComputeExpressLink::try_new(registers, dvsec_id) {
                Ok(c) => DvsecType::ComputeExpressLink(c),
                Err(e) => {
                    return Err(DvsecError::ComputeExpressLink { source: e });
                },
            }
        } else {
            DvsecType::Unspecified(registers)
        };
        Ok(Dvsec { dvsec_vendor_id, dvsec_revision, dvsec_length, dvsec_id, dvsec_type })
    }
}

impl<'a> vstd::std_specs::convert::TryFromSpecImpl<&'a [u8]> for DesignatedVendorSpecificExtendedCapability<'a> {
    open spec fn obeys_try_from_spec() -> bool {
        false
    }

    open spec fn try_from_spec(slice: &'a [u8]) -> Result<Self, Self::Error> {
        arbitrary()
    }
}

impl<'a> TryFrom<&'a [u8]> for DesignatedVendorSpecificExtendedCapability<'a> {
    type Error = DvsecError;

    fn try_from(slice: &'a [u8]) -> (r: Result<Self, Self::Error>)
        ensures
            Self::spec_parse(slice@, r),
    {
        Self::parse(slice)
    }
}

} // verus!
