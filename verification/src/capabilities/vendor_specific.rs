//! Vendor Specific capability.
use vstd::prelude::*;
use crate::bits::{le_u32, read_u32};

verus! {

/// Vendor Specific capability errors
#[derive(Debug, Clone, PartialEq, Eq)]
pub enum VendorSpecificError {
    /// Length should be > 0
    Length,
    /// Unable to get `size` bytes of data
    Data { size: usize },
    /// Virtio size should be > 12
    Virtio,
}

/// Vendor Specific capability: the data after its length byte
#[derive(Debug, PartialEq, Eq)]
pub struct VendorSpecific<'a>(pub &'a [u8]);

impl<'a> VendorSpecific<'a> {
    /// Wraps the capability data.
    pub fn new(data: &'a [u8]) -> (r: Self)
        ensures
            r.0@ == data@,
    {
        VendorSpecific(data)
    }

    /// Interprets the data by the vendor and device of the function: Virtio devices have a
    /// structure of their own.
    pub fn vendor_capability(&self, vendor_id: u16, device_id: u16) -> (r: VendorCapabilty<'a>)
        ensures
            match r {
                VendorCapabilty::Virtio(v) => {
                    &&& vendor_id == 0x1af4
                    &&& 0x1000 <= device_id <= 0x107f
                    &&& Virtio::spec_parse(self.0@) == Ok::<Virtio, VendorSpecificError>(v)
                },
                VendorCapabilty::Unspecified(data) => {
                    &&& data@ == self.0@
                    &&& (vendor_id == 0x1af4 && 0x1000 <= device_id <= 0x107f ==> Virtio::spec_parse(
                        self.0@,
                    ) is Err)
                },
            },
    {
        let data = self.0;
        if vendor_id == 0x1af4 && 0x1000 <= device_id && device_id <= 0x107f {
            match Virtio::try_from(data) {
                Ok(v) => VendorCapabilty::Virtio(v),
                Err(_) => VendorCapabilty::Unspecified(data),
            }
        } else {
            VendorCapabilty::Unspecified(data)
        }
    }

    /// Reads the capability: its first byte is the length of the data that follows it.
    pub fn parse(slice: &'a [u8]) -> (r: Result<Self, VendorSpecificError>)
        ensures
            slice@.len() == 0 || slice@[0] == 0 <==> r == Err::<Self, VendorSpecificError>(
                VendorSpecificError::Length,
            ),
            slice@.len() > 0 && slice@[0] > 0 && slice@.len() < slice@[0] + 1 <==> r == Err::<
                Self,
                VendorSpecificError,
            >(VendorSpecificError::Data { size: slice@[0] as usize }),
            r is Ok <==> slice@.len() > 0 && slice@[0] > 0 && slice@.len() >= slice@[0] + 1,
            r matches Ok(v) ==> v.0@ == slice@.subrange(1, slice@[0] + 1),
    {
        if slice.len() == 0 || slice[0] == 0 {
            return Err(VendorSpecificError::Length);
        }
        let size = slice[0] as usize;
        if slice.len() < size + 1 {
            return Err(VendorSpecificError::Data { size });
        }
        Ok(VendorSpecific(&slice[1..size + 1]))
    }
}

impl<'a> vstd::std_specs::convert::TryFromSpecImpl<&'a [u8]> for VendorSpecific<'a> {
    /// The result holds a part of the slice, which no spec function can build: the contract
    /// of `try_from` states it instead.
    open spec fn obeys_try_from_spec() -> bool {
        false
    }

    open spec fn try_from_spec(slice: &'a [u8]) -> Result<Self, Self::Error> {
        Err(VendorSpecificError::Length)
    }
}

impl<'a> TryFrom<&'a [u8]> for VendorSpecific<'a> {
    type Error = VendorSpecificError;

    fn try_from(slice: &'a [u8]) -> (r: Result<Self, Self::Error>)
        ensures
            slice@.len() == 0 || slice@[0] == 0 <==> r == Err::<Self, VendorSpecificError>(
                VendorSpecificError::Length,
            ),
            slice@.len() > 0 && slice@[0] > 0 && slice@.len() < slice@[0] + 1 <==> r == Err::<
                Self,
                VendorSpecificError,
            >(VendorSpecificError::Data { size: slice@[0] as usize }),
            r is Ok <==> slice@.len() > 0 && slice@[0] > 0 && slice@.len() >= slice@[0] + 1,
            r matches Ok(v) ==> v.0@ == slice@.subrange(1, slice@[0] + 1),
    {
        Self::parse(slice)
    }
}

/// Vendor specific structure as far as it is known
#[derive(Debug, PartialEq, Eq)]
pub enum VendorCapabilty<'a> {
    Unspecified(&'a [u8]),
    Virtio(Virtio),
}

/// Virtio PCI capability
#[derive(Debug, PartialEq, Eq)]
pub enum Virtio {
    CommonCfg { bar: u8, offset: u32, size: u32 },
    Notify { bar: u8, offset: u32, size: u32, multiplier: Option<u32> },
    Isr { bar: u8, offset: u32, size: u32 },
    DeviceCfg { bar: u8, offset: u32, size: u32 },
    Unknown { bar: u8, offset: u32, size: u32 },
}

impl Virtio {
    /// Size of the mandatory Virtio structure
    pub const SIZE: usize = 13;

    /// The structure that `bytes` (the data after the length byte) holds.
    pub open spec fn spec_parse(bytes: Seq<u8>) -> Result<Virtio, VendorSpecificError> {
        if bytes.len() < 13 {
            Err(VendorSpecificError::Virtio)
        } else {
            let bar = bytes[1];
            let offset = le_u32(bytes, 5);
            let size = le_u32(bytes, 9);
            Ok(
                if bytes[0] == 1 {
                    Virtio::CommonCfg { bar, offset, size }
                } else if bytes[0] == 2 {
                    Virtio::Notify {
                        bar,
                        offset,
                        size,
                        multiplier: if bytes.len() >= 17 {
                            Some(le_u32(bytes, 13))
                        } else {
                            None
                        },
                    }
                } else if bytes[0] == 3 {
                    Virtio::Isr { bar, offset, size }
                } else if bytes[0] == 4 {
                    Virtio::DeviceCfg { bar, offset, size }
                } else {
                    Virtio::Unknown { bar, offset, size }
                },
            )
        }
    }
}

impl vstd::std_specs::convert::TryFromSpecImpl<&[u8]> for Virtio {
    open spec fn obeys_try_from_spec() -> bool {
        true
    }

    open spec fn try_from_spec(slice: &[u8]) -> Result<Self, Self::Error> {
        Self::spec_parse(slice@)
    }
}

impl TryFrom<&[u8]> for Virtio {
    type Error = VendorSpecificError;

    fn try_from(slice: &[u8]) -> (r: Result<Self, Self::Error>) {
        if slice.len() < 13 {
            return Err(VendorSpecificError::Virtio);
        }
        let bar = slice[1];
        let offset = read_u32(slice, 5);
        let size = read_u32(slice, 9);
        let cfg_type = slice[0];
        Ok(
            if cfg_type == 1 {
                Virtio::CommonCfg { bar, offset, size }
            } else if cfg_type == 2 {
                let multiplier = if slice.len() >= 17 {
                    Some(read_u32(slice, 13))
                } else {
                    None
                };
                Virtio::Notify { bar, offset, size, multiplier }
            } else if cfg_type == 3 {
                Virtio::Isr { bar, offset, size }
            } else if cfg_type == 4 {
                Virtio::DeviceCfg { bar, offset, size }
            } else {
                Virtio::Unknown { bar, offset, size }
            },
        )
    }
}

} // verus!
