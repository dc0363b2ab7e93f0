//! Access Control Services (ACS) extended capability.
use vstd::prelude::*;
use crate::bits::{field, flag, get_flag, get_u8, le_u16, le_u32, read_u16};
use super::ExtendedCapabilityDataError;

verus! {

broadcast use crate::bits::lemma_field_le_mask;

/// Size of an Egress Control Vector register in bytes
pub const ECV_BYTES: usize = 4;

/// Access Control Services capability
#[derive(Debug, Clone, PartialEq, Eq)]
pub struct AccessControlServices<'a> {
    data: &'a [u8],
    /// ACS Capability
    pub acs_capability: AcsCapability,
    /// ACS Control
    pub acs_control: AcsControl,
}

impl<'a> AccessControlServices<'a> {
    /// The data after the ACS Capability and Control registers: the Egress Control Vector.
    pub closed spec fn spec_data(&self) -> Seq<u8> {
        self.data@
    }

    /// The ACS Capability register.
    pub closed spec fn spec_acs_capability(&self) -> AcsCapability {
        self.acs_capability
    }

    /// The ACS Control register.
    pub closed spec fn spec_acs_control(&self) -> AcsControl {
        self.acs_control
    }

    /// Whether `r` is what reading the capability from `bytes` (the data after the extended
    /// capability header) gives.
    pub open spec fn spec_parse(bytes: Seq<u8>, r: Result<Self, ExtendedCapabilityDataError>) -> bool {
        if bytes.len() < 4 {
            r == Err::<Self, ExtendedCapabilityDataError>(
                ExtendedCapabilityDataError { name: "Access Control Services", size: 4 },
            )
        } else {
            &&& r is Ok
            &&& r->Ok_0.spec_acs_capability() == AcsCapability::spec_from(le_u16(bytes, 0))
            &&& r->Ok_0.spec_acs_control() == AcsControl::spec_from(le_u16(bytes, 2))
            &&& r->Ok_0.spec_data() == bytes.skip(4)
        }
    }

    /// Reads the capability from `slice`, the data after the extended capability header.
    pub fn parse(slice: &'a [u8]) -> (r: Result<Self, ExtendedCapabilityDataError>)
        ensures
            Self::spec_parse(slice@, r),
    {
        if slice.len() < 4 {
            return Err(ExtendedCapabilityDataError { name: "Access Control Services", size: 4 });
        }
        let data = &slice[4..slice.len()];
        assert(data@ == slice@.skip(4));
        Ok(AccessControlServices {
            data,
            acs_capability: AcsCapability::from(read_u16(slice, 0)),
            acs_control: AcsControl::from(read_u16(slice, 2)),
        })
    }

    /// The bits of the Egress Control Vector, as many as its size says, read from the double
    /// words that hold that many bits (the data after the registers, or none where it is
    /// shorter).
    pub fn egress_control_vectors(&self) -> (r: EgressControlVectors<'a>)
        ensures
            ({
                let size = self.spec_acs_capability().egress_control_vector_size as usize;
                let end = (size + 31) / 32 * 4;
                &&& r.spec_data() == if end <= self.spec_data().len() {
                    self.spec_data().subrange(0, end as int)
                } else {
                    Seq::empty()
                }
                &&& r.spec_size() == size
                &&& r.spec_dword() == 0
                &&& r.spec_mask() == 1
            }),
    {
        let size = self.acs_capability.egress_control_vector_size as usize;
        let end = (size + 31) / (u32::BITS as usize) * ECV_BYTES;
        let data = if end <= self.data.len() {
            &self.data[0..end]
        } else {
            &self.data[0..0]
        };
        EgressControlVectors::new(data, size)
    }
}

impl<'a> vstd::std_specs::convert::TryFromSpecImpl<&'a [u8]> for AccessControlServices<'a> {
    open spec fn obeys_try_from_spec() -> bool {
        false
    }

    open spec fn try_from_spec(slice: &'a [u8]) -> Result<Self, Self::Error> {
        arbitrary()
    }
}

impl<'a> TryFrom<&'a [u8]> for AccessControlServices<'a> {
    type Error = ExtendedCapabilityDataError;

    fn try_from(slice: &'a [u8]) -> (r: Result<Self, Self::Error>)
        ensures
            Self::spec_parse(slice@, r),
    {
        Self::parse(slice)
    }
}

/// ACS Capability register
#[derive(Debug, Clone, PartialEq, Eq)]
pub struct AcsCapability {
    /// ACS Source Validation (V)
    pub acs_source_validation: bool,
    /// ACS Translation Blocking (B)
    pub acs_translation_blocking: bool,
    /// ACS P2P Request Redirect (R)
    pub acs_p2p_request_redirect: bool,
    /// ACS P2P Completion Redirect (C)
    pub acs_p2p_completion_redirect: bool,
    /// ACS Upstream Forwarding (U)
    pub acs_upstream_forwarding: bool,
    /// ACS P2P Egress Control (E)
    pub acs_p2p_egress_control: bool,
    /// ACS Direct Translated P2P (T)
    pub acs_direct_translated_p2p: bool,
    /// Egress Control Vector Size
    pub egress_control_vector_size: u8,
}

impl AcsCapability {
    /// The fields of the register value `word`.
    pub open spec fn spec_from(word: u16) -> Self {
        AcsCapability {
            acs_source_validation: flag(word as u32, 0),
            acs_translation_blocking: flag(word as u32, 1),
            acs_p2p_request_redirect: flag(word as u32, 2),
            acs_p2p_completion_redirect: flag(word as u32, 3),
            acs_upstream_forwarding: flag(word as u32, 4),
            acs_p2p_egress_control: flag(word as u32, 5),
            acs_direct_translated_p2p: flag(word as u32, 6),
            egress_control_vector_size: field(word as u32, 8, 0x7f) as u8,
        }
    }
}

impl vstd::std_specs::convert::FromSpecImpl<u16> for AcsCapability {
    open spec fn obeys_from_spec() -> bool {
        true
    }

    open spec fn from_spec(word: u16) -> Self {
        Self::spec_from(word)
    }
}

impl From<u16> for AcsCapability {
    fn from(word: u16) -> (r: Self) {
        let w = word as u32;
        AcsCapability {
            acs_source_validation: get_flag(w, 0),
            acs_translation_blocking: get_flag(w, 1),
            acs_p2p_request_redirect: get_flag(w, 2),
            acs_p2p_completion_redirect: get_flag(w, 3),
            acs_upstream_forwarding: get_flag(w, 4),
            acs_p2p_egress_control: get_flag(w, 5),
            acs_direct_translated_p2p: get_flag(w, 6),
            egress_control_vector_size: get_u8(w, 8, 0x7f),
        }
    }
}

/// ACS Control register
#[derive(Debug, Clone, PartialEq, Eq)]
pub struct AcsControl {
    /// ACS Source Validation Enable (V)
    pub acs_source_validation_enable: bool,
    /// ACS Translation Blocking Enable (B)
    pub acs_translation_blocking_enable: bool,
    /// ACS P2P Request Redirect Enable (R)
    pub acs_p2p_request_redirect_enable: bool,
    /// ACS P2P Completion Redirect Enable (C)
    pub acs_p2p_completion_redirect_enable: bool,
    /// ACS Upstream Forwarding Enable (U)
    pub acs_upstream_forwarding_enable: bool,
    /// ACS P2P Egress Control Enable (E)
    pub acs_p2p_egress_control_enable: bool,
    /// ACS Direct Translated P2P Enable (T)
    pub acs_direct_translated_p2p_enable: bool,
}

impl AcsControl {
    /// The fields of the register value `word`.
    pub open spec fn spec_from(word: u16) -> Self {
        AcsControl {
            acs_source_validation_enable: flag(word as u32, 0),
            acs_translation_blocking_enable: flag(word as u32, 1),
            acs_p2p_request_redirect_enable: flag(word as u32, 2),
            acs_p2p_completion_redirect_enable: flag(word as u32, 3),
            acs_upstream_forwarding_enable: flag(word as u32, 4),
            acs_p2p_egress_control_enable: flag(word as u32, 5),
            acs_direct_translated_p2p_enable: flag(word as u32, 6),
        }
    }
}

impl vstd::std_specs::convert::FromSpecImpl<u16> for AcsControl {
    open spec fn obeys_from_spec() -> bool {
        true
    }

    open spec fn from_spec(word: u16) -> Self {
        Self::spec_from(word)
    }
}

impl From<u16> for AcsControl {
    fn from(word: u16) -> (r: Self) {
        let w = word as u32;
        AcsControl {
            acs_source_validation_enable: get_flag(w, 0),
            acs_translation_blocking_enable: get_flag(w, 1),
            acs_p2p_request_redirect_enable: get_flag(w, 2),
            acs_p2p_completion_redirect_enable: get_flag(w, 3),
            acs_upstream_forwarding_enable: get_flag(w, 4),
            acs_p2p_egress_control_enable: get_flag(w, 5),
            acs_direct_translated_p2p_enable: get_flag(w, 6),
        }
    }
}

/// The bits of an Egress Control Vector, read one after another: which peer-to-peer Requests
/// to the associated Port, Function or Function Group are blocked or redirected
#[derive(Debug, Clone, PartialEq, Eq)]
pub struct EgressControlVectors<'a> {
    data: &'a [u8],
    dword: u32,
    mask: u32,
    size: usize,
}

/// The little-endian double word of the first four bytes of `s`, with zeros for those that
/// `s` lacks.
pub open spec fn le_u32_padded(s: Seq<u8>) -> u32 {
    le_u32(s + seq![0u8, 0u8, 0u8, 0u8], 0)
}

/// One step of reading an Egress Control Vector: the bytes not read yet `data`, the current
/// double word `dword`, the bit `mask` that is read next and the number `size` of bits left.
/// A new double word is taken (the next 4 bytes, or what is left of them) where the mask is
/// back at bit 0. Gives the bit and the new state, or nothing once the size or the bytes are
/// used up.
pub open spec fn ecv_step(data: Seq<u8>, dword: u32, mask: u32, size: usize) -> Option<
    (bool, Seq<u8>, u32, u32, usize),
> {
    if size == 0 || (mask == 1 && data.len() == 0) {
        None
    } else {
        let d = if mask == 1 {
            le_u32_padded(data)
        } else {
            dword
        };
        let rest = if mask == 1 {
            data.skip(if data.len() < 4 {
                data.len() as int
            } else {
                4
            })
        } else {
            data
        };
        Some((d & mask != 0, rest, d, (mask << 1u32) | (mask >> 31u32), (size - 1) as usize))
    }
}

/// The bits that reading gives from the state `data`, `dword`, `mask`, `size` until the size
/// or the bytes are used up (see `ecv_step`).
pub open spec fn ecv_collect(data: Seq<u8>, dword: u32, mask: u32, size: usize) -> Seq<bool>
    decreases size,
{
    match ecv_step(data, dword, mask, size) {
        None => seq![],
        Some((b, d, w, m, s)) => if s < size {
            seq![b] + ecv_collect(d, w, m, s)
        } else {
            seq![]
        },
    }
}

impl<'a> EgressControlVectors<'a> {
    /// The bytes not read yet.
    pub closed spec fn spec_data(&self) -> Seq<u8> {
        self.data@
    }

    /// The current double word.
    pub closed spec fn spec_dword(&self) -> u32 {
        self.dword
    }

    /// The bit of the current double word that is read next.
    pub closed spec fn spec_mask(&self) -> u32 {
        self.mask
    }

    /// The number of bits left.
    pub closed spec fn spec_size(&self) -> usize {
        self.size
    }

    /// The `size` bits of the vector in `data`.
    pub fn new(data: &'a [u8], size: usize) -> (r: Self)
        ensures
            r.spec_data() == data@,
            r.spec_dword() == 0,
            r.spec_mask() == 1,
            r.spec_size() == size,
    {
        EgressControlVectors { data, dword: 0, mask: 1, size }
    }

    /// Reads the next bit (see `ecv_step`).
    pub fn next(&mut self) -> (r: Option<bool>)
        ensures
            match ecv_step(
                old(self).spec_data(),
                old(self).spec_dword(),
                old(self).spec_mask(),
                old(self).spec_size(),
            ) {
                None => r is None && *final(self) == *old(self),
                Some((b, d, w, m, s)) => r == Some(b) && final(self).spec_data() == d
                    && final(self).spec_dword() == w && final(self).spec_mask() == m
                    && final(self).spec_size() == s,
            },
    {
        if self.size == 0 {
            return None;
        }
        if self.mask == 1 {
            let data = self.data;
            let n = data.len();
            if n == 0 {
                return None;
            }
            let b0 = data[0] as u32;
            let b1 = if n > 1 { data[1] as u32 } else { 0 };
            let b2 = if n > 2 { data[2] as u32 } else { 0 };
            let b3 = if n > 3 { data[3] as u32 } else { 0 };
            let take = if n < 4 { n } else { 4 };
            proof {
                let p = data@ + seq![0u8, 0u8, 0u8, 0u8];
                assert(p[0] == b0 && p[1] == b1 && p[2] == b2 && p[3] == b3);
            }
            self.dword = b0 + b1 * 0x100 + b2 * 0x10000 + b3 * 0x1000000;
            self.data = &data[take..n];
            assert(self.data@ == data@.skip(take as int));
        }
        let result = (self.dword & self.mask) != 0;
        self.mask = (self.mask << 1u32) | (self.mask >> 31u32);
        self.size = self.size - 1;
        Some(result)
    }

    /// Reads the bits until the size or the bytes are used up.
    pub fn entries(&mut self) -> (r: Vec<bool>)
        ensures
            r@ == ecv_collect(
                old(self).spec_data(),
                old(self).spec_dword(),
                old(self).spec_mask(),
                old(self).spec_size(),
            ),
    {
        let mut r: Vec<bool> = Vec::new();
        loop
            invariant
                r@ + ecv_collect(self.spec_data(), self.spec_dword(), self.spec_mask(), self.spec_size())
                    == ecv_collect(
                    old(self).spec_data(),
                    old(self).spec_dword(),
                    old(self).spec_mask(),
                    old(self).spec_size(),
                ),
            decreases self.spec_size(),
        {
            let ghost (d0, w0, m0, s0) = (self.spec_data(), self.spec_dword(), self.spec_mask(), self.spec_size());
            let ghost before = r@;
            match self.next() {
                Some(b) => {
                    r.push(b);
                    let ghost rest = ecv_collect(self.spec_data(), self.spec_dword(), self.spec_mask(), self.spec_size());
                    assert(ecv_collect(d0, w0, m0, s0) == seq![b] + rest);
                    assert(r@ + rest =~= before + (seq![b] + rest));
                },
                None => {
                    assert(r@ + seq![] =~= r@);
                    return r;
                },
            }
        }
    }
}

} // verus!
