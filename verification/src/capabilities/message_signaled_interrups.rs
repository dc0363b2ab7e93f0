//! Message Signaled Interrupts (MSI) capability.
use vstd::prelude::*;
use vstd::arithmetic::power2::pow2;
use crate::bits::{flag, field, get_flag, get_u8, le_u16, le_u32, pow2_u8, read_u16, read_u32};

verus! {

broadcast use crate::bits::lemma_field_le_mask;

/// Size of the capability with a 32-bit message address
pub const MSI_32BIT_SIZE: usize = 10;

/// Size of the capability with a 64-bit message address
pub const MSI_64BIT_SIZE: usize = 14;

/// Size of the capability with a 32-bit message address and per-vector masking
pub const MSI_32BIT_PVM_SIZE: usize = 18;

/// Size of the capability with a 64-bit message address and per-vector masking
pub const MSI_64BIT_PVM_SIZE: usize = 22;

/// MSI parsing errors
#[derive(Debug, Clone, PartialEq, Eq)]
pub enum MessageSignaledInterrupsError {
    /// Message Control register is unreadable
    MessageControl,
    /// 32-bit capability is unreadable
    Size32bit,
    /// 64-bit capability is unreadable
    Size64bit,
    /// 32-bit per-vector masking capability is unreadable
    Size32bitPerVector,
    /// 64-bit per-vector masking capability is unreadable
    Size64bitPerVector,
}

/// Message Signaled Interrupts capability
#[derive(Debug, PartialEq, Eq)]
pub struct MessageSignaledInterrups {
    pub message_control: MessageControl,
    pub message_address: MessageAddress,
    pub message_data: u16,
    pub extended_message_data: u16,
    pub mask_bits: Option<u32>,
    pub pending_bits: Option<u32>,
}

/// The 64-bit address whose low and high double words are `lo` and `hi`.
pub open spec fn qword(lo: u32, hi: u32) -> u64 {
    (hi as int * 0x1_0000_0000 + lo as int) as u64
}

pub fn make_qword(lo: u32, hi: u32) -> (r: u64)
    ensures
        r == qword(lo, hi),
{
    hi as u64 * 0x1_0000_0000 + lo as u64
}

impl MessageSignaledInterrups {
    /// The capability that `bytes` (the data after the capability header) holds.
    pub open spec fn spec_parse(bytes: Seq<u8>) -> Result<Self, MessageSignaledInterrupsError> {
        if bytes.len() < 2 {
            Err(MessageSignaledInterrupsError::MessageControl)
        } else {
            let message_control = MessageControl::spec_from(le_u16(bytes, 0));
            let a64 = message_control.a_64_bit_address_capable;
            let pvm = message_control.per_vector_masking_capable;
            if !a64 && !pvm {
                if bytes.len() < MSI_32BIT_SIZE {
                    Err(MessageSignaledInterrupsError::Size32bit)
                } else {
                    Ok(MessageSignaledInterrups {
                        message_control,
                        message_address: MessageAddress::Dword(le_u32(bytes, 2)),
                        message_data: le_u16(bytes, 6),
                        extended_message_data: le_u16(bytes, 8),
                        mask_bits: None,
                        pending_bits: None,
                    })
                }
            } else if a64 && !pvm {
                if bytes.len() < MSI_64BIT_SIZE {
                    Err(MessageSignaledInterrupsError::Size64bit)
                } else {
                    Ok(MessageSignaledInterrups {
                        message_control,
                        message_address: MessageAddress::Qword(qword(le_u32(bytes, 2), le_u32(bytes, 6))),
                        message_data: le_u16(bytes, 10),
                        extended_message_data: le_u16(bytes, 12),
                        mask_bits: None,
                        pending_bits: None,
                    })
                }
            } else if !a64 && pvm {
                if bytes.len() < MSI_32BIT_PVM_SIZE {
                    Err(MessageSignaledInterrupsError::Size32bitPerVector)
                } else {
                    Ok(MessageSignaledInterrups {
                        message_control,
                        message_address: MessageAddress::Dword(le_u32(bytes, 2)),
                        message_data: le_u16(bytes, 6),
                        extended_message_data: le_u16(bytes, 8),
                        mask_bits: Some(le_u32(bytes, 10)),
                        pending_bits: Some(le_u32(bytes, 14)),
                    })
                }
            } else {
                if bytes.len() < MSI_64BIT_PVM_SIZE {
                    Err(MessageSignaledInterrupsError::Size64bitPerVector)
                } else {
                    Ok(MessageSignaledInterrups {
                        message_control,
                        message_address: MessageAddress::Qword(qword(le_u32(bytes, 2), le_u32(bytes, 6))),
                        message_data: le_u16(bytes, 10),
                        extended_message_data: le_u16(bytes, 12),
                        mask_bits: Some(le_u32(bytes, 14)),
                        pending_bits: Some(le_u32(bytes, 18)),
                    })
                }
            }
        }
    }
}

impl vstd::std_specs::convert::TryFromSpecImpl<&[u8]> for MessageSignaledInterrups {
    open spec fn obeys_try_from_spec() -> bool {
        true
    }

    open spec fn try_from_spec(slice: &[u8]) -> Result<Self, Self::Error> {
        Self::spec_parse(slice@)
    }
}

impl TryFrom<&[u8]> for MessageSignaledInterrups {
    type Error = MessageSignaledInterrupsError;

    fn try_from(slice: &[u8]) -> (r: Result<Self, Self::Error>) {
        if slice.len() < 2 {
            return Err(MessageSignaledInterrupsError::MessageControl);
        }
        let message_control = MessageControl::from(read_u16(slice, 0));
        let a64 = message_control.a_64_bit_address_capable;
        let pvm = message_control.per_vector_masking_capable;
        if !a64 && !pvm {
            if slice.len() < MSI_32BIT_SIZE {
                return Err(MessageSignaledInterrupsError::Size32bit);
            }
            Ok(MessageSignaledInterrups {
                message_control,
                message_address: MessageAddress::Dword(read_u32(slice, 2)),
                message_data: read_u16(slice, 6),
                extended_message_data: read_u16(slice, 8),
                mask_bits: None,
                pending_bits: None,
            })
        } else if a64 && !pvm {
            if slice.len() < MSI_64BIT_SIZE {
                return Err(MessageSignaledInterrupsError::Size64bit);
            }
            Ok(MessageSignaledInterrups {
                message_control,
                message_address: MessageAddress::Qword(make_qword(read_u32(slice, 2), read_u32(slice, 6))),
                message_data: read_u16(slice, 10),
                extended_message_data: read_u16(slice, 12),
                mask_bits: None,
                pending_bits: None,
            })
        } else if !a64 && pvm {
            if slice.len() < MSI_32BIT_PVM_SIZE {
                return Err(MessageSignaledInterrupsError::Size32bitPerVector);
            }
            Ok(MessageSignaledInterrups {
                message_control,
                message_address: MessageAddress::Dword(read_u32(slice, 2)),
                message_data: read_u16(slice, 6),
                extended_message_data: read_u16(slice, 8),
                mask_bits: Some(read_u32(slice, 10)),
                pending_bits: Some(read_u32(slice, 14)),
            })
        } else {
            if slice.len() < MSI_64BIT_PVM_SIZE {
                return Err(MessageSignaledInterrupsError::Size64bitPerVector);
            }
            Ok(MessageSignaledInterrups {
                message_control,
                message_address: MessageAddress::Qword(make_qword(read_u32(slice, 2), read_u32(slice, 6))),
                message_data: read_u16(slice, 10),
                extended_message_data: read_u16(slice, 12),
                mask_bits: Some(read_u32(slice, 14)),
                pending_bits: Some(read_u32(slice, 18)),
            })
        }
    }
}

/// Message Control register
#[derive(Debug, PartialEq, Eq)]
pub struct MessageControl {
    pub msi_enable: bool,
    pub multiple_message_capable: MultipleMessage,
    pub multiple_message_enable: MultipleMessage,
    pub a_64_bit_address_capable: bool,
    pub per_vector_masking_capable: bool,
    pub extended_message_data_capable: bool,
    pub extended_message_data_enable: bool,
}

impl MessageControl {
    /// The fields of the register value `word`.
    pub open spec fn spec_from(word: u16) -> Self {
        MessageControl {
            msi_enable: flag(word as u32, 0),
            multiple_message_capable: MultipleMessage(field(word as u32, 1, 0x7) as u8),
            multiple_message_enable: MultipleMessage(field(word as u32, 4, 0x7) as u8),
            a_64_bit_address_capable: flag(word as u32, 7),
            per_vector_masking_capable: flag(word as u32, 8),
            extended_message_data_capable: flag(word as u32, 9),
            extended_message_data_enable: flag(word as u32, 10),
        }
    }
}

impl vstd::std_specs::convert::FromSpecImpl<u16> for MessageControl {
    open spec fn obeys_from_spec() -> bool {
        true
    }

    open spec fn from_spec(word: u16) -> Self {
        Self::spec_from(word)
    }
}

impl From<u16> for MessageControl {
    fn from(word: u16) -> (r: Self) {
        let w = word as u32;
        MessageControl {
            msi_enable: get_flag(w, 0),
            multiple_message_capable: MultipleMessage(get_u8(w, 1, 0x7)),
            multiple_message_enable: MultipleMessage(get_u8(w, 4, 0x7)),
            a_64_bit_address_capable: get_flag(w, 7),
            per_vector_masking_capable: get_flag(w, 8),
            extended_message_data_capable: get_flag(w, 9),
            extended_message_data_enable: get_flag(w, 10),
        }
    }
}

impl MessageControl {
    /// Size of the Message Control register
    pub const SIZE: usize = 2;
}

/// Message Address register: 32 or 64 bits wide
#[derive(Debug, PartialEq, Eq)]
pub enum MessageAddress {
    Dword(u32),
    Qword(u64),
}

/// Number of requested or allocated vectors as a power of two
#[derive(Debug, PartialEq, Eq)]
pub struct MultipleMessage(pub u8);

impl MultipleMessage {
    /// The number of vectors: two to the power of the field.
    pub fn number_of_vectors(&self) -> (r: u8)
        requires
            self.0 < 8,
        ensures
            r == pow2(self.0 as nat),
    {
        pow2_u8(self.0)
    }
}


/// The fields of an MSI Message Control register word `w`: MSI Enable is bit 0, Multiple
/// Message Capable bits 3:1, Multiple Message Enable bits 6:4, 64 bit Address Capable bit 7,
/// Per-vector Masking Capable bit 8, Extended Message Data Capable bit 9 and Enable bit 10.
pub proof fn lemma_message_control_fields(w: u16)
    ensures
        ({
            let c = MessageControl::spec_from(w);
            let v = w as int;
            &&& c.msi_enable == (v % 2 == 1)
            &&& c.multiple_message_capable.0 as int == (v / 2) % 8
            &&& c.multiple_message_enable.0 as int == (v / 16) % 8
            &&& c.a_64_bit_address_capable == ((v / 128) % 2 == 1)
            &&& c.per_vector_masking_capable == ((v / 256) % 2 == 1)
            &&& c.extended_message_data_capable == ((v / 512) % 2 == 1)
            &&& c.extended_message_data_enable == ((v / 1024) % 2 == 1)
        }),
{
    let x = w as u32;
    vstd::bits::lemma_low_bits_mask_values();
    vstd::arithmetic::power2::lemma2_to64();
    crate::bits::lemma_field_div_mod(x, 1, 0x7, 3);
    crate::bits::lemma_field_div_mod(x, 4, 0x7, 3);
    crate::bits::lemma_flag_div_mod(x, 0);
    crate::bits::lemma_flag_div_mod(x, 7);
    crate::bits::lemma_flag_div_mod(x, 8);
    crate::bits::lemma_flag_div_mod(x, 9);
    crate::bits::lemma_flag_div_mod(x, 10);
}

/// Reading the capability takes its Message Control register from the first two bytes, low
/// byte first: the Multiple Message Capable field is bits 3:1 and the Multiple Message Enable
/// field bits 6:4 of that word.
pub proof fn lemma_parse_message_control(bytes: Seq<u8>)
    requires
        MessageSignaledInterrups::spec_parse(bytes) is Ok,
    ensures
        ({
            let c = MessageSignaledInterrups::spec_parse(bytes)->Ok_0.message_control;
            let v = bytes[0] as int + bytes[1] as int * 256;
            &&& c.msi_enable == (v % 2 == 1)
            &&& c.multiple_message_capable.0 as int == (v / 2) % 8
            &&& c.multiple_message_enable.0 as int == (v / 16) % 8
            &&& c.a_64_bit_address_capable == ((v / 128) % 2 == 1)
            &&& c.per_vector_masking_capable == ((v / 256) % 2 == 1)
        }),
{
    lemma_message_control_fields(le_u16(bytes, 0));
}

} // verus!
