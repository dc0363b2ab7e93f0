//! Bit fields of registers and little-endian integers of byte strings.
use vstd::prelude::*;
use vstd::arithmetic::power2::pow2;

verus! {

/// The bits of `x` that `mask` selects after `x` is shifted right by `lo`.
pub open spec fn field(x: u32, lo: u32, mask: u32) -> u32 {
    (x >> lo) & mask
}

/// Whether bit `i` of `x` is set.
pub open spec fn flag(x: u32, i: u32) -> bool {
    (x >> i) & 1u32 == 1u32
}

/// A bit field of `k` bits at `lo` is the quotient of `x` by 2 to the power `lo`, modulo 2 to
/// the power `k`.
pub proof fn lemma_field_div_mod(x: u32, lo: u32, mask: u32, k: nat)
    requires
        lo < 32,
        k < 32,
        mask as nat == vstd::bits::low_bits_mask(k),
    ensures
        field(x, lo, mask) as int == (x as int / pow2(lo as nat) as int) % (pow2(k) as int),
{
    vstd::bits::lemma_u32_shr_is_div(x, lo);
    vstd::bits::lemma_u32_low_bits_mask_is_mod(x >> lo, k);
    vstd::bits::lemma_u32_pow2_no_overflow(k);
}

/// The low and the high four bits of the low byte of a little-endian word are those of the
/// byte at `at`.
pub proof fn lemma_le_u16_low_nibbles(s: Seq<u8>, at: int)
    requires
        0 <= at,
        at + 1 < s.len(),
    ensures
        field(le_u16(s, at) as u32, 4, 0xf) as int == s[at] as int / 16,
        field(le_u16(s, at) as u32, 0, 0xf) as int == s[at] as int % 16,
{
    let b0 = s[at];
    let b1 = s[at + 1];
    let w = le_u16(s, at) as u32;
    assert(w == b0 as u32 + b1 as u32 * 256);
    assert(((w >> 4) & 0xf) == (b0 as u32) / 16 && ((w >> 0) & 0xf) == (b0 as u32) % 16)
        by (bit_vector)
        requires
            w == b0 as u32 + b1 as u32 * 256,
    ;
}

/// Bit `i` of `x` is set when the quotient of `x` by 2 to the power `i` is odd.
pub proof fn lemma_flag_div_mod(x: u32, i: u32)
    requires
        i < 32,
    ensures
        flag(x, i) == ((x as int / pow2(i as nat) as int) % 2 == 1),
{
    vstd::bits::lemma_low_bits_mask_values();
    vstd::arithmetic::power2::lemma2_to64();
    lemma_field_div_mod(x, i, 1, 1);
}

/// A bit field is no greater than its mask.
pub broadcast proof fn lemma_field_le_mask(x: u32, lo: u32, mask: u32)
    ensures
        #[trigger] field(x, lo, mask) <= mask,
{
    assert((x >> lo) & mask <= mask) by (bit_vector);
}

/// Reads the bit field at `lo` selected by `mask`.
pub fn get_bits(x: u32, lo: u32, mask: u32) -> (r: u32)
    requires
        lo < 32,
    ensures
        r == field(x, lo, mask),
        r <= mask,
{
    proof {
        lemma_field_le_mask(x, lo, mask);
    }
    (x >> lo) & mask
}

/// Reads a bit field no wider than a byte.
pub fn get_u8(x: u32, lo: u32, mask: u32) -> (r: u8)
    requires
        lo < 32,
        mask <= 0xff,
    ensures
        r == field(x, lo, mask),
        r <= mask,
{
    proof {
        lemma_field_le_mask(x, lo, mask);
    }
    ((x >> lo) & mask) as u8
}

/// Reads a bit field no wider than a word.
pub fn get_u16(x: u32, lo: u32, mask: u32) -> (r: u16)
    requires
        lo < 32,
        mask <= 0xffff,
    ensures
        r == field(x, lo, mask),
        r <= mask,
{
    proof {
        lemma_field_le_mask(x, lo, mask);
    }
    ((x >> lo) & mask) as u16
}

/// Reads bit `i`.
pub fn get_flag(x: u32, i: u32) -> (r: bool)
    requires
        i < 32,
    ensures
        r == flag(x, i),
{
    (x >> i) & 1 == 1
}

/// Two to the power `n`.
pub fn pow2_usize(n: u32) -> (r: usize)
    requires
        n < usize::BITS,
    ensures
        r == pow2(n as nat),
{
    proof {
        vstd::bits::lemma_usize_pow2_no_overflow(n as nat);
        vstd::bits::lemma_usize_shl_is_mul(1, n as usize);
    }
    1usize << n
}

/// Two to the power `n`, for a result that fits in a byte.
pub fn pow2_u8(n: u8) -> (r: u8)
    requires
        n < 8,
    ensures
        r == pow2(n as nat),
{
    proof {
        vstd::arithmetic::power2::lemma2_to64();
    }
    pow2_usize(n as u32) as u8
}

/// The little-endian word at `at` in `s`.
pub open spec fn le_u16(s: Seq<u8>, at: int) -> u16 {
    (s[at] as int + s[at + 1] as int * 0x100) as u16
}

/// The little-endian double word at `at` in `s`.
pub open spec fn le_u32(s: Seq<u8>, at: int) -> u32 {
    (s[at] as int + s[at + 1] as int * 0x100 + s[at + 2] as int * 0x10000 + s[at + 3] as int
        * 0x1000000) as u32
}

/// Reads the little-endian word at `at`.
pub fn read_u16(s: &[u8], at: usize) -> (r: u16)
    requires
        at + 2 <= s@.len(),
    ensures
        r == le_u16(s@, at as int),
{
    s[at] as u16 + s[at + 1] as u16 * 0x100
}

/// Reads the little-endian double word at `at`.
pub fn read_u32(s: &[u8], at: usize) -> (r: u32)
    requires
        at + 4 <= s@.len(),
    ensures
        r == le_u32(s@, at as int),
{
    s[at] as u32 + s[at + 1] as u32 * 0x100 + s[at + 2] as u32 * 0x10000 + s[at + 3] as u32
        * 0x1000000
}

/// The four little-endian double words from `at` in `s`.
pub open spec fn le_u32x4(s: Seq<u8>, at: int) -> [u32; 4] {
    [le_u32(s, at), le_u32(s, at + 4), le_u32(s, at + 8), le_u32(s, at + 12)]
}

/// Reads the four little-endian double words from `at`.
pub fn read_u32x4(s: &[u8], at: usize) -> (r: [u32; 4])
    requires
        at + 16 <= s.len(),
    ensures
        r == le_u32x4(s@, at as int),
{
    [read_u32(s, at), read_u32(s, at + 4), read_u32(s, at + 8), read_u32(s, at + 12)]
}

/// The little-endian bytes of a double word read back give the double word.
pub proof fn lemma_le_u32_bytes(x: u32)
    ensures
        le_u32(seq![x as u8, (x >> 8u32) as u8, (x >> 16u32) as u8, (x >> 24u32) as u8], 0) == x,
{
    let s = seq![x as u8, (x >> 8u32) as u8, (x >> 16u32) as u8, (x >> 24u32) as u8];
    assert(s[0] == x as u8 && s[1] == (x >> 8u32) as u8 && s[2] == (x >> 16u32) as u8 && s[3] == (x
        >> 24u32) as u8);
    assert((x as u8) as int + ((x >> 8u32) as u8) as int * 0x100 + ((x >> 16u32) as u8) as int
        * 0x10000 + ((x >> 24u32) as u8) as int * 0x1000000 == x as int) by (bit_vector);
}

/// The little-endian bytes of a word read back give the word.
pub proof fn lemma_le_u16_bytes(x: u16)
    ensures
        le_u16(seq![x as u8, (x >> 8u16) as u8], 0) == x,
{
    let s = seq![x as u8, (x >> 8u16) as u8];
    assert(s[0] == x as u8 && s[1] == (x >> 8u16) as u8);
    assert((x as u8) as int + ((x >> 8u16) as u8) as int * 0x100 == x as int) by (bit_vector);
}

/// The quad word whose low half is `lo` and high half is `hi`.
pub open spec fn qword_of(lo: u32, hi: u32) -> u64 {
    (lo as u64) | ((hi as u64) << 32u64)
}

/// The little-endian quad word at `at` in `s`.
pub open spec fn le_u64(s: Seq<u8>, at: int) -> u64 {
    qword_of(le_u32(s, at), le_u32(s, at + 4))
}

/// Reads the little-endian quad word at `at`.
pub fn read_u64(s: &[u8], at: usize) -> (r: u64)
    requires
        at + 8 <= s.len(),
    ensures
        r == le_u64(s@, at as int),
{
    (read_u32(s, at) as u64) | ((read_u32(s, at + 4) as u64) << 32u64)
}

/// The bits of `x` that `mask` selects after `x` is shifted right by `lo`.
pub open spec fn field64(x: u64, lo: u64, mask: u64) -> u64 {
    (x >> lo) & mask
}

/// Reads the bit field at `lo` of a quad word selected by `mask`.
pub fn get_bits64(x: u64, lo: u64, mask: u64) -> (r: u64)
    requires
        lo < 64,
    ensures
        r == field64(x, lo, mask),
{
    (x >> lo) & mask
}

} // verus!
