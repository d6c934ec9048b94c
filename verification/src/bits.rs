//! Small bit- and byte-level helpers shared by the CPU, bus and PPU:
//! extracting bit fields, composing little-endian half-words and words,
//! and rotating words (the bus rotates misaligned word reads).

use vstd::prelude::*;

verus! {

/// The value of bit `i` of `x`.
pub open spec fn spec_bit(x: u32, i: u32) -> bool {
    x >> i & 1 == 1
}

/// The `len`-bit field of `x` starting at bit `lo`.
pub open spec fn spec_field(x: u32, lo: u32, len: u32) -> u32 {
    (x >> lo) & ((((1u64 << len) - 1) as u64) as u32)
}

/// A 16-bit half-word from two bytes, little-endian.
pub open spec fn spec_half(lo: u8, hi: u8) -> u16 {
    (lo + 256 * hi) as u16
}

/// A 32-bit word from two half-words, little-endian.
pub open spec fn spec_word(lo: u16, hi: u16) -> u32 {
    (lo + 0x10000 * hi) as u32
}

/// `x` rotated right by `r` bit positions (`r < 32`).
pub open spec fn spec_ror(x: u32, r: u32) -> u32 {
    if r == 0 {
        x
    } else {
        (x >> r) | (x << (((32 - r) as u64) as u32))
    }
}

/// Whether bit `i` of `x` is set.
pub fn bit(x: u32, i: u32) -> (b: bool)
    requires
        i < 32,
    ensures
        b == spec_bit(x, i),
{
    x >> i & 1 == 1
}

/// The `len`-bit field of `x` starting at bit `lo`.
pub fn field(x: u32, lo: u32, len: u32) -> (f: u32)
    requires
        lo < 32,
        0 < len <= 32,
        lo + len <= 32,
    ensures
        f == spec_field(x, lo, len),
        f < (1u64 << len),
{
    proof {
        assert(1u64 << len >= 1 && (1u64 << len) - 1 <= 0xffff_ffffu64) by (bit_vector)
            requires
                0 < len <= 32,
        ;
    }
    let mask: u32 = ((1u64 << len) - 1) as u32;
    proof {
        assert((x >> lo) & ((((1u64 << len) - 1) as u64) as u32) < (1u64 << len))
            by (bit_vector)
            requires
                lo < 32 && 0 < len <= 32,
        ;
    }
    (x >> lo) & mask
}

/// Composes a little-endian half-word from its two bytes.
pub fn half_from_bytes(lo: u8, hi: u8) -> (h: u16)
    ensures
        h == spec_half(lo, hi),
{
    proof {
        assert((lo as u16) | ((hi as u16) << 8) == lo + 256 * hi) by (bit_vector);
    }
    (lo as u16) | ((hi as u16) << 8)
}

/// Composes a little-endian word from its two half-words.
pub fn word_from_halves(lo: u16, hi: u16) -> (w: u32)
    ensures
        w == spec_word(lo, hi),
{
    proof {
        assert((lo as u32) | ((hi as u32) << 16) == lo + 0x10000 * hi) by (bit_vector);
    }
    (lo as u32) | ((hi as u32) << 16)
}

/// The low byte of a half-word.
pub fn half_lo(h: u16) -> (b: u8)
    ensures
        spec_half(b, half_hi_spec(h)) == h,
        b == h % 256,
{
    proof {
        assert((h & 0xff) + 256 * (h >> 8) == h && h & 0xff == h % 256) by (bit_vector);
    }
    (h & 0xff) as u8
}

/// The high byte of a half-word.
pub open spec fn half_hi_spec(h: u16) -> u8 {
    (h >> 8) as u8
}

/// The high byte of a half-word.
pub fn half_hi(h: u16) -> (b: u8)
    ensures
        b == half_hi_spec(h),
{
    (h >> 8) as u8
}

/// The low half-word of a word.
pub fn word_lo(w: u32) -> (h: u16)
    ensures
        spec_word(h, word_hi_spec(w)) == w,
        h == w % 0x10000,
{
    proof {
        assert((w & 0xffff) + 0x10000 * (w >> 16) == w && w & 0xffff == w % 0x10000)
            by (bit_vector);
    }
    (w & 0xffff) as u16
}

/// The high half-word of a word.
pub open spec fn word_hi_spec(w: u32) -> u16 {
    (w >> 16) as u16
}

/// The high half-word of a word.
pub fn word_hi(w: u32) -> (h: u16)
    ensures
        h == word_hi_spec(w),
{
    (w >> 16) as u16
}

/// Rotates `x` right by `r` bit positions.
pub fn ror(x: u32, r: u32) -> (y: u32)
    requires
        r < 32,
    ensures
        y == spec_ror(x, r),
{
    if r == 0 {
        x
    } else {
        (x >> r) | (x << (32 - r))
    }
}


/// Masking with the low-bit-clearing masks aligns a value, and an
/// already-aligned value is unchanged by them.
pub proof fn lemma_align(x: u32)
    ensures
        (x & 0xffff_fffe) % 2 == 0,
        (x & 0xffff_fffc) % 4 == 0,
        x % 2 == 0 ==> x & 0xffff_fffe == x,
        x % 4 == 0 ==> x & 0xffff_fffc == x,
{
    assert((x & 0xffff_fffe) % 2 == 0 && (x & 0xffff_fffc) % 4 == 0 && (x % 2 == 0 ==> x
        & 0xffff_fffe == x) && (x % 4 == 0 ==> x & 0xffff_fffc == x)) by (bit_vector);
}

/// A value masked to its low bits stays under the mask's bound.
pub proof fn lemma_mask_low(x: u32)
    ensures
        x & 3 < 4,
        x & 7 < 8,
        x & 0xf < 16,
        x & 0x1f < 32,
        x & 0x3f < 64,
        x & 0x7f < 128,
        x & 0xff < 256,
        x & 0x3ff < 1024,
        x & 0x7ff < 0x800,
{
    assert(x & 3 < 4 && x & 7 < 8 && x & 0xf < 16 && x & 0x1f < 32 && x & 0x3f < 64 && x & 0x7f
        < 128 && x & 0xff < 256 && x & 0x3ff < 1024 && x & 0x7ff < 0x800) by (bit_vector);
}

} // verus!
