//! Bytes, words and 24-bit addresses, stated as arithmetic.

use vstd::prelude::*;

verus! {

/// The low byte of a word: `x mod 256`.
pub open spec fn spec_lo(x: u16) -> u8 {
    (x % 256) as u8
}

/// Computes [`spec_lo`].
#[verifier::when_used_as_spec(spec_lo)]
pub fn lo(x: u16) -> (r: u8)
    ensures
        r == spec_lo(x),
{
    (x % 256) as u8
}

/// The high byte of a word: `x div 256`.
pub open spec fn spec_hi(x: u16) -> u8 {
    (x / 256) as u8
}

/// Computes [`spec_hi`].
#[verifier::when_used_as_spec(spec_hi)]
pub fn hi(x: u16) -> (r: u8)
    ensures
        r == spec_hi(x),
{
    (x / 256) as u8
}

/// The word whose low byte is `l` and whose high byte is `h`.
pub open spec fn spec_word(l: u8, h: u8) -> u16 {
    ((h as u16) * 256 + (l as u16)) as u16
}

/// Computes [`spec_word`].
#[verifier::when_used_as_spec(spec_word)]
pub fn word(l: u8, h: u8) -> (r: u16)
    ensures
        r == spec_word(l, h),
{
    ((h as u16) * 256 + (l as u16)) as u16
}

/// A byte as a word with a zero high byte.
pub open spec fn spec_wide(b: u8) -> u16 {
    b as u16
}

/// Computes [`spec_wide`].
#[verifier::when_used_as_spec(spec_wide)]
pub fn wide(b: u8) -> (r: u16)
    ensures
        r == spec_wide(b),
{
    b as u16
}

/// A signed byte as a 16-bit two's complement word.
pub open spec fn spec_sext(b: u8) -> u16 {
    if b < 128 {
        b as u16
    } else {
        ((b as u16) + 0xff00) as u16
    }
}

/// Computes [`spec_sext`].
#[verifier::when_used_as_spec(spec_sext)]
pub fn sext(b: u8) -> (r: u16)
    ensures
        r == spec_sext(b),
{
    if b < 128 {
        b as u16
    } else {
        ((b as u16) + 0xff00) as u16
    }
}

/// `v` as seen at the given width: all of it, or its low byte.
pub open spec fn spec_at(v: u16, w8: bool) -> u16 {
    if w8 {
        (v % 256) as u16
    } else {
        v
    }
}

/// Computes [`spec_at`].
#[verifier::when_used_as_spec(spec_at)]
pub fn at(v: u16, w8: bool) -> (r: u16)
    ensures
        r == spec_at(v, w8),
{
    if w8 {
        (v % 256) as u16
    } else {
        v
    }
}

/// The sign bit of `v` at the given width.
pub open spec fn spec_msb(v: u16, w8: bool) -> bool {
    if w8 {
        v % 256 >= 128
    } else {
        v >= 32768
    }
}

/// Computes [`spec_msb`].
#[verifier::when_used_as_spec(spec_msb)]
pub fn msb(v: u16, w8: bool) -> (r: bool)
    ensures
        r == spec_msb(v, w8),
{
    if w8 {
        v % 256 >= 128
    } else {
        v >= 32768
    }
}

/// Whether `v` is zero at the given width.
pub open spec fn spec_zero(v: u16, w8: bool) -> bool {
    if w8 {
        v % 256 == 0
    } else {
        v == 0
    }
}

/// Computes [`spec_zero`].
#[verifier::when_used_as_spec(spec_zero)]
pub fn zero(v: u16, w8: bool) -> (r: bool)
    ensures
        r == spec_zero(v, w8),
{
    if w8 {
        v % 256 == 0
    } else {
        v == 0
    }
}

/// `old` with `v` written at the given width: an 8-bit write keeps the high byte.
pub open spec fn spec_merge(old: u16, v: u16, w8: bool) -> u16 {
    if w8 {
        (((old / 256) as u16) * 256 + ((v % 256) as u16)) as u16
    } else {
        v
    }
}

/// Computes [`spec_merge`].
#[verifier::when_used_as_spec(spec_merge)]
pub fn merge(old: u16, v: u16, w8: bool) -> (r: u16)
    ensures
        r == spec_merge(old, v, w8),
{
    if w8 {
        (((old / 256) as u16) * 256 + ((v % 256) as u16)) as u16
    } else {
        v
    }
}

/// The number of values at the given width: 256 or 65536.
pub open spec fn spec_span(w8: bool) -> u32 {
    if w8 {
        256
    } else {
        65536
    }
}

/// Computes [`spec_span`].
#[verifier::when_used_as_spec(spec_span)]
pub fn span(w8: bool) -> (r: u32)
    ensures
        r == spec_span(w8),
{
    if w8 {
        256
    } else {
        65536
    }
}

/// `t mod 2^width`.
pub open spec fn spec_fit(t: u32, w8: bool) -> u16 {
    if w8 {
        (t % 256) as u16
    } else {
        (t % 65536) as u16
    }
}

/// Computes [`spec_fit`].
#[verifier::when_used_as_spec(spec_fit)]
pub fn fit(t: u32, w8: bool) -> (r: u16)
    ensures
        r == spec_fit(t, w8),
{
    if w8 {
        (t % 256) as u16
    } else {
        (t % 65536) as u16
    }
}

/// `a + b + c` without wrapping.
pub open spec fn spec_total(a: u16, b: u16, c: bool) -> u32 {
    ((a as u32) + (b as u32) + (if c { 1u32 } else { 0u32 })) as u32
}

/// Computes [`spec_total`].
#[verifier::when_used_as_spec(spec_total)]
pub fn total(a: u16, b: u16, c: bool) -> (r: u32)
    ensures
        r == spec_total(a, b, c),
{
    ((a as u32) + (b as u32) + (if c { 1u32 } else { 0u32 })) as u32
}

/// `v` read as a two's complement number of the given width.
pub open spec fn spec_signed(v: u16, w8: bool) -> i32 {
    if w8 {
        if v % 256 >= 128 {
            ((v % 256) as i32 - 256) as i32
        } else {
            (v % 256) as i32
        }
    } else {
        if v >= 32768 {
            ((v as i32) - 65536) as i32
        } else {
            v as i32
        }
    }
}

/// Computes [`spec_signed`].
#[verifier::when_used_as_spec(spec_signed)]
pub fn signed(v: u16, w8: bool) -> (r: i32)
    ensures
        r == spec_signed(v, w8),
{
    if w8 {
        if v % 256 >= 128 {
            ((v % 256) as i32 - 256) as i32
        } else {
            (v % 256) as i32
        }
    } else {
        if v >= 32768 {
            ((v as i32) - 65536) as i32
        } else {
            v as i32
        }
    }
}

/// Whether the sum `a + b + c` of signed numbers leaves the signed range of
/// the width: below -128 or above 127 at 8 bits, below -32768 or above
/// 32767 at 16 bits.
pub open spec fn spec_signed_overflow(a: i32, b: i32, c: i32, w8: bool) -> bool {
    if w8 {
        a + b + c < -128 || a + b + c > 127
    } else {
        a + b + c < -32768 || a + b + c > 32767
    }
}

/// Computes [`spec_signed_overflow`] for numbers of up to 17 bits.
#[verifier::when_used_as_spec(spec_signed_overflow)]
pub fn signed_overflow(a: i32, b: i32, c: i32, w8: bool) -> (r: bool)
    requires
        -65536 <= a <= 65535,
        -65536 <= b <= 65535,
        -65536 <= c <= 65535,
    ensures
        r == spec_signed_overflow(a, b, c, w8),
{
    if w8 {
        a + b + c < -128 || a + b + c > 127
    } else {
        a + b + c < -32768 || a + b + c > 32767
    }
}

/// The complement of `v` at the given width: `2^width - 1 - v`.
pub open spec fn spec_inv(v: u16, w8: bool) -> u16 {
    if w8 {
        (255 - (v % 256)) as u16
    } else {
        (65535 - v) as u16
    }
}

/// Computes [`spec_inv`].
#[verifier::when_used_as_spec(spec_inv)]
pub fn inv(v: u16, w8: bool) -> (r: u16)
    ensures
        r == spec_inv(v, w8),
{
    if w8 {
        (255 - (v % 256)) as u16
    } else {
        (65535 - v) as u16
    }
}

/// `v` at the given width shifted right by one, with `c` moved into the top bit.
pub open spec fn spec_shr(v: u16, c: bool, w8: bool) -> u16 {
    if w8 {
        ((v % 256) / 2 + (if c { 128u16 } else { 0u16 })) as u16
    } else {
        (v / 2 + (if c { 32768u16 } else { 0u16 })) as u16
    }
}

/// Computes [`spec_shr`].
#[verifier::when_used_as_spec(spec_shr)]
pub fn shr(v: u16, c: bool, w8: bool) -> (r: u16)
    ensures
        r == spec_shr(v, c, w8),
{
    if w8 {
        ((v % 256) / 2 + (if c { 128u16 } else { 0u16 })) as u16
    } else {
        (v / 2 + (if c { 32768u16 } else { 0u16 })) as u16
    }
}

/// The lowest bit of `v`.
pub open spec fn spec_odd(v: u16) -> bool {
    v % 2 == 1
}

/// Computes [`spec_odd`].
#[verifier::when_used_as_spec(spec_odd)]
pub fn odd(v: u16) -> (r: bool)
    ensures
        r == spec_odd(v),
{
    v % 2 == 1
}

/// The bit below the sign bit of `v` at the given width.
pub open spec fn spec_next_bit(v: u16, w8: bool) -> bool {
    if w8 {
        v % 128 >= 64
    } else {
        v % 32768 >= 16384
    }
}

/// Computes [`spec_next_bit`].
#[verifier::when_used_as_spec(spec_next_bit)]
pub fn next_bit(v: u16, w8: bool) -> (r: bool)
    ensures
        r == spec_next_bit(v, w8),
{
    if w8 {
        v % 128 >= 64
    } else {
        v % 32768 >= 16384
    }
}

/// `v` with its two bytes exchanged.
pub open spec fn spec_swap(v: u16) -> u16 {
    (((v % 256) as u16) * 256 + ((v / 256) as u16)) as u16
}

/// Computes [`spec_swap`].
#[verifier::when_used_as_spec(spec_swap)]
pub fn swap(v: u16) -> (r: u16)
    ensures
        r == spec_swap(v),
{
    (((v % 256) as u16) * 256 + ((v / 256) as u16)) as u16
}

/// The hexadecimal digit of `v` at position `i` (0 is the lowest).
pub open spec fn spec_digit(v: u16, i: u8) -> u32 {
    if i == 0 {
        (v % 16) as u32
    } else if i == 1 {
        ((v / 16) % 16) as u32
    } else if i == 2 {
        ((v / 256) % 16) as u32
    } else {
        ((v / 4096) % 16) as u32
    }
}

/// Computes [`spec_digit`].
#[verifier::when_used_as_spec(spec_digit)]
pub fn digit(v: u16, i: u8) -> (r: u32)
    ensures
        r == spec_digit(v, i),
{
    if i == 0 {
        (v % 16) as u32
    } else if i == 1 {
        ((v / 16) % 16) as u32
    } else if i == 2 {
        ((v / 256) % 16) as u32
    } else {
        ((v / 4096) % 16) as u32
    }
}

/// The word made of four hexadecimal digits, each taken modulo 16.
pub open spec fn spec_from_digits(d0: u32, d1: u32, d2: u32, d3: u32) -> u16 {
    ((d0 % 16) + (d1 % 16) * 16 + (d2 % 16) * 256 + (d3 % 16) * 4096) as u16
}

/// Computes [`spec_from_digits`].
#[verifier::when_used_as_spec(spec_from_digits)]
pub fn from_digits(d0: u32, d1: u32, d2: u32, d3: u32) -> (r: u16)
    ensures
        r == spec_from_digits(d0, d1, d2, d3),
{
    ((d0 % 16) + (d1 % 16) * 16 + (d2 % 16) * 256 + (d3 % 16) * 4096) as u16
}

/// The 24-bit address `bank * 65536 + addr`.
pub open spec fn spec_linear(bank: u8, addr: u16) -> u32 {
    ((bank as u32) * 65536 + (addr as u32)) as u32
}

/// Computes [`spec_linear`].
#[verifier::when_used_as_spec(spec_linear)]
pub fn linear(bank: u8, addr: u16) -> (r: u32)
    ensures
        r == spec_linear(bank, addr),
{
    ((bank as u32) * 65536 + (addr as u32)) as u32
}

/// The bank of a 24-bit address.
pub open spec fn spec_bank_of(l: u32) -> u8 {
    ((l / 65536) % 256) as u8
}

/// Computes [`spec_bank_of`].
#[verifier::when_used_as_spec(spec_bank_of)]
pub fn bank_of(l: u32) -> (r: u8)
    ensures
        r == spec_bank_of(l),
{
    ((l / 65536) % 256) as u8
}

/// The offset of a 24-bit address within its bank.
pub open spec fn spec_offset_of(l: u32) -> u16 {
    (l % 65536) as u16
}

/// Computes [`spec_offset_of`].
#[verifier::when_used_as_spec(spec_offset_of)]
pub fn offset_of(l: u32) -> (r: u16)
    ensures
        r == spec_offset_of(l),
{
    (l % 65536) as u16
}

/// `bank:addr + i + k`, carried into the next bank and wrapped at 24 bits.
pub open spec fn spec_far(bank: u8, addr: u16, i: u16, k: u16) -> (u8, u16) {
    (
        ((((bank as u32) * 65536 + (addr as u32) + (i as u32) + (k as u32)) / 65536) % 256) as u8,
        (((bank as u32) * 65536 + (addr as u32) + (i as u32) + (k as u32)) % 65536) as u16,
    )
}

/// Computes [`spec_far`].
#[verifier::when_used_as_spec(spec_far)]
pub fn far(bank: u8, addr: u16, i: u16, k: u16) -> (r: (u8, u16))
    ensures
        r == spec_far(bank, addr, i, k),
{
    (
        ((((bank as u32) * 65536 + (addr as u32) + (i as u32) + (k as u32)) / 65536) % 256) as u8,
        (((bank as u32) * 65536 + (addr as u32) + (i as u32) + (k as u32)) % 65536) as u16,
    )
}

pub proof fn lemma_word_parts(x: u16)
    ensures
        spec_word(spec_lo(x), spec_hi(x)) == x,
{
}

pub proof fn lemma_parts_word(l: u8, h: u8)
    ensures
        spec_lo(spec_word(l, h)) == l,
        spec_hi(spec_word(l, h)) == h,
{
}

pub proof fn lemma_linear_parts(bank: u8, addr: u16)
    ensures
        spec_linear(bank, addr) < 0x100_0000,
        spec_bank_of(spec_linear(bank, addr)) == bank,
        spec_offset_of(spec_linear(bank, addr)) == addr,
{
}

} // verus!
