//! Arithmetic and logic at 8 and 16 bits, and the flags they give.

use crate::word::{at, digit, fit, from_digits, inv, msb, odd, shr, signed, signed_overflow, span, total};
use crate::instruction::Op;
use vstd::prelude::*;

verus! {

/// The outcome of an addition or subtraction: the value at the operation's
/// width, the carry out and the overflow flag.
#[derive(Copy, Clone, Debug, PartialEq, Eq, Structural)]
pub struct Sum {
    pub value: u16,
    pub c: bool,
    pub v: bool,
}

/// Binary `a + m + c` at the given width. The value is the sum modulo
/// `2^width`, the carry tells that the unsigned sum left the width, the
/// overflow that the signed sum did.
pub open spec fn spec_binary(a: u16, m: u16, c: bool, w8: bool) -> Sum {
    Sum {
        value: fit(total(at(a, w8), at(m, w8), c), w8),
        c: total(at(a, w8), at(m, w8), c) >= span(w8),
        v: signed_overflow(signed(a, w8), signed(m, w8), if c { 1 } else { 0 }, w8),
    }
}

/// Computes [`spec_binary`].
#[verifier::when_used_as_spec(spec_binary)]
pub fn binary(a: u16, m: u16, c: bool, w8: bool) -> (r: Sum)
    ensures
        r == spec_binary(a, m, c, w8),
{
    Sum {
        value: fit(total(at(a, w8), at(m, w8), c), w8),
        c: total(at(a, w8), at(m, w8), c) >= span(w8),
        v: signed_overflow(signed(a, w8), signed(m, w8), if c { 1 } else { 0 }, w8),
    }
}

/// The sum of the two digits at position `i` and a carry in, before any
/// decimal correction.
pub open spec fn spec_raw_digit(a: u16, m: u16, i: u8, c: bool) -> u32 {
    (digit(a, i) + digit(m, i) + (if c { 1u32 } else { 0u32 })) as u32
}

/// Computes [`spec_raw_digit`].
#[verifier::when_used_as_spec(spec_raw_digit)]
pub fn raw_digit(a: u16, m: u16, i: u8, c: bool) -> (r: u32)
    ensures
        r == spec_raw_digit(a, m, i, c),
{
    (digit(a, i) + digit(m, i) + (if c { 1u32 } else { 0u32 })) as u32
}

/// The decimal correction of one digit sum. Adding: a sum above 9 gains 6.
/// Subtracting (the subtrahend comes complemented): a sum that did not
/// carry out of the digit loses 6, modulo 16. A result above 15 carries
/// into the next digit.
pub open spec fn spec_adjust(raw: u32, sub: bool) -> u32 {
    if raw >= 32 {
        0
    } else if sub {
        if raw <= 15 {
            ((raw + 10) % 16) as u32
        } else {
            raw
        }
    } else {
        if raw > 9 {
            (raw + 6) as u32
        } else {
            raw
        }
    }
}

/// Computes [`spec_adjust`].
#[verifier::when_used_as_spec(spec_adjust)]
pub fn adjust(raw: u32, sub: bool) -> (r: u32)
    ensures
        r == spec_adjust(raw, sub),
{
    if raw >= 32 {
        0
    } else if sub {
        if raw <= 15 {
            ((raw + 10) % 16) as u32
        } else {
            raw
        }
    } else {
        if raw > 9 {
            (raw + 6) as u32
        } else {
            raw
        }
    }
}

/// Decimal `a + m + c` at the given width, digit by digit from the lowest,
/// each digit corrected by [`adjust`] and carrying into the next when the
/// corrected digit exceeds 15. The overflow flag is taken from the top digit
/// before its correction.
pub open spec fn spec_decimal(a: u16, m: u16, c: bool, w8: bool, sub: bool) -> Sum {
    let r0: u32 = raw_digit(a, m, 0, c);
    let r1: u32 = raw_digit(a, m, 1, adjust(r0, sub) > 15);
    let r2: u32 = raw_digit(a, m, 2, adjust(r1, sub) > 15);
    let r3: u32 = raw_digit(a, m, 3, adjust(r2, sub) > 15);
    if w8 {
        Sum {
            value: from_digits(adjust(r0, sub), adjust(r1, sub), 0, 0),
            c: adjust(r1, sub) > 15,
            v: msb(a, true) == msb(m, true) && msb(a, true) != (r1 % 16 >= 8),
        }
    } else {
        Sum {
            value: from_digits(adjust(r0, sub), adjust(r1, sub), adjust(r2, sub), adjust(r3, sub)),
            c: adjust(r3, sub) > 15,
            v: msb(a, false) == msb(m, false) && msb(a, false) != (r3 % 16 >= 8),
        }
    }
}

/// Computes [`spec_decimal`].
#[verifier::when_used_as_spec(spec_decimal)]
pub fn decimal(a: u16, m: u16, c: bool, w8: bool, sub: bool) -> (r: Sum)
    ensures
        r == spec_decimal(a, m, c, w8, sub),
{
    let r0: u32 = raw_digit(a, m, 0, c);
    let r1: u32 = raw_digit(a, m, 1, adjust(r0, sub) > 15);
    let r2: u32 = raw_digit(a, m, 2, adjust(r1, sub) > 15);
    let r3: u32 = raw_digit(a, m, 3, adjust(r2, sub) > 15);
    if w8 {
        Sum {
            value: from_digits(adjust(r0, sub), adjust(r1, sub), 0, 0),
            c: adjust(r1, sub) > 15,
            v: msb(a, true) == msb(m, true) && msb(a, true) != (r1 % 16 >= 8),
        }
    } else {
        Sum {
            value: from_digits(adjust(r0, sub), adjust(r1, sub), adjust(r2, sub), adjust(r3, sub)),
            c: adjust(r3, sub) > 15,
            v: msb(a, false) == msb(m, false) && msb(a, false) != (r3 % 16 >= 8),
        }
    }
}

/// Add with carry, binary or decimal.
pub open spec fn spec_adc(a: u16, m: u16, c: bool, dec: bool, w8: bool) -> Sum {
    if dec {
        decimal(a, m, c, w8, false)
    } else {
        binary(a, m, c, w8)
    }
}

/// Computes [`spec_adc`].
#[verifier::when_used_as_spec(spec_adc)]
pub fn adc(a: u16, m: u16, c: bool, dec: bool, w8: bool) -> (r: Sum)
    ensures
        r == spec_adc(a, m, c, dec, w8),
{
    if dec {
        decimal(a, m, c, w8, false)
    } else {
        binary(a, m, c, w8)
    }
}

/// Subtract with borrow: the sum of `a`, the complement of `m` and the carry.
pub open spec fn spec_sbc(a: u16, m: u16, c: bool, dec: bool, w8: bool) -> Sum {
    if dec {
        decimal(a, inv(m, w8), c, w8, true)
    } else {
        binary(a, inv(m, w8), c, w8)
    }
}

/// Computes [`spec_sbc`].
#[verifier::when_used_as_spec(spec_sbc)]
pub fn sbc(a: u16, m: u16, c: bool, dec: bool, w8: bool) -> (r: Sum)
    ensures
        r == spec_sbc(a, m, c, dec, w8),
{
    if dec {
        decimal(a, inv(m, w8), c, w8, true)
    } else {
        binary(a, inv(m, w8), c, w8)
    }
}

/// The value that a read-modify-write operation writes back, from the value
/// read, the accumulator and the carry.
pub open spec fn spec_modified(op: Op, v: u16, a: u16, c: bool, w8: bool) -> u16 {
    match op {
        Op::Asl => fit(total(at(v, w8), at(v, w8), false), w8),
        Op::Rol => fit(total(at(v, w8), at(v, w8), c), w8),
        Op::Lsr => shr(v, false, w8),
        Op::Ror => shr(v, c, w8),
        Op::Inc => fit(total(at(v, w8), 1, false), w8),
        Op::Dec => fit(total(at(v, w8), inv(0, w8), false), w8),
        Op::Tsb => v | a,
        Op::Trb => v & !a,
        _ => v,
    }
}

/// Computes [`spec_modified`].
#[verifier::when_used_as_spec(spec_modified)]
pub fn modified(op: Op, v: u16, a: u16, c: bool, w8: bool) -> (r: u16)
    ensures
        r == spec_modified(op, v, a, c, w8),
{
    match op {
        Op::Asl => fit(total(at(v, w8), at(v, w8), false), w8),
        Op::Rol => fit(total(at(v, w8), at(v, w8), c), w8),
        Op::Lsr => shr(v, false, w8),
        Op::Ror => shr(v, c, w8),
        Op::Inc => fit(total(at(v, w8), 1, false), w8),
        Op::Dec => fit(total(at(v, w8), inv(0, w8), false), w8),
        Op::Tsb => v | a,
        Op::Trb => v & !a,
        _ => v,
    }
}

/// The carry that a shift or rotate of `v` gives: the bit shifted out.
pub open spec fn spec_shifted_out(op: Op, v: u16, c: bool, w8: bool) -> bool {
    match op {
        Op::Asl | Op::Rol => msb(v, w8),
        Op::Lsr | Op::Ror => odd(v),
        _ => c,
    }
}

/// Computes [`spec_shifted_out`].
#[verifier::when_used_as_spec(spec_shifted_out)]
pub fn shifted_out(op: Op, v: u16, c: bool, w8: bool) -> (r: bool)
    ensures
        r == spec_shifted_out(op, v, c, w8),
{
    match op {
        Op::Asl | Op::Rol => msb(v, w8),
        Op::Lsr | Op::Ror => odd(v),
        _ => c,
    }
}

/// Binary subtraction is subtraction: the value is `a - m - (1 - c)` modulo
/// `2^width`, and the carry is set exactly when no borrow was needed.
pub proof fn lemma_sbc_binary(a: u16, m: u16, c: bool, w8: bool)
    ensures
        sbc(a, m, c, false, w8).value as int == (at(a, w8) - at(m, w8) - (if c { 0int } else { 1int }))
            % (span(w8) as int),
        sbc(a, m, c, false, w8).c == (at(a, w8) - at(m, w8) - (if c { 0int } else { 1int }) >= 0),
{
}

/// The correction of one decimal digit: two decimal digits and a carry add
/// up to the sum modulo 10, and carry when the sum reaches 10.
pub proof fn lemma_decimal_digit(x: u32, y: u32, c: bool)
    requires
        x <= 9,
        y <= 9,
    ensures
        ({
            let sum = x + y + (if c { 1int } else { 0int });
            &&& adjust(sum as u32, false) % 16 == sum % 10
            &&& (adjust(sum as u32, false) > 15) == (sum >= 10)
        }),
{
}

/// The two low digits of a word made from digits.
proof fn lemma_from_two_digits(x0: u32, x1: u32)
    ensures
        from_digits(x0, x1, 0, 0) % 16 == x0 % 16,
        from_digits(x0, x1, 0, 0) / 16 == x1 % 16,
{
}

/// Adding two numbers of two decimal digits, digit by digit with a carry
/// between them, gives the digits of their sum.
proof fn lemma_two_digit_sum(a0: int, a1: int, m0: int, m1: int, c: int)
    requires
        0 <= a0 <= 9,
        0 <= a1 <= 9,
        0 <= m0 <= 9,
        0 <= m1 <= 9,
        0 <= c <= 1,
    ensures
        ({
            let s0 = a0 + m0 + c;
            let s1 = a1 + m1 + (if s0 >= 10 { 1int } else { 0int });
            let sum = a1 * 10 + a0 + m1 * 10 + m0 + c;
            &&& sum % 10 == s0 % 10
            &&& (sum / 10) % 10 == s1 % 10
            &&& (sum >= 100) == (s1 >= 10)
        }),
{
    let s0 = a0 + m0 + c;
    let s1 = a1 + m1 + (if s0 >= 10 { 1int } else { 0int });
    let sum = a1 * 10 + a0 + m1 * 10 + m0 + c;
    if s0 >= 10 {
        assert(sum == 10 * s1 + (s0 - 10));
    } else {
        assert(sum == 10 * s1 + s0);
    }
}

/// Decimal addition of two 8-bit numbers whose digits are all decimal adds
/// them as decimal numbers: the digits of the value are those of the sum
/// modulo 100, and the carry tells that the sum reached 100.
pub proof fn lemma_adc_decimal_bytes(a: u16, m: u16, c: bool)
    requires
        a < 256,
        m < 256,
        a % 16 <= 9,
        a / 16 <= 9,
        m % 16 <= 9,
        m / 16 <= 9,
    ensures
        ({
            let sum = (a / 16) * 10 + a % 16 + (m / 16) * 10 + m % 16 + (if c { 1int } else { 0int });
            let r = adc(a, m, c, true, true);
            &&& r.value % 16 == sum % 10
            &&& r.value / 16 == (sum / 10) % 10
            &&& r.c == (sum >= 100)
        }),
{
    let a0 = digit(a, 0);
    let a1 = digit(a, 1);
    let m0 = digit(m, 0);
    let m1 = digit(m, 1);
    assert(a0 == a % 16 && a1 == a / 16 && m0 == m % 16 && m1 == m / 16);
    let r0 = raw_digit(a, m, 0, c);
    let c1 = adjust(r0, false) > 15;
    let r1 = raw_digit(a, m, 1, c1);
    lemma_decimal_digit(a0, m0, c);
    lemma_decimal_digit(a1, m1, c1);
    lemma_from_two_digits(adjust(r0, false), adjust(r1, false));
    lemma_two_digit_sum(a0 as int, a1 as int, m0 as int, m1 as int, if c { 1 } else { 0 });
    let r = decimal(a, m, c, true, false);
    assert(r.value == from_digits(adjust(r0, false), adjust(r1, false), 0, 0));
    assert(r.c == (adjust(r1, false) > 15));
}

} // verus!
