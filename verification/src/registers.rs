//! The architectural registers and the status byte.

use crate::word::{hi, lo, merge, msb, wide, word, zero};
use vstd::prelude::*;
use vstd::string::StringExecFns;

verus! {

/// The status byte read as eight named booleans.
pub struct Flags {
    pub c: bool,
    pub z: bool,
    pub i: bool,
    pub d: bool,
    pub x: bool,
    pub m: bool,
    pub v: bool,
    pub n: bool,
}

/// The processor status byte. Bit 0 is carry, bit 7 is negative.
///
/// The byte is stored as given: the width bits `M` and `X` can be set and
/// cleared at will, whatever the mode. The forcing of both widths to 8 bits
/// in emulation mode is a matter of [`Core`], which shadows the stored bits.
#[derive(Copy, Clone, Debug, PartialEq, Eq, Structural)]
pub struct P(pub u8);

impl View for P {
    type V = Flags;

    open spec fn view(&self) -> Flags {
        Flags {
            c: self.spec_has(P::C),
            z: self.spec_has(P::Z),
            i: self.spec_has(P::I),
            d: self.spec_has(P::D),
            x: self.spec_has(P::X),
            m: self.spec_has(P::M),
            v: self.spec_has(P::V),
            n: self.spec_has(P::N),
        }
    }
}

/// Whether `mask` is one of the eight single-bit masks.
pub open spec fn is_flag(mask: u8) -> bool {
    mask == 1 || mask == 2 || mask == 4 || mask == 8 || mask == 16 || mask == 32 || mask == 64
        || mask == 128
}

proof fn lemma_flag_bits(v: u8, m: u8, k: u8, to: bool)
    by (bit_vector)
    requires
        m == 1 || m == 2 || m == 4 || m == 8 || m == 16 || m == 32 || m == 64 || m == 128,
        k == 1 || k == 2 || k == 4 || k == 8 || k == 16 || k == 32 || k == 64 || k == 128,
    ensures
        (((v & !m) | (if to { m } else { 0u8 })) & k != 0) == (if k == m { to } else { v & k != 0 }),
{
}

proof fn lemma_mask_bits(v: u8, m: u8, k: u8)
    by (bit_vector)
    requires
        k == 1 || k == 2 || k == 4 || k == 8 || k == 16 || k == 32 || k == 64 || k == 128,
    ensures
        ((v & !m) & k != 0) == ((v & k != 0) && !(m & k != 0)),
        ((v | m) & k != 0) == ((v & k != 0) || (m & k != 0)),
{
}

proof fn lemma_byte_by_bits(a: u8, b: u8)
    by (bit_vector)
    requires
        (a & 1 != 0) == (b & 1 != 0),
        (a & 2 != 0) == (b & 2 != 0),
        (a & 4 != 0) == (b & 4 != 0),
        (a & 8 != 0) == (b & 8 != 0),
        (a & 16 != 0) == (b & 16 != 0),
        (a & 32 != 0) == (b & 32 != 0),
        (a & 64 != 0) == (b & 64 != 0),
        (a & 128 != 0) == (b & 128 != 0),
    ensures
        a == b,
{
}

impl P {
    pub const C: u8 = 1;
    pub const Z: u8 = 2;
    pub const I: u8 = 4;
    pub const D: u8 = 8;
    pub const X: u8 = 16;
    pub const M: u8 = 32;
    pub const V: u8 = 64;
    pub const N: u8 = 128;

    /// Whether the bit of `mask` is set.
    pub open spec fn spec_has(self, mask: u8) -> bool {
        self.0 & mask != 0
    }

    /// Computes [`Self::spec_has`].
    #[verifier::when_used_as_spec(spec_has)]
    pub fn has(self, mask: u8) -> (r: bool)
        ensures
            r == self.spec_has(mask),
    {
        self.0 & mask != 0
    }

    /// The byte with the bit of `mask` set to `to`.
    pub open spec fn spec_put(self, mask: u8, to: bool) -> P {
        P((self.0 & !mask) | (if to { mask } else { 0 }))
    }

    /// Computes [`Self::spec_put`].
    #[verifier::when_used_as_spec(spec_put)]
    pub fn put(self, mask: u8, to: bool) -> (r: P)
        ensures
            r == self.spec_put(mask, to),
    {
        P((self.0 & !mask) | (if to { mask } else { 0 }))
    }

    /// The byte with every flag of `mask` cleared.
    pub open spec fn spec_without(self, mask: u8) -> P {
        P(self.0 & !mask)
    }

    /// Computes [`Self::spec_without`].
    #[verifier::when_used_as_spec(spec_without)]
    pub fn without(self, mask: u8) -> (r: P)
        ensures
            r == self.spec_without(mask),
    {
        P(self.0 & !mask)
    }

    /// The byte with every flag of `mask` set.
    pub open spec fn spec_with_all(self, mask: u8) -> P {
        P(self.0 | mask)
    }

    /// Computes [`Self::spec_with_all`].
    #[verifier::when_used_as_spec(spec_with_all)]
    pub fn with_all(self, mask: u8) -> (r: P)
        ensures
            r == self.spec_with_all(mask),
    {
        P(self.0 | mask)
    }

    pub open spec fn spec_c(self) -> bool {
        self.has(P::C)
    }

    /// Computes [`Self::spec_c`].
    #[verifier::when_used_as_spec(spec_c)]
    pub fn c(self) -> (r: bool)
        ensures
            r == self.spec_c(),
    {
        self.has(P::C)
    }

    pub open spec fn spec_z(self) -> bool {
        self.has(P::Z)
    }

    /// Computes [`Self::spec_z`].
    #[verifier::when_used_as_spec(spec_z)]
    pub fn z(self) -> (r: bool)
        ensures
            r == self.spec_z(),
    {
        self.has(P::Z)
    }

    pub open spec fn spec_i(self) -> bool {
        self.has(P::I)
    }

    /// Computes [`Self::spec_i`].
    #[verifier::when_used_as_spec(spec_i)]
    pub fn i(self) -> (r: bool)
        ensures
            r == self.spec_i(),
    {
        self.has(P::I)
    }

    pub open spec fn spec_d(self) -> bool {
        self.has(P::D)
    }

    /// Computes [`Self::spec_d`].
    #[verifier::when_used_as_spec(spec_d)]
    pub fn d(self) -> (r: bool)
        ensures
            r == self.spec_d(),
    {
        self.has(P::D)
    }

    pub open spec fn spec_x(self) -> bool {
        self.has(P::X)
    }

    /// Computes [`Self::spec_x`].
    #[verifier::when_used_as_spec(spec_x)]
    pub fn x(self) -> (r: bool)
        ensures
            r == self.spec_x(),
    {
        self.has(P::X)
    }

    pub open spec fn spec_m(self) -> bool {
        self.has(P::M)
    }

    /// Computes [`Self::spec_m`].
    #[verifier::when_used_as_spec(spec_m)]
    pub fn m(self) -> (r: bool)
        ensures
            r == self.spec_m(),
    {
        self.has(P::M)
    }

    pub open spec fn spec_v(self) -> bool {
        self.has(P::V)
    }

    /// Computes [`Self::spec_v`].
    #[verifier::when_used_as_spec(spec_v)]
    pub fn v(self) -> (r: bool)
        ensures
            r == self.spec_v(),
    {
        self.has(P::V)
    }

    pub open spec fn spec_n(self) -> bool {
        self.has(P::N)
    }

    /// Computes [`Self::spec_n`].
    #[verifier::when_used_as_spec(spec_n)]
    pub fn n(self) -> (r: bool)
        ensures
            r == self.spec_n(),
    {
        self.has(P::N)
    }

    pub open spec fn spec_with_c(self, to: bool) -> P {
        self.put(P::C, to)
    }

    /// Computes [`Self::spec_with_c`].
    #[verifier::when_used_as_spec(spec_with_c)]
    pub fn with_c(self, to: bool) -> (r: P)
        ensures
            r == self.spec_with_c(to),
    {
        self.put(P::C, to)
    }

    pub open spec fn spec_with_z(self, to: bool) -> P {
        self.put(P::Z, to)
    }

    /// Computes [`Self::spec_with_z`].
    #[verifier::when_used_as_spec(spec_with_z)]
    pub fn with_z(self, to: bool) -> (r: P)
        ensures
            r == self.spec_with_z(to),
    {
        self.put(P::Z, to)
    }

    pub open spec fn spec_with_i(self, to: bool) -> P {
        self.put(P::I, to)
    }

    /// Computes [`Self::spec_with_i`].
    #[verifier::when_used_as_spec(spec_with_i)]
    pub fn with_i(self, to: bool) -> (r: P)
        ensures
            r == self.spec_with_i(to),
    {
        self.put(P::I, to)
    }

    pub open spec fn spec_with_d(self, to: bool) -> P {
        self.put(P::D, to)
    }

    /// Computes [`Self::spec_with_d`].
    #[verifier::when_used_as_spec(spec_with_d)]
    pub fn with_d(self, to: bool) -> (r: P)
        ensures
            r == self.spec_with_d(to),
    {
        self.put(P::D, to)
    }

    pub open spec fn spec_with_x(self, to: bool) -> P {
        self.put(P::X, to)
    }

    /// Computes [`Self::spec_with_x`].
    #[verifier::when_used_as_spec(spec_with_x)]
    pub fn with_x(self, to: bool) -> (r: P)
        ensures
            r == self.spec_with_x(to),
    {
        self.put(P::X, to)
    }

    pub open spec fn spec_with_m(self, to: bool) -> P {
        self.put(P::M, to)
    }

    /// Computes [`Self::spec_with_m`].
    #[verifier::when_used_as_spec(spec_with_m)]
    pub fn with_m(self, to: bool) -> (r: P)
        ensures
            r == self.spec_with_m(to),
    {
        self.put(P::M, to)
    }

    pub open spec fn spec_with_v(self, to: bool) -> P {
        self.put(P::V, to)
    }

    /// Computes [`Self::spec_with_v`].
    #[verifier::when_used_as_spec(spec_with_v)]
    pub fn with_v(self, to: bool) -> (r: P)
        ensures
            r == self.spec_with_v(to),
    {
        self.put(P::V, to)
    }

    pub open spec fn spec_with_n(self, to: bool) -> P {
        self.put(P::N, to)
    }

    /// Computes [`Self::spec_with_n`].
    #[verifier::when_used_as_spec(spec_with_n)]
    pub fn with_n(self, to: bool) -> (r: P)
        ensures
            r == self.spec_with_n(to),
    {
        self.put(P::N, to)
    }

    pub fn set_c(&mut self, to: bool)
        ensures
            *final(self) == old(self).with_c(to),
            final(self)@ == (Flags { c: to, ..old(self)@ }),
    {
        broadcast use P::lemma_put_has;

        *self = self.put(P::C, to);
    }

    pub fn set_z(&mut self, to: bool)
        ensures
            *final(self) == old(self).with_z(to),
            final(self)@ == (Flags { z: to, ..old(self)@ }),
    {
        broadcast use P::lemma_put_has;

        *self = self.put(P::Z, to);
    }

    pub fn set_i(&mut self, to: bool)
        ensures
            *final(self) == old(self).with_i(to),
            final(self)@ == (Flags { i: to, ..old(self)@ }),
    {
        broadcast use P::lemma_put_has;

        *self = self.put(P::I, to);
    }

    pub fn set_d(&mut self, to: bool)
        ensures
            *final(self) == old(self).with_d(to),
            final(self)@ == (Flags { d: to, ..old(self)@ }),
    {
        broadcast use P::lemma_put_has;

        *self = self.put(P::D, to);
    }

    pub fn set_x(&mut self, to: bool)
        ensures
            *final(self) == old(self).with_x(to),
            final(self)@ == (Flags { x: to, ..old(self)@ }),
    {
        broadcast use P::lemma_put_has;

        *self = self.put(P::X, to);
    }

    pub fn set_m(&mut self, to: bool)
        ensures
            *final(self) == old(self).with_m(to),
            final(self)@ == (Flags { m: to, ..old(self)@ }),
    {
        broadcast use P::lemma_put_has;

        *self = self.put(P::M, to);
    }

    pub fn set_v(&mut self, to: bool)
        ensures
            *final(self) == old(self).with_v(to),
            final(self)@ == (Flags { v: to, ..old(self)@ }),
    {
        broadcast use P::lemma_put_has;

        *self = self.put(P::V, to);
    }

    pub fn set_n(&mut self, to: bool)
        ensures
            *final(self) == old(self).with_n(to),
            final(self)@ == (Flags { n: to, ..old(self)@ }),
    {
        broadcast use P::lemma_put_has;

        *self = self.put(P::N, to);
    }

    /// The flags as eight characters, `N` first and `C` last: each flag's
    /// letter where the flag is set, a dash where it is clear.
    pub open spec fn spec_text(self) -> Seq<char> {
        seq![
            if self.n() { 'N' } else { '-' },
            if self.v() { 'V' } else { '-' },
            if self.m() { 'M' } else { '-' },
            if self.x() { 'X' } else { '-' },
            if self.d() { 'D' } else { '-' },
            if self.i() { 'I' } else { '-' },
            if self.z() { 'Z' } else { '-' },
            if self.c() { 'C' } else { '-' },
        ]
    }

    /// Renders the flags for a reader; see [`Self::spec_text`].
    pub fn text(&self) -> (r: String)
        ensures
            r@ == self.spec_text(),
    {
        proof {
            reveal_strlit("N");
            reveal_strlit("V");
            reveal_strlit("M");
            reveal_strlit("X");
            reveal_strlit("D");
            reveal_strlit("I");
            reveal_strlit("Z");
            reveal_strlit("C");
            reveal_strlit("-");
        }
        let mut s = String::new();
        s.append(if self.n() { "N" } else { "-" });
        s.append(if self.v() { "V" } else { "-" });
        s.append(if self.m() { "M" } else { "-" });
        s.append(if self.x() { "X" } else { "-" });
        s.append(if self.d() { "D" } else { "-" });
        s.append(if self.i() { "I" } else { "-" });
        s.append(if self.z() { "Z" } else { "-" });
        s.append(if self.c() { "C" } else { "-" });
        assert(s@ =~= self.spec_text());
        s
    }

    /// Writing one flag changes that flag and no other.
    pub broadcast proof fn lemma_put_has(self, mask: u8, to: bool, k: u8)
        requires
            is_flag(mask),
            is_flag(k),
        ensures
            #[trigger] self.spec_put(mask, to).spec_has(k) == (if k == mask {
                to
            } else {
                self.spec_has(k)
            }),
    {
        lemma_flag_bits(self.0, mask, k, to);
    }

    /// Clearing flags by a mask clears those of the mask and no other.
    pub broadcast proof fn lemma_without_has(self, mask: u8, k: u8)
        requires
            is_flag(k),
        ensures
            #[trigger] self.spec_without(mask).spec_has(k) == (self.spec_has(k) && !P(mask).spec_has(k)),
    {
        lemma_mask_bits(self.0, mask, k);
    }

    /// Setting flags by a mask sets those of the mask and no other.
    pub broadcast proof fn lemma_with_all_has(self, mask: u8, k: u8)
        requires
            is_flag(k),
        ensures
            #[trigger] self.spec_with_all(mask).spec_has(k) == (self.spec_has(k) || P(mask).spec_has(k)),
    {
        lemma_mask_bits(self.0, mask, k);
    }

    pub broadcast group group_flags {
        P::lemma_put_has,
        P::lemma_without_has,
        P::lemma_with_all_has,
    }

    /// The eight flags determine the byte.
    pub proof fn lemma_view_determines(self, other: P)
        requires
            self@ == other@,
        ensures
            self == other,
    {
        lemma_byte_by_bits(self.0, other.0);
    }
}

/// The register file.
///
/// The status byte is stored as given, in every mode. In emulation mode the
/// processor acts as if both width flags were set, whatever the stored bits
/// say: [`Core::m8`] and [`Core::x8`] give the widths in force, and the
/// engine reads the widths nowhere else. The stored bits change only when
/// an instruction writes them.
#[derive(Copy, Clone, Debug, PartialEq, Eq, Structural)]
pub struct Core {
    pub a: u16,
    pub d: u16,
    pub dbr: u8,
    pub e: bool,
    pub p: P,
    pub pbr: u8,
    pub pc: u16,
    pub s: u16,
    pub x: u16,
    pub y: u16,
}

impl Core {
    /// Whether the accumulator is 8 bits wide: always in emulation mode,
    /// else by the `M` flag.
    pub open spec fn spec_m8(self) -> bool {
        self.e || self.p.m()
    }

    /// Computes [`Self::spec_m8`].
    #[verifier::when_used_as_spec(spec_m8)]
    pub fn m8(self) -> (r: bool)
        ensures
            r == self.spec_m8(),
    {
        self.e || self.p.m()
    }

    /// Whether the index registers are 8 bits wide: always in emulation
    /// mode, else by the `X` flag.
    pub open spec fn spec_x8(self) -> bool {
        self.e || self.p.x()
    }

    /// Computes [`Self::spec_x8`].
    #[verifier::when_used_as_spec(spec_x8)]
    pub fn x8(self) -> (r: bool)
        ensures
            r == self.spec_x8(),
    {
        self.e || self.p.x()
    }

    /// What the mode and the widths in force hold the registers to: in
    /// emulation mode the stack lies in page 1, and index registers of 8
    /// bits have a zero high byte. The stored width flags are free.
    pub open spec fn valid(self) -> bool {
        &&& self.e ==> hi(self.s) == 1
        &&& self.x8() ==> hi(self.x) == 0 && hi(self.y) == 0
    }

    /// Whether the two register files are the same to the engine: equal,
    /// but for the stored width flags in emulation mode, where they do not
    /// count.
    pub open spec fn alike(self, other: Core) -> bool {
        if self.e {
            &&& (Core { p: other.p, ..self }) == other
            &&& self.p.c() == other.p.c()
            &&& self.p.z() == other.p.z()
            &&& self.p.i() == other.p.i()
            &&& self.p.d() == other.p.d()
            &&& self.p.v() == other.p.v()
            &&& self.p.n() == other.p.n()
        } else {
            self == other
        }
    }

    /// The accumulator written at its width in force.
    pub open spec fn spec_with_a(self, v: u16) -> Core {
        Core { a: merge(self.a, v, self.m8()), ..self }
    }

    /// Computes [`Self::spec_with_a`].
    #[verifier::when_used_as_spec(spec_with_a)]
    pub fn with_a(self, v: u16) -> (r: Core)
        ensures
            r == self.spec_with_a(v),
    {
        Core { a: merge(self.a, v, self.m8()), ..self }
    }

    /// The X register written at the index width in force.
    pub open spec fn spec_with_x(self, v: u16) -> Core {
        Core { x: if self.x8() { wide(lo(v)) } else { v }, ..self }
    }

    /// Computes [`Self::spec_with_x`].
    #[verifier::when_used_as_spec(spec_with_x)]
    pub fn with_x(self, v: u16) -> (r: Core)
        ensures
            r == self.spec_with_x(v),
    {
        Core { x: if self.x8() { wide(lo(v)) } else { v }, ..self }
    }

    /// The Y register written at the index width in force.
    pub open spec fn spec_with_y(self, v: u16) -> Core {
        Core { y: if self.x8() { wide(lo(v)) } else { v }, ..self }
    }

    /// Computes [`Self::spec_with_y`].
    #[verifier::when_used_as_spec(spec_with_y)]
    pub fn with_y(self, v: u16) -> (r: Core)
        ensures
            r == self.spec_with_y(v),
    {
        Core { y: if self.x8() { wide(lo(v)) } else { v }, ..self }
    }

    /// The stack pointer written; in emulation mode its high byte is 1.
    pub open spec fn spec_with_s(self, v: u16) -> Core {
        Core { s: if self.e { word(lo(v), 1) } else { v }, ..self }
    }

    /// Computes [`Self::spec_with_s`].
    #[verifier::when_used_as_spec(spec_with_s)]
    pub fn with_s(self, v: u16) -> (r: Core)
        ensures
            r == self.spec_with_s(v),
    {
        Core { s: if self.e { word(lo(v), 1) } else { v }, ..self }
    }

    /// One flag written.
    pub open spec fn spec_with_flag(self, mask: u8, to: bool) -> Core {
        Core { p: self.p.put(mask, to), ..self }
    }

    /// Computes [`Self::spec_with_flag`].
    #[verifier::when_used_as_spec(spec_with_flag)]
    pub fn with_flag(self, mask: u8, to: bool) -> (r: Core)
        ensures
            r == self.spec_with_flag(mask, to),
    {
        Core { p: self.p.put(mask, to), ..self }
    }

    /// The flags `N` and `Z` set from `v` at the given width.
    pub open spec fn spec_with_nz(self, v: u16, w8: bool) -> Core {
        Core { p: self.p.put(P::N, msb(v, w8)).put(P::Z, zero(v, w8)), ..self }
    }

    /// Computes [`Self::spec_with_nz`].
    #[verifier::when_used_as_spec(spec_with_nz)]
    pub fn with_nz(self, v: u16, w8: bool) -> (r: Core)
        ensures
            r == self.spec_with_nz(v, w8),
    {
        Core { p: self.p.put(P::N, msb(v, w8)).put(P::Z, zero(v, w8)), ..self }
    }

    /// The status byte loaded by an instruction: in emulation mode both
    /// width flags come out set, and index registers of 8 bits lose their
    /// high byte.
    pub open spec fn spec_with_p(self, p: P) -> Core {
        if self.e {
            Core { p: p.put(P::M, true).put(P::X, true), x: wide(lo(self.x)), y: wide(lo(self.y)), ..self }
        } else if p.x() {
            Core { p, x: wide(lo(self.x)), y: wide(lo(self.y)), ..self }
        } else {
            Core { p, ..self }
        }
    }

    /// Computes [`Self::spec_with_p`].
    #[verifier::when_used_as_spec(spec_with_p)]
    pub fn with_p(self, p: P) -> (r: Core)
        ensures
            r == self.spec_with_p(p),
    {
        if self.e {
            Core { p: p.put(P::M, true).put(P::X, true), x: wide(lo(self.x)), y: wide(lo(self.y)), ..self }
        } else if p.x() {
            Core { p, x: wide(lo(self.x)), y: wide(lo(self.y)), ..self }
        } else {
            Core { p, ..self }
        }
    }

    /// The mode switched by an instruction. Entering emulation sets both
    /// width flags, clears the high bytes of the index registers and moves
    /// the stack to page 1. Leaving it sets both width flags, so that the
    /// widths stay at 8 bits until they are changed.
    pub open spec fn spec_with_e(self, e: bool) -> Core {
        if e {
            Core {
                e: true,
                p: self.p.put(P::M, true).put(P::X, true),
                s: word(lo(self.s), 1),
                x: wide(lo(self.x)),
                y: wide(lo(self.y)),
                ..self
            }
        } else if self.e {
            Core { e: false, p: self.p.put(P::M, true).put(P::X, true), ..self }
        } else {
            self
        }
    }

    /// Computes [`Self::spec_with_e`].
    #[verifier::when_used_as_spec(spec_with_e)]
    pub fn with_e(self, e: bool) -> (r: Core)
        ensures
            r == self.spec_with_e(e),
    {
        if e {
            Core {
                e: true,
                p: self.p.put(P::M, true).put(P::X, true),
                s: word(lo(self.s), 1),
                x: wide(lo(self.x)),
                y: wide(lo(self.y)),
                ..self
            }
        } else if self.e {
            Core { e: false, p: self.p.put(P::M, true).put(P::X, true), ..self }
        } else {
            self
        }
    }

    /// The registers as the processor takes them in: the status byte and
    /// all else as given, but the stack in page 1 in emulation mode, and
    /// index registers of 8 bits without their high byte.
    pub open spec fn spec_normalized(self) -> Core {
        Core {
            s: if self.e { word(lo(self.s), 1) } else { self.s },
            x: if self.x8() { wide(lo(self.x)) } else { self.x },
            y: if self.x8() { wide(lo(self.y)) } else { self.y },
            ..self
        }
    }

    /// Computes [`Self::spec_normalized`].
    #[verifier::when_used_as_spec(spec_normalized)]
    pub fn normalized(self) -> (r: Core)
        ensures
            r == self.spec_normalized(),
    {
        Core {
            s: if self.e { word(lo(self.s), 1) } else { self.s },
            x: if self.x8() { wide(lo(self.x)) } else { self.x },
            y: if self.x8() { wide(lo(self.y)) } else { self.y },
            ..self
        }
    }

    /// Writing a flag other than a width flag keeps the registers valid.
    pub broadcast proof fn lemma_with_flag_valid(self, mask: u8, to: bool)
        requires
            self.valid(),
            is_flag(mask),
            mask != P::M,
            mask != P::X,
        ensures
            (#[trigger] self.spec_with_flag(mask, to)).valid(),
    {
        broadcast use P::lemma_put_has;

    }

    /// Setting `N` and `Z` keeps the registers valid.
    pub broadcast proof fn lemma_with_nz_valid(self, v: u16, w8: bool)
        requires
            self.valid(),
        ensures
            (#[trigger] self.spec_with_nz(v, w8)).valid(),
    {
        broadcast use P::lemma_put_has;

    }

    /// Writing the accumulator keeps the registers valid.
    pub broadcast proof fn lemma_with_a_valid(self, v: u16)
        requires
            self.valid(),
        ensures
            (#[trigger] self.spec_with_a(v)).valid(),
    {
    }

    /// Writing X keeps the registers valid.
    pub broadcast proof fn lemma_with_x_valid(self, v: u16)
        requires
            self.valid(),
        ensures
            (#[trigger] self.spec_with_x(v)).valid(),
    {
    }

    /// Writing Y keeps the registers valid.
    pub broadcast proof fn lemma_with_y_valid(self, v: u16)
        requires
            self.valid(),
        ensures
            (#[trigger] self.spec_with_y(v)).valid(),
    {
    }

    /// Writing the stack pointer keeps the registers valid.
    pub broadcast proof fn lemma_with_s_valid(self, v: u16)
        requires
            self.valid(),
        ensures
            (#[trigger] self.spec_with_s(v)).valid(),
    {
    }

    /// Loading the status byte keeps the registers valid.
    pub broadcast proof fn lemma_with_p_valid(self, p: P)
        requires
            self.valid(),
        ensures
            (#[trigger] self.spec_with_p(p)).valid(),
    {
        broadcast use P::lemma_put_has;

    }

    /// Switching the mode keeps the registers valid.
    pub broadcast proof fn lemma_with_e_valid(self, e: bool)
        requires
            self.valid(),
        ensures
            (#[trigger] self.spec_with_e(e)).valid(),
    {
        broadcast use P::lemma_put_has;

    }

    /// What setting `N` and `Z` gives: the two flags, and nothing else changed.
    pub proof fn lemma_with_nz(self, v: u16, w8: bool)
        ensures
            self.with_nz(v, w8).p.n() == msb(v, w8),
            self.with_nz(v, w8).p.z() == zero(v, w8),
            self.with_nz(v, w8).p@ == (Flags { n: msb(v, w8), z: zero(v, w8), ..self.p@ }),
            self.with_nz(v, w8) == (Core { p: self.with_nz(v, w8).p, ..self }),
    {
        broadcast use P::lemma_put_has;

    }

    pub broadcast group group_keeps_valid {
        Core::lemma_with_flag_valid,
        Core::lemma_with_nz_valid,
        Core::lemma_with_a_valid,
        Core::lemma_with_x_valid,
        Core::lemma_with_y_valid,
        Core::lemma_with_s_valid,
        Core::lemma_with_p_valid,
        Core::lemma_with_e_valid,
    }

    /// In emulation mode both widths are 8 bits, whatever the stored flags.
    pub proof fn lemma_emulation_forces_widths(self)
        requires
            self.e,
        ensures
            self.m8(),
            self.x8(),
    {
    }

    /// Taking registers in gives valid ones, keeps the status byte and
    /// every register but S, X and Y, and changes nothing in valid ones.
    pub proof fn lemma_normalized(self)
        ensures
            self.normalized().valid(),
            self.normalized() == (Core {
                s: self.normalized().s,
                x: self.normalized().x,
                y: self.normalized().y,
                ..self
            }),
            self.normalized().p == self.p,
            self.valid() ==> self.normalized() == self,
    {
        crate::word::lemma_parts_word(lo(self.s), 1);
        crate::word::lemma_word_parts(self.s);
        crate::word::lemma_word_parts(self.x);
        crate::word::lemma_word_parts(self.y);
    }
}

} // verus!
