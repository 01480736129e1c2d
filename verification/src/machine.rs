//! The execution engine as a state machine: one transition per clock cycle.

use crate::alu::{adc, modified, sbc, shifted_out, Sum};
use crate::bus::{Inputs, Request};
use crate::instruction::{decode, Class, Instr, Mode, Op, Width};
use crate::microcode::{script, Micro};
use crate::registers::{Core, P};
use crate::word::{at, far, fit, hi, inv, lo, msb, next_bit, sext, swap, total, wide, word, zero};
use vstd::prelude::*;

verus! {

/// A read of `bank:addr`.
pub open spec fn spec_read_request(bank: u8, addr: u16, vda: bool, vpa: bool) -> Request {
    Request { bank, addr, data: 0, rw: true, vda, vpa, vp: false, ml: false }
}

/// Computes [`spec_read_request`].
#[verifier::when_used_as_spec(spec_read_request)]
pub fn read_request(bank: u8, addr: u16, vda: bool, vpa: bool) -> (r: Request)
    ensures
        r == spec_read_request(bank, addr, vda, vpa),
{
    Request { bank, addr, data: 0, rw: true, vda, vpa, vp: false, ml: false }
}

/// A write of `data` to `bank:addr`.
pub open spec fn spec_write_request(bank: u8, addr: u16, data: u8) -> Request {
    Request { bank, addr, data, rw: false, vda: true, vpa: false, vp: false, ml: false }
}

/// Computes [`spec_write_request`].
#[verifier::when_used_as_spec(spec_write_request)]
pub fn write_request(bank: u8, addr: u16, data: u8) -> (r: Request)
    ensures
        r == spec_write_request(bank, addr, data),
{
    Request { bank, addr, data, rw: false, vda: true, vpa: false, vp: false, ml: false }
}

/// An internal cycle with `bank:addr` on the address bus.
pub open spec fn spec_idle_request(bank: u8, addr: u16) -> Request {
    Request { bank, addr, data: 0, rw: true, vda: false, vpa: false, vp: false, ml: false }
}

/// Computes [`spec_idle_request`].
#[verifier::when_used_as_spec(spec_idle_request)]
pub fn idle_request(bank: u8, addr: u16) -> (r: Request)
    ensures
        r == spec_idle_request(bank, addr),
{
    Request { bank, addr, data: 0, rw: true, vda: false, vpa: false, vp: false, ml: false }
}

/// The registers after an addition or subtraction into the accumulator.
pub open spec fn spec_after_sum(c: Core, sum: Sum) -> Core {
    c.with_flag(P::C, sum.c).with_flag(P::V, sum.v).with_a(sum.value).with_nz(sum.value, c.m8())
}

/// Computes [`spec_after_sum`].
#[verifier::when_used_as_spec(spec_after_sum)]
pub fn after_sum(c: Core, sum: Sum) -> (r: Core)
    ensures
        r == spec_after_sum(c, sum),
{
    c.with_flag(P::C, sum.c).with_flag(P::V, sum.v).with_a(sum.value).with_nz(sum.value, c.m8())
}

/// The registers after comparing `r` with `m`: carry when `r >= m`, and
/// `N` and `Z` from the difference, all at the given width.
pub open spec fn spec_compared(c: Core, r: u16, m: u16, w8: bool) -> Core {
    c.with_flag(P::C, at(r, w8) >= at(m, w8)).with_nz(fit(total(at(r, w8), inv(m, w8), true), w8), w8)
}

/// Computes [`spec_compared`].
#[verifier::when_used_as_spec(spec_compared)]
pub fn compared(c: Core, r: u16, m: u16, w8: bool) -> (out: Core)
    ensures
        out == spec_compared(c, r, m, w8),
{
    c.with_flag(P::C, at(r, w8) >= at(m, w8)).with_nz(fit(total(at(r, w8), inv(m, w8), true), w8), w8)
}

/// The flags after a read-modify-write of the value `v`.
pub open spec fn spec_after_modify(c: Core, op: Op, v: u16, w8: bool) -> Core {
    match op {
        Op::Asl | Op::Rol | Op::Lsr | Op::Ror => c.with_flag(P::C, shifted_out(op, v, c.p.c(), w8)).with_nz(
            modified(op, v, c.a, c.p.c(), w8),
            w8,
        ),
        Op::Inc | Op::Dec => c.with_nz(modified(op, v, c.a, c.p.c(), w8), w8),
        Op::Tsb | Op::Trb => c.with_flag(P::Z, zero(c.a & v, w8)),
        _ => c,
    }
}

/// Computes [`spec_after_modify`].
#[verifier::when_used_as_spec(spec_after_modify)]
pub fn after_modify(c: Core, op: Op, v: u16, w8: bool) -> (r: Core)
    ensures
        r == spec_after_modify(c, op, v, w8),
{
    match op {
        Op::Asl | Op::Rol | Op::Lsr | Op::Ror => c.with_flag(P::C, shifted_out(op, v, c.p.c(), w8)).with_nz(
            modified(op, v, c.a, c.p.c(), w8),
            w8,
        ),
        Op::Inc | Op::Dec => c.with_nz(modified(op, v, c.a, c.p.c(), w8), w8),
        Op::Tsb | Op::Trb => c.with_flag(P::Z, zero(c.a & v, w8)),
        _ => c,
    }
}

/// The registers that a reset forces: emulation mode, interrupts disabled,
/// decimal mode off, and the direct page and both bank registers zero.
pub open spec fn spec_reset_core(c: Core) -> Core {
    Core { d: 0, dbr: 0, pbr: 0, p: c.p.with_i(true).with_d(false), ..c }.with_e(true)
}

/// Computes [`spec_reset_core`].
#[verifier::when_used_as_spec(spec_reset_core)]
pub fn reset_core(c: Core) -> (r: Core)
    ensures
        r == spec_reset_core(c),
{
    Core { d: 0, dbr: 0, pbr: 0, p: c.p.with_i(true).with_d(false), ..c }.with_e(true)
}

/// The whole state of the engine between two clock cycles.
///
/// `micro` is the cycle that is on the bus and `req` what it asks; `t` is
/// its position in the row of `instr`. The other fields hold what the
/// instruction has gathered so far: operand bytes in `arg` and `bank`, a
/// pointer read from memory in `ptr` (its bank in `bank`), data in `val`,
/// and the stack pointer as the instruction moves it in `sp`. The registers
/// in `core` change when a cycle completes; the stack pointer among them
/// when the instruction does. `nmi_line` is the level of NMI when it was
/// last sampled.
#[derive(Copy, Clone, Debug, PartialEq, Eq, Structural)]
pub struct Machine {
    pub core: Core,
    pub instr: Instr,
    pub t: u8,
    pub micro: Micro,
    pub req: Request,
    pub arg: u16,
    pub bank: u8,
    pub ptr: u16,
    pub val: u16,
    pub sp: u16,
    pub nmi_line: bool,
}

impl Machine {
    /// The state at power-on: the registers as the processor takes them in
    /// (see [`Core::spec_normalized`]: the status byte is kept as given),
    /// and an internal cycle on the bus, after which the first opcode is
    /// fetched.
    pub open spec fn spec_power_on(core: Core) -> Machine {
        Machine {
            core: core.normalized(),
            instr: Instr { op: Op::Nop, mode: Mode::Implied },
            t: 1,
            micro: Micro::IoPc,
            req: idle_request(core.normalized().pbr, core.normalized().pc),
            arg: 0,
            bank: 0,
            ptr: 0,
            val: 0,
            sp: core.normalized().s,
            nmi_line: false,
        }
    }

    /// Computes [`Self::spec_power_on`].
    #[verifier::when_used_as_spec(spec_power_on)]
    pub fn power_on(core: Core) -> (r: Machine)
        ensures
            r == Self::spec_power_on(core),
    {
        Machine {
            core: core.normalized(),
            instr: Instr { op: Op::Nop, mode: Mode::Implied },
            t: 1,
            micro: Micro::IoPc,
            req: idle_request(core.normalized().pbr, core.normalized().pc),
            arg: 0,
            bank: 0,
            ptr: 0,
            val: 0,
            sp: core.normalized().s,
            nmi_line: false,
        }
    }

    /// Whether the data of the instruction is one byte wide.
    pub open spec fn spec_width8(self) -> bool {
        match self.instr.op.width() {
            Width::Acc => self.core.m8(),
            Width::Index => self.core.x8(),
            Width::Byte => true,
            Width::Word => false,
        }
    }

    /// Computes [`Self::spec_width8`].
    #[verifier::when_used_as_spec(spec_width8)]
    pub fn width8(self) -> (r: bool)
        ensures
            r == self.spec_width8(),
    {
        match self.instr.op.width() {
            Width::Acc => self.core.m8(),
            Width::Index => self.core.x8(),
            Width::Byte => true,
            Width::Word => false,
        }
    }

    /// The index register of the addressing mode, or zero.
    pub open spec fn spec_index(self) -> u16 {
        match self.instr.mode {
            Mode::DirectX | Mode::DirectIndexedIndirect | Mode::AbsoluteX | Mode::AbsoluteLongX
            | Mode::AbsoluteIndexedIndirect => self.core.x,
            Mode::DirectY | Mode::DirectIndirectIndexed | Mode::DirectIndirectLongIndexed
            | Mode::AbsoluteY | Mode::StackRelativeIndirectIndexed => self.core.y,
            _ => 0,
        }
    }

    /// Computes [`Self::spec_index`].
    #[verifier::when_used_as_spec(spec_index)]
    pub fn index(self) -> (r: u16)
        ensures
            r == self.spec_index(),
    {
        match self.instr.mode {
            Mode::DirectX | Mode::DirectIndexedIndirect | Mode::AbsoluteX | Mode::AbsoluteLongX
            | Mode::AbsoluteIndexedIndirect => self.core.x,
            Mode::DirectY | Mode::DirectIndirectIndexed | Mode::DirectIndirectLongIndexed
            | Mode::AbsoluteY | Mode::StackRelativeIndirectIndexed => self.core.y,
            _ => 0,
        }
    }

    /// The address that the index is added to: the operand for the absolute
    /// modes, the pointer for the indirect ones.
    pub open spec fn spec_index_base(self) -> u16 {
        match self.instr.mode {
            Mode::AbsoluteX | Mode::AbsoluteY => self.arg,
            _ => self.ptr,
        }
    }

    /// Computes [`Self::spec_index_base`].
    #[verifier::when_used_as_spec(spec_index_base)]
    pub fn index_base(self) -> (r: u16)
        ensures
            r == self.spec_index_base(),
    {
        match self.instr.mode {
            Mode::AbsoluteX | Mode::AbsoluteY => self.arg,
            _ => self.ptr,
        }
    }

    /// Whether the branch is taken.
    pub open spec fn spec_taken(self) -> bool {
        match self.instr.op {
            Op::Bpl => !self.core.p.n(),
            Op::Bmi => self.core.p.n(),
            Op::Bvc => !self.core.p.v(),
            Op::Bvs => self.core.p.v(),
            Op::Bcc => !self.core.p.c(),
            Op::Bcs => self.core.p.c(),
            Op::Bne => !self.core.p.z(),
            Op::Beq => self.core.p.z(),
            Op::Bra => true,
            _ => false,
        }
    }

    /// Computes [`Self::spec_taken`].
    #[verifier::when_used_as_spec(spec_taken)]
    pub fn taken(self) -> (r: bool)
        ensures
            r == self.spec_taken(),
    {
        match self.instr.op {
            Op::Bpl => !self.core.p.n(),
            Op::Bmi => self.core.p.n(),
            Op::Bvc => !self.core.p.v(),
            Op::Bvs => self.core.p.v(),
            Op::Bcc => !self.core.p.c(),
            Op::Bcs => self.core.p.c(),
            Op::Bne => !self.core.p.z(),
            Op::Beq => self.core.p.z(),
            Op::Bra => true,
            _ => false,
        }
    }

    /// Where a taken branch goes: the program counter plus the signed operand.
    pub open spec fn spec_target(self) -> u16 {
        self.core.pc.wrapping_add(sext(lo(self.arg)))
    }

    /// Computes [`Self::spec_target`].
    #[verifier::when_used_as_spec(spec_target)]
    pub fn target(self) -> (r: u16)
        ensures
            r == self.spec_target(),
    {
        self.core.pc.wrapping_add(sext(lo(self.arg)))
    }

    /// Whether the cycle `micro` is left out as the machine stands.
    ///
    /// High bytes are left out at 8 bits. The direct page costs a cycle
    /// when its low byte is not zero. Indexing costs a cycle on a write or
    /// a read-modify-write, with 16-bit index registers, and when the index
    /// carries into the next page. A branch costs a cycle when taken, and
    /// one more in emulation mode when it leaves its page. In emulation
    /// mode interrupts push no program bank and `RTI` pulls none.
    pub open spec fn spec_skips(self, micro: Micro) -> bool {
        match micro {
            Micro::Imm1 | Micro::Read1 | Micro::Write1 | Micro::Store1 | Micro::PushH | Micro::PullH => self.width8(),
            Micro::IoDp => lo(self.core.d) == 0,
            Micro::IoIndex => self.instr.op.class() == Class::Read && self.core.x8() && hi(
                self.index_base().wrapping_add(self.index()),
            ) == hi(self.index_base()),
            Micro::IoTaken => !self.taken(),
            Micro::IoCross => !(self.taken() && self.core.e && hi(self.target()) != hi(self.core.pc)),
            Micro::PushK => self.core.e && self.instr.op.is_interrupt(),
            Micro::PullB => self.core.e && self.instr.op == Op::Rti,
            _ => false,
        }
    }

    /// Computes [`Self::spec_skips`].
    #[verifier::when_used_as_spec(spec_skips)]
    pub fn skips(self, micro: Micro) -> (r: bool)
        ensures
            r == self.spec_skips(micro),
    {
        match micro {
            Micro::Imm1 | Micro::Read1 | Micro::Write1 | Micro::Store1 | Micro::PushH | Micro::PullH => self.width8(),
            Micro::IoDp => lo(self.core.d) == 0,
            Micro::IoIndex => self.instr.op.class() == Class::Read && self.core.x8() && hi(
                self.index_base().wrapping_add(self.index()),
            ) == hi(self.index_base()),
            Micro::IoTaken => !self.taken(),
            Micro::IoCross => !(self.taken() && self.core.e && hi(self.target()) != hi(self.core.pc)),
            Micro::PushK => self.core.e && self.instr.op.is_interrupt(),
            Micro::PullB => self.core.e && self.instr.op == Op::Rti,
            _ => false,
        }
    }

    /// The position of the next cycle that is not left out. No row has
    /// more than two cycles in sequence that can be left out.
    pub open spec fn spec_next_index(self) -> u8 {
        if self.t >= 16 {
            self.t
        } else if !self.skips(script(self.instr, (self.t + 1) as u8)) {
            (self.t + 1) as u8
        } else if !self.skips(script(self.instr, (self.t + 2) as u8)) {
            (self.t + 2) as u8
        } else {
            (self.t + 3) as u8
        }
    }

    /// Computes [`Self::spec_next_index`].
    #[verifier::when_used_as_spec(spec_next_index)]
    pub fn next_index(self) -> (r: u8)
        ensures
            r == self.spec_next_index(),
    {
        if self.t >= 16 {
            self.t
        } else if !self.skips(script(self.instr, (self.t + 1) as u8)) {
            (self.t + 1) as u8
        } else if !self.skips(script(self.instr, (self.t + 2) as u8)) {
            (self.t + 2) as u8
        } else {
            (self.t + 3) as u8
        }
    }

    /// Byte `k` at offset `off` of the direct page. In emulation mode with
    /// a page-aligned direct page the instructions of the 6502 stay within
    /// that page (`legacy`); otherwise the address wraps within bank 0.
    pub open spec fn spec_direct_addr(self, off: u16, k: u16, legacy: bool) -> u16 {
        if legacy && self.core.e && lo(self.core.d) == 0 {
            word(lo(off.wrapping_add(k)), hi(self.core.d))
        } else {
            self.core.d.wrapping_add(off).wrapping_add(k)
        }
    }

    /// Computes [`Self::spec_direct_addr`].
    #[verifier::when_used_as_spec(spec_direct_addr)]
    pub fn direct_addr(self, off: u16, k: u16, legacy: bool) -> (r: u16)
        ensures
            r == self.spec_direct_addr(off, k, legacy),
    {
        if legacy && self.core.e && lo(self.core.d) == 0 {
            word(lo(off.wrapping_add(k)), hi(self.core.d))
        } else {
            self.core.d.wrapping_add(off).wrapping_add(k)
        }
    }

    /// Where byte `k` of the pointer of an indirect mode is read.
    pub open spec fn spec_ptr_addr(self, k: u16) -> (u8, u16) {
        match self.instr.mode {
            Mode::DirectIndirect | Mode::DirectIndirectIndexed => (0, self.direct_addr(self.arg, k, true)),
            Mode::DirectIndexedIndirect => (0, self.direct_addr(self.arg.wrapping_add(self.core.x), k, true)),
            Mode::DirectIndirectLong | Mode::DirectIndirectLongIndexed | Mode::Stack => (
                0,
                self.direct_addr(self.arg, k, false),
            ),
            Mode::AbsoluteIndexedIndirect => (
                self.core.pbr,
                self.arg.wrapping_add(self.core.x).wrapping_add(k),
            ),
            Mode::StackRelativeIndirectIndexed => (0, self.core.s.wrapping_add(self.arg).wrapping_add(k)),
            _ => (0, self.arg.wrapping_add(k)),
        }
    }

    /// Computes [`Self::spec_ptr_addr`].
    #[verifier::when_used_as_spec(spec_ptr_addr)]
    pub fn ptr_addr(self, k: u16) -> (r: (u8, u16))
        ensures
            r == self.spec_ptr_addr(k),
    {
        match self.instr.mode {
            Mode::DirectIndirect | Mode::DirectIndirectIndexed => (0, self.direct_addr(self.arg, k, true)),
            Mode::DirectIndexedIndirect => (0, self.direct_addr(self.arg.wrapping_add(self.core.x), k, true)),
            Mode::DirectIndirectLong | Mode::DirectIndirectLongIndexed | Mode::Stack => (
                0,
                self.direct_addr(self.arg, k, false),
            ),
            Mode::AbsoluteIndexedIndirect => (
                self.core.pbr,
                self.arg.wrapping_add(self.core.x).wrapping_add(k),
            ),
            Mode::StackRelativeIndirectIndexed => (0, self.core.s.wrapping_add(self.arg).wrapping_add(k)),
            _ => (0, self.arg.wrapping_add(k)),
        }
    }

    /// Where byte `k` of the operand lies. Direct and stack-relative
    /// operands wrap within bank 0; all others carry into the next bank.
    pub open spec fn spec_data_addr(self, k: u16) -> (u8, u16) {
        match self.instr.mode {
            Mode::Direct => (0, self.direct_addr(self.arg, k, true)),
            Mode::DirectX | Mode::DirectY => (0, self.direct_addr(self.arg.wrapping_add(self.index()), k, true)),
            Mode::StackRelative => (0, self.core.s.wrapping_add(self.arg).wrapping_add(k)),
            Mode::Absolute | Mode::AbsoluteX | Mode::AbsoluteY => far(self.core.dbr, self.arg, self.index(), k),
            Mode::AbsoluteLong | Mode::AbsoluteLongX => far(self.bank, self.arg, self.index(), k),
            Mode::DirectIndirect | Mode::DirectIndexedIndirect => far(self.core.dbr, self.ptr, 0, k),
            Mode::DirectIndirectIndexed | Mode::StackRelativeIndirectIndexed => far(
                self.core.dbr,
                self.ptr,
                self.core.y,
                k,
            ),
            Mode::DirectIndirectLong => far(self.bank, self.ptr, 0, k),
            Mode::DirectIndirectLongIndexed => far(self.bank, self.ptr, self.core.y, k),
            _ => (0, 0),
        }
    }

    /// Computes [`Self::spec_data_addr`].
    #[verifier::when_used_as_spec(spec_data_addr)]
    pub fn data_addr(self, k: u16) -> (r: (u8, u16))
        ensures
            r == self.spec_data_addr(k),
    {
        match self.instr.mode {
            Mode::Direct => (0, self.direct_addr(self.arg, k, true)),
            Mode::DirectX | Mode::DirectY => (0, self.direct_addr(self.arg.wrapping_add(self.index()), k, true)),
            Mode::StackRelative => (0, self.core.s.wrapping_add(self.arg).wrapping_add(k)),
            Mode::Absolute | Mode::AbsoluteX | Mode::AbsoluteY => far(self.core.dbr, self.arg, self.index(), k),
            Mode::AbsoluteLong | Mode::AbsoluteLongX => far(self.bank, self.arg, self.index(), k),
            Mode::DirectIndirect | Mode::DirectIndexedIndirect => far(self.core.dbr, self.ptr, 0, k),
            Mode::DirectIndirectIndexed | Mode::StackRelativeIndirectIndexed => far(
                self.core.dbr,
                self.ptr,
                self.core.y,
                k,
            ),
            Mode::DirectIndirectLong => far(self.bank, self.ptr, 0, k),
            Mode::DirectIndirectLongIndexed => far(self.bank, self.ptr, self.core.y, k),
            _ => (0, 0),
        }
    }

    /// The register that a store writes.
    pub open spec fn spec_store_value(self) -> u16 {
        match self.instr.op {
            Op::Sta => self.core.a,
            Op::Stx => self.core.x,
            Op::Sty => self.core.y,
            _ => 0,
        }
    }

    /// Computes [`Self::spec_store_value`].
    #[verifier::when_used_as_spec(spec_store_value)]
    pub fn store_value(self) -> (r: u16)
        ensures
            r == self.spec_store_value(),
    {
        match self.instr.op {
            Op::Sta => self.core.a,
            Op::Stx => self.core.x,
            Op::Sty => self.core.y,
            _ => 0,
        }
    }

    /// The status byte as it goes onto the stack. In emulation mode bit 5
    /// is set and bit 4 tells a software push from a hardware interrupt.
    pub open spec fn spec_status_byte(self) -> u8 {
        if self.core.e {
            self.core.p.put(P::M, true).put(P::X, !(self.instr.op == Op::Irq || self.instr.op == Op::Nmi)).0
        } else {
            self.core.p.0
        }
    }

    /// Computes [`Self::spec_status_byte`].
    #[verifier::when_used_as_spec(spec_status_byte)]
    pub fn status_byte(self) -> (r: u8)
        ensures
            r == self.spec_status_byte(),
    {
        if self.core.e {
            self.core.p.put(P::M, true).put(P::X, !(self.instr.op == Op::Irq || self.instr.op == Op::Nmi)).0
        } else {
            self.core.p.0
        }
    }

    /// The word that the instruction pushes.
    pub open spec fn spec_out_word(self) -> u16 {
        match self.instr.op {
            Op::Jsr => if self.instr.mode == Mode::AbsoluteIndexedIndirect {
                self.core.pc
            } else {
                self.core.pc.wrapping_sub(1)
            },
            Op::Jsl => self.core.pc.wrapping_sub(1),
            Op::Per => self.core.pc.wrapping_add(self.arg),
            Op::Pea => self.arg,
            Op::Pei => self.ptr,
            Op::Pha => self.core.a,
            Op::Phx => self.core.x,
            Op::Phy => self.core.y,
            Op::Phd => self.core.d,
            Op::Phb => wide(self.core.dbr),
            Op::Phk => wide(self.core.pbr),
            Op::Php => wide(self.status_byte()),
            _ => self.core.pc,
        }
    }

    /// Computes [`Self::spec_out_word`].
    #[verifier::when_used_as_spec(spec_out_word)]
    pub fn out_word(self) -> (r: u16)
        ensures
            r == self.spec_out_word(),
    {
        match self.instr.op {
            Op::Jsr => if self.instr.mode == Mode::AbsoluteIndexedIndirect {
                self.core.pc
            } else {
                self.core.pc.wrapping_sub(1)
            },
            Op::Jsl => self.core.pc.wrapping_sub(1),
            Op::Per => self.core.pc.wrapping_add(self.arg),
            Op::Pea => self.arg,
            Op::Pei => self.ptr,
            Op::Pha => self.core.a,
            Op::Phx => self.core.x,
            Op::Phy => self.core.y,
            Op::Phd => self.core.d,
            Op::Phb => wide(self.core.dbr),
            Op::Phk => wide(self.core.pbr),
            Op::Php => wide(self.status_byte()),
            _ => self.core.pc,
        }
    }

    /// The address of the vector of an interrupt, by its kind and the mode.
    pub open spec fn spec_vector(self) -> u16 {
        if self.core.e {
            match self.instr.op {
                Op::Cop => 0xfff4,
                Op::Nmi => 0xfffa,
                Op::Reset => 0xfffc,
                _ => 0xfffe,
            }
        } else {
            match self.instr.op {
                Op::Cop => 0xffe4,
                Op::Brk => 0xffe6,
                Op::Nmi => 0xffea,
                Op::Reset => 0xfffc,
                _ => 0xffee,
            }
        }
    }

    /// Computes [`Self::spec_vector`].
    #[verifier::when_used_as_spec(spec_vector)]
    pub fn vector(self) -> (r: u16)
        ensures
            r == self.spec_vector(),
    {
        if self.core.e {
            match self.instr.op {
                Op::Cop => 0xfff4,
                Op::Nmi => 0xfffa,
                Op::Reset => 0xfffc,
                _ => 0xfffe,
            }
        } else {
            match self.instr.op {
                Op::Cop => 0xffe4,
                Op::Brk => 0xffe6,
                Op::Nmi => 0xffea,
                Op::Reset => 0xfffc,
                _ => 0xffee,
            }
        }
    }

    /// Whether the instruction moves the stack pointer as the 6502 did,
    /// within page 1 in emulation mode.
    pub open spec fn spec_legacy_stack(self) -> bool {
        match self.instr.op {
            Op::Phd | Op::Pld | Op::Pea | Op::Pei | Op::Per | Op::Jsl | Op::Rtl => false,
            Op::Jsr => self.instr.mode != Mode::AbsoluteIndexedIndirect,
            _ => true,
        }
    }

    /// Computes [`Self::spec_legacy_stack`].
    #[verifier::when_used_as_spec(spec_legacy_stack)]
    pub fn legacy_stack(self) -> (r: bool)
        ensures
            r == self.spec_legacy_stack(),
    {
        match self.instr.op {
            Op::Phd | Op::Pld | Op::Pea | Op::Pei | Op::Per | Op::Jsl | Op::Rtl => false,
            Op::Jsr => self.instr.mode != Mode::AbsoluteIndexedIndirect,
            _ => true,
        }
    }

    /// The working stack pointer after a push.
    pub open spec fn spec_sp_after_push(self) -> u16 {
        if self.core.e && self.legacy_stack() {
            word(lo(self.sp).wrapping_sub(1), hi(self.sp))
        } else {
            self.sp.wrapping_sub(1)
        }
    }

    /// Computes [`Self::spec_sp_after_push`].
    #[verifier::when_used_as_spec(spec_sp_after_push)]
    pub fn sp_after_push(self) -> (r: u16)
        ensures
            r == self.spec_sp_after_push(),
    {
        if self.core.e && self.legacy_stack() {
            word(lo(self.sp).wrapping_sub(1), hi(self.sp))
        } else {
            self.sp.wrapping_sub(1)
        }
    }

    /// The working stack pointer after a pull; a pull reads at this address.
    pub open spec fn spec_sp_after_pull(self) -> u16 {
        if self.core.e && self.legacy_stack() {
            word(lo(self.sp).wrapping_add(1), hi(self.sp))
        } else {
            self.sp.wrapping_add(1)
        }
    }

    /// Computes [`Self::spec_sp_after_pull`].
    #[verifier::when_used_as_spec(spec_sp_after_pull)]
    pub fn sp_after_pull(self) -> (r: u16)
        ensures
            r == self.spec_sp_after_pull(),
    {
        if self.core.e && self.legacy_stack() {
            word(lo(self.sp).wrapping_add(1), hi(self.sp))
        } else {
            self.sp.wrapping_add(1)
        }
    }

    /// A push of `data`. A reset goes through the motions of an interrupt
    /// without writing: its pushes are reads.
    pub open spec fn spec_push_request(self, data: u8) -> Request {
        if self.instr.op == Op::Reset {
            read_request(0, self.sp, true, false)
        } else {
            write_request(0, self.sp, data)
        }
    }

    /// Computes [`Self::spec_push_request`].
    #[verifier::when_used_as_spec(spec_push_request)]
    pub fn push_request(self, data: u8) -> (r: Request)
        ensures
            r == self.spec_push_request(data),
    {
        if self.instr.op == Op::Reset {
            read_request(0, self.sp, true, false)
        } else {
            write_request(0, self.sp, data)
        }
    }

    /// What the cycle `micro` asks of the bus, as the machine stands.
    pub open spec fn spec_request(self, micro: Micro) -> Request {
        match micro {
            Micro::Opcode | Micro::IntFetch => read_request(self.core.pbr, self.core.pc, true, true),
            Micro::Arg0 | Micro::Arg1 | Micro::Arg2 | Micro::Imm0 | Micro::Imm1 => read_request(
                self.core.pbr,
                self.core.pc,
                false,
                true,
            ),
            Micro::IoPc => idle_request(self.core.pbr, self.core.pc),
            Micro::IoIndex => idle_request(
                self.core.dbr,
                word(lo(self.index_base()).wrapping_add(lo(self.index())), hi(self.index_base())),
            ),
            Micro::Ptr0 => read_request(self.ptr_addr(0).0, self.ptr_addr(0).1, true, false),
            Micro::Ptr1 => read_request(self.ptr_addr(1).0, self.ptr_addr(1).1, true, false),
            Micro::Ptr2 => read_request(self.ptr_addr(2).0, self.ptr_addr(2).1, true, false),
            Micro::Read0 => Request {
                ml: self.instr.op.class() == Class::Modify,
                ..read_request(self.data_addr(0).0, self.data_addr(0).1, true, false)
            },
            Micro::Read1 => Request {
                ml: self.instr.op.class() == Class::Modify,
                ..read_request(self.data_addr(1).0, self.data_addr(1).1, true, false)
            },
            Micro::Modify => if self.core.e {
                Request { vda: false, ml: true, ..write_request(self.req.bank, self.req.addr, lo(self.val)) }
            } else {
                Request { ml: true, ..idle_request(self.req.bank, self.req.addr) }
            },
            Micro::Write1 => Request {
                ml: true,
                ..write_request(self.data_addr(1).0, self.data_addr(1).1, hi(self.val))
            },
            Micro::Write0 => Request {
                ml: true,
                ..write_request(self.data_addr(0).0, self.data_addr(0).1, lo(self.val))
            },
            Micro::Store0 => write_request(self.data_addr(0).0, self.data_addr(0).1, lo(self.store_value())),
            Micro::Store1 => write_request(self.data_addr(1).0, self.data_addr(1).1, hi(self.store_value())),
            Micro::PushK => self.push_request(self.core.pbr),
            Micro::PushH => self.push_request(hi(self.out_word())),
            Micro::PushL => self.push_request(lo(self.out_word())),
            Micro::PushP => self.push_request(self.status_byte()),
            Micro::PullP | Micro::PullL | Micro::PullH | Micro::PullB => read_request(
                0,
                self.sp_after_pull(),
                true,
                false,
            ),
            Micro::Vec0 => Request { vp: true, ..read_request(0, self.vector(), true, false) },
            Micro::Vec1 => Request { vp: true, ..read_request(0, self.vector().wrapping_add(1), true, false) },
            Micro::MoveRead => read_request(hi(self.arg), self.core.x, true, false),
            Micro::MoveWrite => write_request(lo(self.arg), self.core.y, lo(self.val)),
            _ => idle_request(self.req.bank, self.req.addr),
        }
    }

    /// Computes [`Self::spec_request`].
    #[verifier::when_used_as_spec(spec_request)]
    pub fn request(self, micro: Micro) -> (r: Request)
        ensures
            r == self.spec_request(micro),
    {
        match micro {
            Micro::Opcode | Micro::IntFetch => read_request(self.core.pbr, self.core.pc, true, true),
            Micro::Arg0 | Micro::Arg1 | Micro::Arg2 | Micro::Imm0 | Micro::Imm1 => read_request(
                self.core.pbr,
                self.core.pc,
                false,
                true,
            ),
            Micro::IoPc => idle_request(self.core.pbr, self.core.pc),
            Micro::IoIndex => idle_request(
                self.core.dbr,
                word(lo(self.index_base()).wrapping_add(lo(self.index())), hi(self.index_base())),
            ),
            Micro::Ptr0 => read_request(self.ptr_addr(0).0, self.ptr_addr(0).1, true, false),
            Micro::Ptr1 => read_request(self.ptr_addr(1).0, self.ptr_addr(1).1, true, false),
            Micro::Ptr2 => read_request(self.ptr_addr(2).0, self.ptr_addr(2).1, true, false),
            Micro::Read0 => Request {
                ml: self.instr.op.class() == Class::Modify,
                ..read_request(self.data_addr(0).0, self.data_addr(0).1, true, false)
            },
            Micro::Read1 => Request {
                ml: self.instr.op.class() == Class::Modify,
                ..read_request(self.data_addr(1).0, self.data_addr(1).1, true, false)
            },
            Micro::Modify => if self.core.e {
                Request { vda: false, ml: true, ..write_request(self.req.bank, self.req.addr, lo(self.val)) }
            } else {
                Request { ml: true, ..idle_request(self.req.bank, self.req.addr) }
            },
            Micro::Write1 => Request {
                ml: true,
                ..write_request(self.data_addr(1).0, self.data_addr(1).1, hi(self.val))
            },
            Micro::Write0 => Request {
                ml: true,
                ..write_request(self.data_addr(0).0, self.data_addr(0).1, lo(self.val))
            },
            Micro::Store0 => write_request(self.data_addr(0).0, self.data_addr(0).1, lo(self.store_value())),
            Micro::Store1 => write_request(self.data_addr(1).0, self.data_addr(1).1, hi(self.store_value())),
            Micro::PushK => self.push_request(self.core.pbr),
            Micro::PushH => self.push_request(hi(self.out_word())),
            Micro::PushL => self.push_request(lo(self.out_word())),
            Micro::PushP => self.push_request(self.status_byte()),
            Micro::PullP | Micro::PullL | Micro::PullH | Micro::PullB => read_request(
                0,
                self.sp_after_pull(),
                true,
                false,
            ),
            Micro::Vec0 => Request { vp: true, ..read_request(0, self.vector(), true, false) },
            Micro::Vec1 => Request { vp: true, ..read_request(0, self.vector().wrapping_add(1), true, false) },
            Micro::MoveRead => read_request(hi(self.arg), self.core.x, true, false),
            Micro::MoveWrite => write_request(lo(self.arg), self.core.y, lo(self.val)),
            _ => idle_request(self.req.bank, self.req.addr),
        }
    }

    /// The machine with the program counter moved past one byte.
    pub open spec fn spec_fetched(self) -> Machine {
        Machine { core: Core { pc: self.core.pc.wrapping_add(1), ..self.core }, ..self }
    }

    /// Computes [`Self::spec_fetched`].
    #[verifier::when_used_as_spec(spec_fetched)]
    pub fn fetched(self) -> (r: Machine)
        ensures
            r == self.spec_fetched(),
    {
        Machine { core: Core { pc: self.core.pc.wrapping_add(1), ..self.core }, ..self }
    }

    /// The machine once the cycle on the bus has completed with `data` on
    /// the data bus. A fetch stores its byte and moves the program counter;
    /// a read stores its byte; a push or pull moves the working stack
    /// pointer. The internal cycle of a read-modify-write computes the new
    /// value and sets the flags; the push of the status byte in an
    /// interrupt sequence disables interrupts and leaves decimal mode.
    pub open spec fn spec_complete(self, data: u8) -> Machine {
        match self.micro {
            Micro::Opcode => Machine { instr: decode(data), ..self.fetched() },
            Micro::Arg0 => Machine { arg: wide(data), ..self.fetched() },
            Micro::Arg1 => Machine { arg: word(lo(self.arg), data), ..self.fetched() },
            Micro::Arg2 => Machine { bank: data, ..self.fetched() },
            Micro::Imm0 => Machine { val: wide(data), ..self.fetched() },
            Micro::Imm1 => Machine { val: word(lo(self.val), data), ..self.fetched() },
            Micro::Ptr0 => Machine { ptr: wide(data), ..self },
            Micro::Ptr1 => Machine { ptr: word(lo(self.ptr), data), ..self },
            Micro::Ptr2 => Machine { bank: data, ..self },
            Micro::Read0 | Micro::Vec0 | Micro::MoveRead => Machine { val: wide(data), ..self },
            Micro::Read1 | Micro::Vec1 => Machine { val: word(lo(self.val), data), ..self },
            Micro::Modify => Machine {
                val: modified(self.instr.op, self.val, self.core.a, self.core.p.c(), self.width8()),
                core: after_modify(self.core, self.instr.op, self.val, self.width8()),
                ..self
            },
            Micro::PushK | Micro::PushH | Micro::PushL => Machine { sp: self.sp_after_push(), ..self },
            Micro::PushP => Machine {
                sp: self.sp_after_push(),
                core: self.core.with_flag(P::I, true).with_flag(P::D, false),
                ..self
            },
            Micro::PullP => Machine { sp: self.sp_after_pull(), arg: wide(data), ..self },
            Micro::PullL => Machine { sp: self.sp_after_pull(), val: wide(data), ..self },
            Micro::PullH => Machine { sp: self.sp_after_pull(), val: word(lo(self.val), data), ..self },
            Micro::PullB => Machine { sp: self.sp_after_pull(), bank: data, ..self },
            _ => self,
        }
    }

    /// Computes [`Self::spec_complete`].
    #[verifier::when_used_as_spec(spec_complete)]
    pub fn complete(self, data: u8) -> (r: Machine)
        ensures
            r == self.spec_complete(data),
    {
        match self.micro {
            Micro::Opcode => Machine { instr: decode(data), ..self.fetched() },
            Micro::Arg0 => Machine { arg: wide(data), ..self.fetched() },
            Micro::Arg1 => Machine { arg: word(lo(self.arg), data), ..self.fetched() },
            Micro::Arg2 => Machine { bank: data, ..self.fetched() },
            Micro::Imm0 => Machine { val: wide(data), ..self.fetched() },
            Micro::Imm1 => Machine { val: word(lo(self.val), data), ..self.fetched() },
            Micro::Ptr0 => Machine { ptr: wide(data), ..self },
            Micro::Ptr1 => Machine { ptr: word(lo(self.ptr), data), ..self },
            Micro::Ptr2 => Machine { bank: data, ..self },
            Micro::Read0 | Micro::Vec0 | Micro::MoveRead => Machine { val: wide(data), ..self },
            Micro::Read1 | Micro::Vec1 => Machine { val: word(lo(self.val), data), ..self },
            Micro::Modify => Machine {
                val: modified(self.instr.op, self.val, self.core.a, self.core.p.c(), self.width8()),
                core: after_modify(self.core, self.instr.op, self.val, self.width8()),
                ..self
            },
            Micro::PushK | Micro::PushH | Micro::PushL => Machine { sp: self.sp_after_push(), ..self },
            Micro::PushP => Machine {
                sp: self.sp_after_push(),
                core: self.core.with_flag(P::I, true).with_flag(P::D, false),
                ..self
            },
            Micro::PullP => Machine { sp: self.sp_after_pull(), arg: wide(data), ..self },
            Micro::PullL => Machine { sp: self.sp_after_pull(), val: wide(data), ..self },
            Micro::PullH => Machine { sp: self.sp_after_pull(), val: word(lo(self.val), data), ..self },
            Micro::PullB => Machine { sp: self.sp_after_pull(), bank: data, ..self },
            _ => self,
        }
    }

    /// The registers once the instruction has completed: the stack pointer
    /// as the instruction left it, and the effect of the operation.
    ///
    /// Loads, arithmetic, logic and compares work on `val` at the width of
    /// their register. Jumps and returns load the program counter, long
    /// ones the program bank too. Interrupt sequences load the program
    /// counter from the vector and clear the program bank.
    pub open spec fn spec_committed(self) -> Core {
        self.core.with_s(self.sp).applied(self)
    }

    /// Computes [`Self::spec_committed`].
    #[verifier::when_used_as_spec(spec_committed)]
    pub fn committed(self) -> (r: Core)
        ensures
            r == self.spec_committed(),
    {
        self.core.with_s(self.sp).applied(self)
    }

    /// Whether an interrupt or a reset ends the rest of `WAI`, or a reset
    /// that of `STP`.
    pub open spec fn spec_wakes(self, inp: Inputs) -> bool {
        if self.instr.op == Op::Stp {
            inp.res
        } else {
            inp.res || inp.irq || (inp.nmi && !self.nmi_line)
        }
    }

    /// Computes [`Self::spec_wakes`].
    #[verifier::when_used_as_spec(spec_wakes)]
    pub fn wakes(self, inp: Inputs) -> (r: bool)
        ensures
            r == self.spec_wakes(inp),
    {
        if self.instr.op == Op::Stp {
            inp.res
        } else {
            inp.res || inp.irq || (inp.nmi && !self.nmi_line)
        }
    }

    /// The machine at the first cycle of the hardware sequence `op`.
    pub open spec fn spec_entered(self, core: Core, op: Op, inp: Inputs) -> Machine {
        Machine {
            core,
            instr: Instr { op, mode: Mode::Interrupt },
            t: 0,
            micro: Micro::IntFetch,
            req: read_request(core.pbr, core.pc, true, true),
            sp: core.s,
            nmi_line: inp.nmi,
            ..self
        }
    }

    /// Computes [`Self::spec_entered`].
    #[verifier::when_used_as_spec(spec_entered)]
    pub fn entered(self, core: Core, op: Op, inp: Inputs) -> (r: Machine)
        ensures
            r == self.spec_entered(core, op, inp),
    {
        Machine {
            core,
            instr: Instr { op, mode: Mode::Interrupt },
            t: 0,
            micro: Micro::IntFetch,
            req: read_request(core.pbr, core.pc, true, true),
            sp: core.s,
            nmi_line: inp.nmi,
            ..self
        }
    }

    /// What follows an instruction. The three requests are sampled here and
    /// nowhere else: a reset wins, then a rising NMI, then an IRQ that the
    /// `I` flag lets through; with none of them the next opcode is fetched.
    pub open spec fn spec_finished(self, inp: Inputs) -> Machine {
        if inp.res {
            self.entered(reset_core(self.core), Op::Reset, inp)
        } else if inp.nmi && !self.nmi_line {
            self.entered(self.core, Op::Nmi, inp)
        } else if inp.irq && !self.core.p.i() {
            self.entered(self.core, Op::Irq, inp)
        } else {
            Machine {
                t: 0,
                micro: Micro::Opcode,
                req: read_request(self.core.pbr, self.core.pc, true, true),
                sp: self.core.s,
                nmi_line: inp.nmi,
                ..self
            }
        }
    }

    /// Computes [`Self::spec_finished`].
    #[verifier::when_used_as_spec(spec_finished)]
    pub fn finished(self, inp: Inputs) -> (r: Machine)
        ensures
            r == self.spec_finished(inp),
    {
        if inp.res {
            self.entered(reset_core(self.core), Op::Reset, inp)
        } else if inp.nmi && !self.nmi_line {
            self.entered(self.core, Op::Nmi, inp)
        } else if inp.irq && !self.core.p.i() {
            self.entered(self.core, Op::Irq, inp)
        } else {
            Machine {
                t: 0,
                micro: Micro::Opcode,
                req: read_request(self.core.pbr, self.core.pc, true, true),
                sp: self.core.s,
                nmi_line: inp.nmi,
                ..self
            }
        }
    }

    /// The machine moved to its next cycle, or past the end of its
    /// instruction into the next one.
    pub open spec fn spec_sequenced(self, inp: Inputs) -> Machine {
        if script(self.instr, self.next_index()) == Micro::End {
            Machine { core: self.committed(), ..self }.finished(inp)
        } else {
            Machine {
                t: self.next_index(),
                micro: script(self.instr, self.next_index()),
                req: self.request(script(self.instr, self.next_index())),
                ..self
            }
        }
    }

    /// Computes [`Self::spec_sequenced`].
    #[verifier::when_used_as_spec(spec_sequenced)]
    pub fn sequenced(self, inp: Inputs) -> (r: Machine)
        ensures
            r == self.spec_sequenced(inp),
    {
        if script(self.instr, self.next_index()) == Micro::End {
            Machine { core: self.committed(), ..self }.finished(inp)
        } else {
            Machine {
                t: self.next_index(),
                micro: script(self.instr, self.next_index()),
                req: self.request(script(self.instr, self.next_index())),
                ..self
            }
        }
    }

    /// One clock cycle with memory ready: the cycle on the bus completes
    /// and the next one is put there. A resting processor stays as it is
    /// until something wakes it.
    pub open spec fn spec_advance(self, inp: Inputs) -> Machine {
        if self.micro == Micro::Rest && !self.wakes(inp) {
            Machine { nmi_line: inp.nmi, ..self }
        } else {
            self.complete(inp.data).sequenced(inp)
        }
    }

    /// Computes [`Self::spec_advance`].
    #[verifier::when_used_as_spec(spec_advance)]
    pub fn advance(self, inp: Inputs) -> (r: Machine)
        ensures
            r == self.spec_advance(inp),
    {
        if self.micro == Micro::Rest && !self.wakes(inp) {
            Machine { nmi_line: inp.nmi, ..self }
        } else {
            self.complete(inp.data).sequenced(inp)
        }
    }

    /// One clock cycle. While `RDY` is deasserted nothing happens: the
    /// request stays on the bus and no register changes.
    pub open spec fn spec_tick(self, inp: Inputs) -> Machine {
        if inp.rdy {
            self.advance(inp)
        } else {
            self
        }
    }

    /// Computes [`Self::spec_tick`].
    #[verifier::when_used_as_spec(spec_tick)]
    pub fn tick(self, inp: Inputs) -> (r: Machine)
        ensures
            r == self.spec_tick(inp),
    {
        if inp.rdy {
            self.advance(inp)
        } else {
            self
        }
    }
}

impl Core {
    /// The effect of the completed instruction of `m` on the registers.
    pub open spec fn spec_applied(self, m: Machine) -> Core {
        match m.instr.op {
            Op::Lda | Op::Pla => self.with_a(m.val).with_nz(m.val, self.m8()),
            Op::Ldx | Op::Plx => self.with_x(m.val).with_nz(m.val, self.x8()),
            Op::Ldy | Op::Ply => self.with_y(m.val).with_nz(m.val, self.x8()),
            Op::Adc => after_sum(self, adc(self.a, m.val, self.p.c(), self.p.d(), self.m8())),
            Op::Sbc => after_sum(self, sbc(self.a, m.val, self.p.c(), self.p.d(), self.m8())),
            Op::And => self.with_a(self.a & m.val).with_nz(self.a & m.val, self.m8()),
            Op::Ora => self.with_a(self.a | m.val).with_nz(self.a | m.val, self.m8()),
            Op::Eor => self.with_a(self.a ^ m.val).with_nz(self.a ^ m.val, self.m8()),
            Op::Cmp => compared(self, self.a, m.val, self.m8()),
            Op::Cpx => compared(self, self.x, m.val, self.x8()),
            Op::Cpy => compared(self, self.y, m.val, self.x8()),
            Op::Bit => if m.instr.mode == Mode::Immediate {
                self.with_flag(P::Z, zero(self.a & m.val, self.m8()))
            } else {
                self.with_flag(P::N, msb(m.val, self.m8())).with_flag(P::V, next_bit(m.val, self.m8())).with_flag(
                    P::Z,
                    zero(self.a & m.val, self.m8()),
                )
            },
            Op::Asl | Op::Lsr | Op::Rol | Op::Ror | Op::Inc | Op::Dec => if m.instr.mode == Mode::Accumulator {
                after_modify(self, m.instr.op, self.a, self.m8()).with_a(
                    modified(m.instr.op, self.a, self.a, self.p.c(), self.m8()),
                )
            } else {
                self
            },
            Op::Inx => self.with_x(self.x.wrapping_add(1)).with_nz(self.x.wrapping_add(1), self.x8()),
            Op::Iny => self.with_y(self.y.wrapping_add(1)).with_nz(self.y.wrapping_add(1), self.x8()),
            Op::Dex => self.with_x(self.x.wrapping_sub(1)).with_nz(self.x.wrapping_sub(1), self.x8()),
            Op::Dey => self.with_y(self.y.wrapping_sub(1)).with_nz(self.y.wrapping_sub(1), self.x8()),
            Op::Tax => self.with_x(self.a).with_nz(self.a, self.x8()),
            Op::Tay => self.with_y(self.a).with_nz(self.a, self.x8()),
            Op::Txa => self.with_a(self.x).with_nz(self.x, self.m8()),
            Op::Tya => self.with_a(self.y).with_nz(self.y, self.m8()),
            Op::Tsx => self.with_x(self.s).with_nz(self.s, self.x8()),
            Op::Txs => self.with_s(self.x),
            Op::Txy => self.with_y(self.x).with_nz(self.x, self.x8()),
            Op::Tyx => self.with_x(self.y).with_nz(self.y, self.x8()),
            Op::Tcd => Core { d: self.a, ..self }.with_nz(self.a, false),
            Op::Tdc => Core { a: self.d, ..self }.with_nz(self.d, false),
            Op::Tcs => self.with_s(self.a),
            Op::Tsc => Core { a: self.s, ..self }.with_nz(self.s, false),
            Op::Clc => self.with_flag(P::C, false),
            Op::Sec => self.with_flag(P::C, true),
            Op::Cli => self.with_flag(P::I, false),
            Op::Sei => self.with_flag(P::I, true),
            Op::Cld => self.with_flag(P::D, false),
            Op::Sed => self.with_flag(P::D, true),
            Op::Clv => self.with_flag(P::V, false),
            Op::Xce => self.with_flag(P::C, self.e).with_e(self.p.c()),
            Op::Xba => Core { a: swap(self.a), ..self }.with_nz(swap(self.a), true),
            Op::Rep => self.with_p(self.p.without(lo(m.val))),
            Op::Sep => self.with_p(self.p.with_all(lo(m.val))),
            Op::Plp => self.with_p(P(lo(m.val))),
            Op::Plb => Core { dbr: lo(m.val), ..self }.with_nz(m.val, true),
            Op::Pld => Core { d: m.val, ..self }.with_nz(m.val, false),
            Op::Bpl | Op::Bmi | Op::Bvc | Op::Bvs | Op::Bcc | Op::Bcs | Op::Bne | Op::Beq | Op::Bra => if m.taken() {
                Core { pc: m.target(), ..self }
            } else {
                self
            },
            Op::Brl => Core { pc: self.pc.wrapping_add(m.arg), ..self },
            Op::Jmp | Op::Jsr => Core { pc: if m.instr.mode == Mode::Absolute { m.arg } else { m.ptr }, ..self },
            Op::Jml => Core { pc: if m.instr.mode == Mode::AbsoluteLong { m.arg } else { m.ptr }, pbr: m.bank, ..self },
            Op::Jsl => Core { pc: m.arg, pbr: m.bank, ..self },
            Op::Rts => Core { pc: m.val.wrapping_add(1), ..self },
            Op::Rtl => Core { pc: m.val.wrapping_add(1), pbr: m.bank, ..self },
            Op::Rti => Core { pc: m.val, pbr: if self.e { self.pbr } else { m.bank }, ..self }.with_p(P(lo(m.arg))),
            Op::Brk | Op::Cop | Op::Irq | Op::Nmi | Op::Reset => Core { pc: m.val, pbr: 0, ..self },
            Op::Mvn => Core {
                a: self.a.wrapping_sub(1),
                dbr: lo(m.arg),
                pc: if self.a != 0 { self.pc.wrapping_sub(3) } else { self.pc },
                ..self
            }.with_x(self.x.wrapping_add(1)).with_y(self.y.wrapping_add(1)),
            Op::Mvp => Core {
                a: self.a.wrapping_sub(1),
                dbr: lo(m.arg),
                pc: if self.a != 0 { self.pc.wrapping_sub(3) } else { self.pc },
                ..self
            }.with_x(self.x.wrapping_sub(1)).with_y(self.y.wrapping_sub(1)),
            _ => self,
        }
    }

    /// Computes [`Self::spec_applied`].
    #[verifier::when_used_as_spec(spec_applied)]
    pub fn applied(self, m: Machine) -> (r: Core)
        ensures
            r == self.spec_applied(m),
    {
        match m.instr.op {
            Op::Lda | Op::Pla => self.with_a(m.val).with_nz(m.val, self.m8()),
            Op::Ldx | Op::Plx => self.with_x(m.val).with_nz(m.val, self.x8()),
            Op::Ldy | Op::Ply => self.with_y(m.val).with_nz(m.val, self.x8()),
            Op::Adc => after_sum(self, adc(self.a, m.val, self.p.c(), self.p.d(), self.m8())),
            Op::Sbc => after_sum(self, sbc(self.a, m.val, self.p.c(), self.p.d(), self.m8())),
            Op::And => self.with_a(self.a & m.val).with_nz(self.a & m.val, self.m8()),
            Op::Ora => self.with_a(self.a | m.val).with_nz(self.a | m.val, self.m8()),
            Op::Eor => self.with_a(self.a ^ m.val).with_nz(self.a ^ m.val, self.m8()),
            Op::Cmp => compared(self, self.a, m.val, self.m8()),
            Op::Cpx => compared(self, self.x, m.val, self.x8()),
            Op::Cpy => compared(self, self.y, m.val, self.x8()),
            Op::Bit => if m.instr.mode == Mode::Immediate {
                self.with_flag(P::Z, zero(self.a & m.val, self.m8()))
            } else {
                self.with_flag(P::N, msb(m.val, self.m8())).with_flag(P::V, next_bit(m.val, self.m8())).with_flag(
                    P::Z,
                    zero(self.a & m.val, self.m8()),
                )
            },
            Op::Asl | Op::Lsr | Op::Rol | Op::Ror | Op::Inc | Op::Dec => if m.instr.mode == Mode::Accumulator {
                after_modify(self, m.instr.op, self.a, self.m8()).with_a(
                    modified(m.instr.op, self.a, self.a, self.p.c(), self.m8()),
                )
            } else {
                self
            },
            Op::Inx => self.with_x(self.x.wrapping_add(1)).with_nz(self.x.wrapping_add(1), self.x8()),
            Op::Iny => self.with_y(self.y.wrapping_add(1)).with_nz(self.y.wrapping_add(1), self.x8()),
            Op::Dex => self.with_x(self.x.wrapping_sub(1)).with_nz(self.x.wrapping_sub(1), self.x8()),
            Op::Dey => self.with_y(self.y.wrapping_sub(1)).with_nz(self.y.wrapping_sub(1), self.x8()),
            Op::Tax => self.with_x(self.a).with_nz(self.a, self.x8()),
            Op::Tay => self.with_y(self.a).with_nz(self.a, self.x8()),
            Op::Txa => self.with_a(self.x).with_nz(self.x, self.m8()),
            Op::Tya => self.with_a(self.y).with_nz(self.y, self.m8()),
            Op::Tsx => self.with_x(self.s).with_nz(self.s, self.x8()),
            Op::Txs => self.with_s(self.x),
            Op::Txy => self.with_y(self.x).with_nz(self.x, self.x8()),
            Op::Tyx => self.with_x(self.y).with_nz(self.y, self.x8()),
            Op::Tcd => Core { d: self.a, ..self }.with_nz(self.a, false),
            Op::Tdc => Core { a: self.d, ..self }.with_nz(self.d, false),
            Op::Tcs => self.with_s(self.a),
            Op::Tsc => Core { a: self.s, ..self }.with_nz(self.s, false),
            Op::Clc => self.with_flag(P::C, false),
            Op::Sec => self.with_flag(P::C, true),
            Op::Cli => self.with_flag(P::I, false),
            Op::Sei => self.with_flag(P::I, true),
            Op::Cld => self.with_flag(P::D, false),
            Op::Sed => self.with_flag(P::D, true),
            Op::Clv => self.with_flag(P::V, false),
            Op::Xce => self.with_flag(P::C, self.e).with_e(self.p.c()),
            Op::Xba => Core { a: swap(self.a), ..self }.with_nz(swap(self.a), true),
            Op::Rep => self.with_p(self.p.without(lo(m.val))),
            Op::Sep => self.with_p(self.p.with_all(lo(m.val))),
            Op::Plp => self.with_p(P(lo(m.val))),
            Op::Plb => Core { dbr: lo(m.val), ..self }.with_nz(m.val, true),
            Op::Pld => Core { d: m.val, ..self }.with_nz(m.val, false),
            Op::Bpl | Op::Bmi | Op::Bvc | Op::Bvs | Op::Bcc | Op::Bcs | Op::Bne | Op::Beq | Op::Bra => if m.taken() {
                Core { pc: m.target(), ..self }
            } else {
                self
            },
            Op::Brl => Core { pc: self.pc.wrapping_add(m.arg), ..self },
            Op::Jmp | Op::Jsr => Core { pc: if m.instr.mode == Mode::Absolute { m.arg } else { m.ptr }, ..self },
            Op::Jml => Core { pc: if m.instr.mode == Mode::AbsoluteLong { m.arg } else { m.ptr }, pbr: m.bank, ..self },
            Op::Jsl => Core { pc: m.arg, pbr: m.bank, ..self },
            Op::Rts => Core { pc: m.val.wrapping_add(1), ..self },
            Op::Rtl => Core { pc: m.val.wrapping_add(1), pbr: m.bank, ..self },
            Op::Rti => Core { pc: m.val, pbr: if self.e { self.pbr } else { m.bank }, ..self }.with_p(P(lo(m.arg))),
            Op::Brk | Op::Cop | Op::Irq | Op::Nmi | Op::Reset => Core { pc: m.val, pbr: 0, ..self },
            Op::Mvn => Core {
                a: self.a.wrapping_sub(1),
                dbr: lo(m.arg),
                pc: if self.a != 0 { self.pc.wrapping_sub(3) } else { self.pc },
                ..self
            }.with_x(self.x.wrapping_add(1)).with_y(self.y.wrapping_add(1)),
            Op::Mvp => Core {
                a: self.a.wrapping_sub(1),
                dbr: lo(m.arg),
                pc: if self.a != 0 { self.pc.wrapping_sub(3) } else { self.pc },
                ..self
            }.with_x(self.x.wrapping_sub(1)).with_y(self.y.wrapping_sub(1)),
            _ => self,
        }
    }
}

} // verus!
