//! What holds of the engine in every state.

use crate::bus::Inputs;
use crate::instruction::{decode, Instr, Mode, Op};
use crate::machine::{read_request, reset_core, Machine};
use crate::microcode::{certain, script, Micro};
use crate::registers::{Core, Flags, P};
use crate::word::{hi, lo, merge, msb, wide, word, zero};
use vstd::prelude::*;

verus! {

/// The registers that a reset forces are valid, whatever they were.
pub proof fn lemma_reset_core(c: Core)
    ensures
        reset_core(c).valid(),
        reset_core(c).e,
        reset_core(c).p.i(),
        !reset_core(c).p.d(),
        reset_core(c).pbr == 0,
        reset_core(c).dbr == 0,
        reset_core(c).d == 0,
        reset_core(c).pc == c.pc,
        reset_core(c).a == c.a,
{
    broadcast use P::lemma_put_has;

}

/// The completion of a cycle keeps the registers valid.
#[verifier::rlimit(50)]
pub proof fn lemma_complete_keeps_valid(m: Machine, data: u8)
    requires
        m.core.valid(),
    ensures
        m.complete(data).core.valid(),
{
    broadcast use P::lemma_put_has;

}

/// The effect of an instruction keeps the registers valid.
#[verifier::rlimit(50)]
pub proof fn lemma_applied_keeps_valid(c: Core, m: Machine)
    requires
        c.valid(),
    ensures
        c.applied(m).valid(),
{
    broadcast use Core::group_keeps_valid;

}

/// Width and stack invariant: a clock cycle keeps the registers valid. So
/// in every state that the engine reaches in emulation mode both widths in
/// force are 8 bits, whatever the stored flags, and the high byte of the
/// stack pointer is 1; and index registers of 8 bits have a zero high byte.
#[verifier::rlimit(50)]
pub proof fn lemma_tick_keeps_valid(m: Machine, inp: Inputs)
    requires
        m.core.valid(),
    ensures
        m.tick(inp).core.valid(),
        m.tick(inp).core.e ==> m.tick(inp).core.m8() && m.tick(inp).core.x8() && hi(m.tick(inp).core.s) == 1,
        m.tick(inp).core.x8() ==> hi(m.tick(inp).core.x) == 0 && hi(m.tick(inp).core.y) == 0,
{
    let c = m.complete(inp.data);
    lemma_complete_keeps_valid(m, inp.data);
    c.core.lemma_with_s_valid(c.sp);
    lemma_applied_keeps_valid(c.core.with_s(c.sp), c);
    lemma_reset_core(c.committed());
}

/// A certain cycle is never left out: every run of an instruction takes
/// the cycles that its base cycle count counts.
pub proof fn lemma_certain_is_never_skipped(m: Machine, micro: Micro)
    requires
        certain(m.instr, micro),
    ensures
        !m.skips(micro),
{
}

impl Machine {
    /// Whether two machines are the same but for the stored width flags in
    /// emulation mode.
    pub open spec fn alike(self, other: Machine) -> bool {
        &&& (Machine { core: other.core, ..self }) == other
        &&& self.core.alike(other.core)
    }
}

proof fn lemma_status_byte_alike(a: Machine, b: Machine)
    requires
        a.alike(b),
    ensures
        a.status_byte() == b.status_byte(),
{
    broadcast use P::lemma_put_has;

    if a.core.e {
        let break_bit = !(a.instr.op == Op::Irq || a.instr.op == Op::Nmi);
        P::lemma_view_determines(
            a.core.p.put(P::M, true).put(P::X, break_bit),
            b.core.p.put(P::M, true).put(P::X, break_bit),
        );
    }
}

proof fn lemma_skips_alike(a: Machine, b: Machine, micro: Micro)
    requires
        a.alike(b),
    ensures
        a.skips(micro) == b.skips(micro),
{
}

proof fn lemma_next_index_alike(a: Machine, b: Machine)
    requires
        a.alike(b),
    ensures
        a.next_index() == b.next_index(),
{
    if a.t < 16 {
        lemma_skips_alike(a, b, script(a.instr, (a.t + 1) as u8));
        lemma_skips_alike(a, b, script(a.instr, (a.t + 2) as u8));
    }
}

proof fn lemma_addresses_alike(a: Machine, b: Machine, k: u16)
    requires
        a.alike(b),
    ensures
        a.index() == b.index(),
        a.index_base() == b.index_base(),
        a.ptr_addr(k) == b.ptr_addr(k),
        a.data_addr(k) == b.data_addr(k),
        a.store_value() == b.store_value(),
        a.vector() == b.vector(),
{
}

proof fn lemma_stack_alike(a: Machine, b: Machine, data: u8)
    requires
        a.alike(b),
    ensures
        a.sp_after_push() == b.sp_after_push(),
        a.sp_after_pull() == b.sp_after_pull(),
        a.out_word() == b.out_word(),
        a.push_request(data) == b.push_request(data),
{
    lemma_status_byte_alike(a, b);
}

#[verifier::rlimit(50)]
proof fn lemma_request_alike(a: Machine, b: Machine, micro: Micro)
    requires
        a.alike(b),
    ensures
        a.request(micro) == b.request(micro),
{
    lemma_status_byte_alike(a, b);
    lemma_addresses_alike(a, b, 0);
    lemma_addresses_alike(a, b, 1);
    lemma_addresses_alike(a, b, 2);
    lemma_stack_alike(a, b, a.core.pbr);
    lemma_stack_alike(a, b, hi(a.out_word()));
    lemma_stack_alike(a, b, lo(a.out_word()));
    lemma_stack_alike(a, b, a.status_byte());
}

#[verifier::rlimit(50)]
proof fn lemma_complete_alike(a: Machine, b: Machine, data: u8)
    requires
        a.alike(b),
    ensures
        a.complete(data).alike(b.complete(data)),
{
    broadcast use P::lemma_put_has;

}

/// The operations in groups, for the proofs that go through them.
pub open spec fn op_group(op: Op) -> int {
    match op {
        Op::Lda | Op::Pla | Op::Ldx | Op::Plx | Op::Ldy | Op::Ply | Op::And | Op::Ora | Op::Eor | Op::Bit => 1,
        Op::Adc | Op::Sbc | Op::Cmp | Op::Cpx | Op::Cpy => 2,
        Op::Asl | Op::Lsr | Op::Rol | Op::Ror | Op::Inc | Op::Dec | Op::Inx | Op::Iny | Op::Dex | Op::Dey => 3,
        Op::Tax | Op::Tay | Op::Txa | Op::Tya | Op::Tsx | Op::Txs | Op::Txy | Op::Tyx | Op::Tcd | Op::Tdc
        | Op::Tcs | Op::Tsc | Op::Xba => 4,
        Op::Clc | Op::Sec | Op::Cli | Op::Sei | Op::Cld | Op::Sed | Op::Clv | Op::Plb | Op::Pld => 5,
        Op::Rep | Op::Sep | Op::Plp | Op::Rti => 6,
        Op::Xce => 7,
        Op::Bpl | Op::Bmi | Op::Bvc | Op::Bvs | Op::Bcc | Op::Bcs | Op::Bne | Op::Beq | Op::Bra | Op::Brl => 8,
        Op::Jmp | Op::Jsr | Op::Jml | Op::Jsl | Op::Rts | Op::Rtl | Op::Brk | Op::Cop | Op::Irq | Op::Nmi
        | Op::Reset | Op::Mvn | Op::Mvp => 9,
        _ => 0,
    }
}

#[verifier::rlimit(100)]
#[verifier::spinoff_prover]
proof fn lemma_committed_alike_0(a: Machine, b: Machine)
    requires
        a.alike(b),
        a.core.e,
        op_group(a.instr.op) == 0,
    ensures
        a.committed().alike(b.committed()),
{
    assert(a.core.with_s(a.sp).alike(b.core.with_s(b.sp)));
    assert(a.committed() == a.core.with_s(a.sp));
    assert(b.committed() == b.core.with_s(b.sp));
}

#[verifier::rlimit(100)]
#[verifier::spinoff_prover]
proof fn lemma_committed_alike_1(a: Machine, b: Machine)
    requires
        a.alike(b),
        a.core.e,
        op_group(a.instr.op) == 1,
    ensures
        a.committed().alike(b.committed()),
{
    assert(a.core.with_s(a.sp).alike(b.core.with_s(b.sp)));
    broadcast use P::lemma_put_has;

}

#[verifier::rlimit(100)]
#[verifier::spinoff_prover]
proof fn lemma_committed_alike_2(a: Machine, b: Machine)
    requires
        a.alike(b),
        a.core.e,
        op_group(a.instr.op) == 2,
    ensures
        a.committed().alike(b.committed()),
{
    assert(a.core.with_s(a.sp).alike(b.core.with_s(b.sp)));
    broadcast use P::lemma_put_has;

}

#[verifier::rlimit(100)]
#[verifier::spinoff_prover]
proof fn lemma_committed_alike_3(a: Machine, b: Machine)
    requires
        a.alike(b),
        a.core.e,
        op_group(a.instr.op) == 3,
    ensures
        a.committed().alike(b.committed()),
{
    assert(a.core.with_s(a.sp).alike(b.core.with_s(b.sp)));
    broadcast use P::lemma_put_has;

}

#[verifier::rlimit(100)]
#[verifier::spinoff_prover]
proof fn lemma_committed_alike_4(a: Machine, b: Machine)
    requires
        a.alike(b),
        a.core.e,
        op_group(a.instr.op) == 4,
    ensures
        a.committed().alike(b.committed()),
{
    assert(a.core.with_s(a.sp).alike(b.core.with_s(b.sp)));
    broadcast use P::lemma_put_has;

}

#[verifier::rlimit(100)]
#[verifier::spinoff_prover]
proof fn lemma_committed_alike_5(a: Machine, b: Machine)
    requires
        a.alike(b),
        a.core.e,
        op_group(a.instr.op) == 5,
    ensures
        a.committed().alike(b.committed()),
{
    assert(a.core.with_s(a.sp).alike(b.core.with_s(b.sp)));
    broadcast use P::lemma_put_has;

}

#[verifier::rlimit(100)]
#[verifier::spinoff_prover]
proof fn lemma_committed_alike_6(a: Machine, b: Machine)
    requires
        a.alike(b),
        a.core.e,
        op_group(a.instr.op) == 6,
    ensures
        a.committed().alike(b.committed()),
{
    assert(a.core.with_s(a.sp).alike(b.core.with_s(b.sp)));
    broadcast use P::group_flags;

}

#[verifier::rlimit(100)]
#[verifier::spinoff_prover]
proof fn lemma_committed_alike_7(a: Machine, b: Machine)
    requires
        a.alike(b),
        a.core.e,
        op_group(a.instr.op) == 7,
    ensures
        a.committed().alike(b.committed()),
{
    assert(a.core.with_s(a.sp).alike(b.core.with_s(b.sp)));
    broadcast use P::lemma_put_has;

    let r1 = a.committed();
    let r2 = b.committed();
    assert(r1.p@ == r2.p@);
    P::lemma_view_determines(r1.p, r2.p);
}

#[verifier::rlimit(100)]
#[verifier::spinoff_prover]
proof fn lemma_committed_alike_8(a: Machine, b: Machine)
    requires
        a.alike(b),
        a.core.e,
        op_group(a.instr.op) == 8,
    ensures
        a.committed().alike(b.committed()),
{
    assert(a.core.with_s(a.sp).alike(b.core.with_s(b.sp)));
    assert(a.taken() == b.taken());
}

#[verifier::rlimit(100)]
#[verifier::spinoff_prover]
proof fn lemma_committed_alike_9(a: Machine, b: Machine)
    requires
        a.alike(b),
        a.core.e,
        op_group(a.instr.op) == 9,
    ensures
        a.committed().alike(b.committed()),
{
    assert(a.core.with_s(a.sp).alike(b.core.with_s(b.sp)));
}

proof fn lemma_committed_alike(a: Machine, b: Machine)
    requires
        a.alike(b),
    ensures
        a.committed().alike(b.committed()),
{
    if a.core.e {
        let group = op_group(a.instr.op);
        if group == 0 {
            lemma_committed_alike_0(a, b);
        } else if group == 1 {
            lemma_committed_alike_1(a, b);
        } else if group == 2 {
            lemma_committed_alike_2(a, b);
        } else if group == 3 {
            lemma_committed_alike_3(a, b);
        } else if group == 4 {
            lemma_committed_alike_4(a, b);
        } else if group == 5 {
            lemma_committed_alike_5(a, b);
        } else if group == 6 {
            lemma_committed_alike_6(a, b);
        } else if group == 7 {
            lemma_committed_alike_7(a, b);
        } else if group == 8 {
            lemma_committed_alike_8(a, b);
        } else {
            lemma_committed_alike_9(a, b);
        }
    }
}

proof fn lemma_finished_alike(a: Machine, b: Machine, inp: Inputs)
    requires
        a.alike(b),
    ensures
        a.finished(inp).alike(b.finished(inp)),
{
    broadcast use P::lemma_put_has;

}

/// In emulation mode the stored width flags do not matter: two machines
/// that differ in nothing else ask the same of the bus after a clock
/// cycle, and again differ in nothing else. So they ask the same of the
/// bus in every cycle, and their registers stay the same but for those
/// flags.
pub proof fn lemma_tick_alike(a: Machine, b: Machine, inp: Inputs)
    requires
        a.alike(b),
    ensures
        a.tick(inp).alike(b.tick(inp)),
        a.tick(inp).req == b.tick(inp).req,
{
    if inp.rdy && !(a.micro == Micro::Rest && !a.wakes(inp)) {
        let ca = a.complete(inp.data);
        let cb = b.complete(inp.data);
        lemma_complete_alike(a, b, inp.data);
        lemma_next_index_alike(ca, cb);
        let next = script(ca.instr, ca.next_index());
        if next == Micro::End {
            lemma_committed_alike(ca, cb);
            lemma_finished_alike(
                Machine { core: ca.committed(), ..ca },
                Machine { core: cb.committed(), ..cb },
                inp,
            );
        } else {
            lemma_request_alike(ca, cb, next);
        }
    }
}

/// A processor in emulation mode starts alike whatever the stored width
/// flags of the registers it is given; by [`lemma_tick_alike`] it then
/// behaves alike.
pub proof fn lemma_emulation_ignores_width_bits(core: Core, m: bool, x: bool)
    requires
        core.e,
    ensures
        Machine::power_on(Core { p: core.p.with_m(m).with_x(x), ..core }).alike(Machine::power_on(core)),
        Machine::power_on(Core { p: core.p.with_m(m).with_x(x), ..core }).req == Machine::power_on(core).req,
{
    broadcast use P::lemma_put_has;

}

/// Wait states are idempotent: with `RDY` deasserted a clock cycle changes
/// nothing, so the request on the bus is repeated and no register moves,
/// however often the step is repeated.
pub proof fn lemma_wait_state(m: Machine, inp: Inputs)
    requires
        !inp.rdy,
    ensures
        m.tick(inp) == m,
        m.tick(inp).req == m.req,
        m.tick(inp).core == m.core,
        m.tick(inp).tick(inp) == m,
{
}

impl Machine {
    /// Whether a clock cycle with these inputs completes an instruction, so
    /// that the requests for reset and interrupts are sampled.
    pub open spec fn at_boundary(self, inp: Inputs) -> bool {
        &&& inp.rdy
        &&& self.micro == Micro::Rest ==> self.wakes(inp)
        &&& script(self.complete(inp.data).instr, self.complete(inp.data).next_index()) == Micro::End
    }

    /// Whether the machine is at the first cycle of a reset sequence.
    pub open spec fn in_reset(self) -> bool {
        &&& self.instr == (Instr { op: Op::Reset, mode: Mode::Interrupt })
        &&& self.t == 0
        &&& self.micro == Micro::IntFetch
        &&& self.sp == self.core.s
        &&& self.core.valid()
        &&& self.core.e
        &&& self.core.p.i()
        &&& !self.core.p.d()
        &&& self.core.pbr == 0
        &&& self.req.rw
    }
}

/// Reset, recognized: a reset asserted at the end of an instruction wins
/// over everything else. The machine enters the reset sequence in
/// emulation mode, with interrupts disabled, decimal mode off and the
/// program bank zero, and its first request is a read.
pub proof fn lemma_reset_recognized(m: Machine, inp: Inputs)
    requires
        m.core.valid(),
        m.at_boundary(inp),
        inp.res,
    ensures
        m.tick(inp).in_reset(),
        m.tick(inp).core == reset_core(m.complete(inp.data).committed()),
{
    lemma_tick_keeps_valid(m, inp);
    lemma_reset_core(m.complete(inp.data).committed());
}

impl Machine {
    /// The cycle of a reset sequence at each of its seven stages, and its
    /// position in the row.
    pub open spec fn reset_micro(k: int) -> (Micro, u8) {
        if k == 0 {
            (Micro::IntFetch, 0)
        } else if k == 1 {
            (Micro::IoSame, 1)
        } else if k == 2 {
            (Micro::PushH, 3)
        } else if k == 3 {
            (Micro::PushL, 4)
        } else if k == 4 {
            (Micro::PushP, 5)
        } else if k == 5 {
            (Micro::Vec0, 6)
        } else {
            (Micro::Vec1, 7)
        }
    }

    /// Whether the machine is at stage `k` of a reset sequence: its request
    /// is a read, and the registers are as the reset forced them.
    pub open spec fn reset_stage(self, k: int) -> bool {
        &&& 0 <= k <= 6
        &&& self.instr == (Instr { op: Op::Reset, mode: Mode::Interrupt })
        &&& self.micro == Self::reset_micro(k).0
        &&& self.t == Self::reset_micro(k).1
        &&& self.core.valid()
        &&& self.core.e
        &&& self.core.p.i()
        &&& !self.core.p.d()
        &&& self.core.pbr == 0
        &&& self.req.rw
        &&& k == 5 ==> self.req.vp && self.req.bank == 0 && self.req.addr == 0xfffc
        &&& k == 6 ==> self.req.vp && self.req.bank == 0 && self.req.addr == 0xfffd
    }
}

/// One cycle of a reset sequence leads to its next stage; the low byte of
/// the vector is kept when it arrives.
#[verifier::rlimit(50)]
pub proof fn lemma_reset_step(m: Machine, inp: Inputs, k: int)
    requires
        m.reset_stage(k),
        k < 6,
        inp.rdy,
    ensures
        m.tick(inp).reset_stage(k + 1),
        k == 5 ==> lo(m.tick(inp).val) == inp.data,
{
    let c = m.complete(inp.data);
    assert(m.tick(inp) == c.sequenced(inp));
    assert(c.instr == m.instr && c.t == m.t && c.core.e && c.core.pbr == 0);
    if k == 0 {
        assert(c.next_index() == 1);
    } else if k == 1 {
        assert(c.skips(Micro::PushK));
        assert(!c.skips(Micro::PushH));
        assert(c.next_index() == 3);
    } else if k == 2 {
        assert(c.next_index() == 4);
    } else if k == 3 {
        assert(c.next_index() == 5);
    } else if k == 4 {
        let c1 = m.core.with_flag(P::I, true);
        m.core.lemma_with_flag_valid(P::I, true);
        c1.lemma_with_flag_valid(P::D, false);
        m.core.p.lemma_put_has(P::I, true, P::I);
        c1.p.lemma_put_has(P::D, false, P::I);
        c1.p.lemma_put_has(P::D, false, P::D);
        assert(c.core == c1.with_flag(P::D, false));
        assert(c.next_index() == 6);
    } else {
        assert(c.next_index() == 7);
    }
}

/// The last cycle of a reset sequence loads the program counter.
#[verifier::rlimit(50)]
pub proof fn lemma_reset_last(m: Machine, inp: Inputs)
    requires
        m.reset_stage(6),
        inp.rdy,
    ensures
        m.tick(inp).core.pc == word(lo(m.val), inp.data),
        m.tick(inp).core.e,
        m.tick(inp).core.p.i(),
        !m.tick(inp).core.p.d(),
        m.tick(inp).core.pbr == 0,
        m.tick(inp).core.valid(),
        m.tick(inp).t == 0,
{
    let c = m.complete(inp.data);
    assert(c.val == word(lo(m.val), inp.data));
    assert(c.next_index() == 8);
    c.core.lemma_with_s_valid(c.sp);
    assert(c.committed().pc == c.val);
    assert(c.committed().p == m.core.p);
    lemma_reset_core(c.committed());
    lemma_tick_keeps_valid(m, inp);
}

/// Reset, carried out: the sequence takes seven cycles, all of them reads,
/// so nothing is written to the stack. The last two pull the vector at
/// `00FFFC` and `00FFFD`, and the program counter is loaded from the two
/// bytes that they bring. The processor is then in emulation mode with
/// interrupts disabled, decimal mode off and the program bank zero.
pub proof fn lemma_reset_sequence(
    m: Machine,
    i1: Inputs,
    i2: Inputs,
    i3: Inputs,
    i4: Inputs,
    i5: Inputs,
    i6: Inputs,
    i7: Inputs,
)
    requires
        m.in_reset(),
        i1.rdy && i2.rdy && i3.rdy && i4.rdy && i5.rdy && i6.rdy && i7.rdy,
    ensures
        ({
            let m1 = m.tick(i1);
            let m2 = m1.tick(i2);
            let m3 = m2.tick(i3);
            let m4 = m3.tick(i4);
            let m5 = m4.tick(i5);
            let m6 = m5.tick(i6);
            let m7 = m6.tick(i7);
            &&& m.req.rw && m1.req.rw && m2.req.rw && m3.req.rw && m4.req.rw && m5.req.rw && m6.req.rw
            &&& m5.req.vp && m5.req.bank == 0 && m5.req.addr == 0xfffc
            &&& m6.req.vp && m6.req.bank == 0 && m6.req.addr == 0xfffd
            &&& m7.core.pc == word(i6.data, i7.data)
            &&& m7.core.e
            &&& m7.core.p.i()
            &&& !m7.core.p.d()
            &&& m7.core.pbr == 0
            &&& m7.core.valid()
            &&& m7.t == 0
        }),
{
    let m1 = m.tick(i1);
    let m2 = m1.tick(i2);
    let m3 = m2.tick(i3);
    let m4 = m3.tick(i4);
    let m5 = m4.tick(i5);
    let m6 = m5.tick(i6);
    assert(m.reset_stage(0));
    lemma_reset_step(m, i1, 0);
    lemma_reset_step(m1, i2, 1);
    lemma_reset_step(m2, i3, 2);
    lemma_reset_step(m3, i4, 3);
    lemma_reset_step(m4, i5, 4);
    lemma_reset_step(m5, i6, 5);
    lemma_reset_last(m6, i7);
}

impl Machine {
    /// Whether the machine is fetching an opcode: the state between two
    /// instructions when no interrupt has been taken.
    pub open spec fn fetching(self) -> bool {
        &&& self.micro == Micro::Opcode
        &&& self.t == 0
        &&& self.req == read_request(self.core.pbr, self.core.pc, true, true)
        &&& self.sp == self.core.s
        &&& self.core.valid()
    }
}

/// A clock cycle within an instruction: the cycle on the bus completes and
/// the next cycle of the row that is not left out takes its place.
pub proof fn lemma_step_within(m: Machine, inp: Inputs)
    requires
        inp.rdy,
        m.micro != Micro::Rest,
        script(m.complete(inp.data).instr, m.complete(inp.data).next_index()) != Micro::End,
    ensures
        m.tick(inp) == ({
            let c = m.complete(inp.data);
            Machine {
                t: c.next_index(),
                micro: script(c.instr, c.next_index()),
                req: c.request(script(c.instr, c.next_index())),
                ..c
            }
        }),
{
}

/// The last clock cycle of an instruction, with no reset asserted: the
/// registers are those that the instruction commits.
pub proof fn lemma_step_last(m: Machine, inp: Inputs)
    requires
        inp.rdy,
        !inp.res,
        m.micro != Micro::Rest,
        script(m.complete(inp.data).instr, m.complete(inp.data).next_index()) == Micro::End,
    ensures
        m.tick(inp).core == m.complete(inp.data).committed(),
        m.tick(inp).t == 0,
{
}

/// The opcode fetch completes: the byte is decoded and the program counter
/// moves past it.
pub proof fn lemma_opcode_completes(m: Machine, data: u8)
    requires
        m.micro == Micro::Opcode,
    ensures
        m.complete(data) == (Machine {
            instr: decode(data),
            core: Core { pc: m.core.pc.wrapping_add(1), ..m.core },
            ..m
        }),
{
}

proof fn lemma_decode_lda_immediate()
    ensures
        decode(0xa9u8) == (Instr { op: Op::Lda, mode: Mode::Immediate }),
{
}

#[verifier::rlimit(50)]
proof fn lemma_relative_is_branch(b: u8)
    requires
        decode(b).mode == Mode::Relative,
    ensures
        decode(b).op == Op::Bpl || decode(b).op == Op::Bmi || decode(b).op == Op::Bvc || decode(b).op
            == Op::Bvs || decode(b).op == Op::Bcc || decode(b).op == Op::Bcs || decode(b).op == Op::Bne
            || decode(b).op == Op::Beq || decode(b).op == Op::Bra,
{
}

proof fn lemma_branch_row(instr: Instr)
    requires
        instr.mode == Mode::Relative,
        instr.op == Op::Bpl || instr.op == Op::Bmi || instr.op == Op::Bvc || instr.op == Op::Bvs
            || instr.op == Op::Bcc || instr.op == Op::Bcs || instr.op == Op::Bne || instr.op == Op::Beq
            || instr.op == Op::Bra,
    ensures
        script(instr, 1) == Micro::Arg0,
        script(instr, 2) == Micro::IoTaken,
        script(instr, 3) == Micro::IoCross,
        script(instr, 4) == Micro::End,
{
}

proof fn lemma_immediate_row()
    ensures
        script(Instr { op: Op::Lda, mode: Mode::Immediate }, 1) == Micro::Imm0,
        script(Instr { op: Op::Lda, mode: Mode::Immediate }, 2) == Micro::Imm1,
        script(Instr { op: Op::Lda, mode: Mode::Immediate }, 3) == Micro::End,
{
}

/// What a load of the accumulator commits: the value at the width of the
/// accumulator, `N` and `Z` from it at that width, and nothing else.
#[verifier::rlimit(50)]
pub proof fn lemma_lda_commits(c: Machine)
    requires
        c.instr.op == Op::Lda,
        c.core.valid(),
        c.sp == c.core.s,
    ensures
        c.committed().a == merge(c.core.a, c.val, c.core.m8()),
        c.committed().p.n() == msb(c.val, c.core.m8()),
        c.committed().p.z() == zero(c.val, c.core.m8()),
        c.committed().p@ == (Flags {
            n: msb(c.val, c.core.m8()),
            z: zero(c.val, c.core.m8()),
            ..c.core.p@
        }),
        c.committed() == (Core { a: c.committed().a, p: c.committed().p, ..c.core }),
{
    assert(c.core.with_s(c.sp) == c.core);
    let loaded = c.core.with_a(c.val);
    assert(c.committed() == loaded.with_nz(c.val, c.core.m8()));
    loaded.lemma_with_nz(c.val, c.core.m8());
}

#[verifier::rlimit(50)]
proof fn lemma_lda_immediate_fetched(m: Machine, i1: Inputs)
    requires
        m.fetching(),
        i1.rdy,
        i1.data == 0xa9,
    ensures
        m.tick(i1) == (Machine {
            instr: Instr { op: Op::Lda, mode: Mode::Immediate },
            core: Core { pc: m.core.pc.wrapping_add(1), ..m.core },
            t: 1,
            micro: Micro::Imm0,
            req: read_request(m.core.pbr, m.core.pc.wrapping_add(1), false, true),
            ..m
        }),
{
    lemma_decode_lda_immediate();
    lemma_immediate_row();
    lemma_opcode_completes(m, i1.data);
    let c0 = m.complete(i1.data);
    assert(!c0.skips(Micro::Imm0));
    assert(c0.next_index() == 1);
    lemma_step_within(m, i1);
}

#[verifier::rlimit(50)]
proof fn lemma_lda_immediate_low(m1: Machine, i2: Inputs)
    requires
        m1.instr == (Instr { op: Op::Lda, mode: Mode::Immediate }),
        m1.micro == Micro::Imm0,
        m1.t == 1,
        !m1.core.m8(),
        i2.rdy,
    ensures
        m1.tick(i2) == (Machine {
            core: Core { pc: m1.core.pc.wrapping_add(1), ..m1.core },
            t: 2,
            micro: Micro::Imm1,
            req: read_request(m1.core.pbr, m1.core.pc.wrapping_add(1), false, true),
            val: i2.data as u16,
            ..m1
        }),
{
    lemma_immediate_row();
    let c1 = m1.complete(i2.data);
    assert(c1 == (Machine { val: i2.data as u16, core: Core { pc: m1.core.pc.wrapping_add(1), ..m1.core }, ..m1 }));
    assert(!c1.skips(Micro::Imm1));
    assert(c1.next_index() == 2);
    lemma_step_within(m1, i2);
}

/// Load accumulator, immediate, at 16 bits: three cycles, the opcode fetch
/// and two operand fetches, none of them a write. The whole operand goes to
/// the accumulator, `N` is its bit 15 and `Z` tells that all 16 bits are
/// zero; the other six flags and the other registers stay.
#[verifier::rlimit(50)]
pub proof fn lemma_lda_immediate_wide(m: Machine, i1: Inputs, i2: Inputs, i3: Inputs)
    requires
        m.fetching(),
        !m.core.m8(),
        i1.rdy && i2.rdy && i3.rdy,
        i1.data == 0xa9,
        !i3.res,
    ensures
        ({
            let m1 = m.tick(i1);
            let m2 = m1.tick(i2);
            let m3 = m2.tick(i3);
            &&& m1.req == read_request(m.core.pbr, m.core.pc.wrapping_add(1), false, true)
            &&& m2.req == read_request(m.core.pbr, m.core.pc.wrapping_add(2), false, true)
            &&& m3.t == 0
            &&& m3.core.a == word(i2.data, i3.data)
            &&& m3.core.p.n() == (i3.data >= 0x80)
            &&& m3.core.p.z() == (i2.data == 0 && i3.data == 0)
            &&& m3.core.p@ == (Flags { n: i3.data >= 0x80, z: i2.data == 0 && i3.data == 0, ..m.core.p@ })
            &&& m3.core.pc == m.core.pc.wrapping_add(3)
            &&& m3.core == (Core { a: m3.core.a, p: m3.core.p, pc: m3.core.pc, ..m.core })
        }),
{
    lemma_lda_immediate_fetched(m, i1);
    let m1 = m.tick(i1);
    lemma_lda_immediate_low(m1, i2);
    let m2 = m1.tick(i2);
    lemma_immediate_row();
    let c2 = m2.complete(i3.data);
    assert(c2 == (Machine {
        val: word(i2.data, i3.data),
        core: Core { pc: m2.core.pc.wrapping_add(1), ..m2.core },
        ..m2
    }));
    assert(c2.next_index() == 3);
    lemma_step_last(m2, i3);
    lemma_lda_commits(c2);
}

/// Load accumulator, immediate, at 8 bits, as always in emulation mode
/// whatever the stored width flags: two cycles, no write. Only the low byte
/// of the accumulator changes, `N` and `Z` are those of the byte, and the
/// other six flags and the other registers stay.
#[verifier::rlimit(50)]
pub proof fn lemma_lda_immediate_narrow(m: Machine, i1: Inputs, i2: Inputs)
    requires
        m.fetching(),
        m.core.m8(),
        i1.rdy && i2.rdy,
        i1.data == 0xa9,
        !i2.res,
    ensures
        ({
            let m1 = m.tick(i1);
            let m2 = m1.tick(i2);
            &&& m1.req == read_request(m.core.pbr, m.core.pc.wrapping_add(1), false, true)
            &&& m2.t == 0
            &&& m2.core.a == word(i2.data, hi(m.core.a))
            &&& m2.core.p.n() == (i2.data >= 0x80)
            &&& m2.core.p.z() == (i2.data == 0)
            &&& m2.core.p@ == (Flags { n: i2.data >= 0x80, z: i2.data == 0, ..m.core.p@ })
            &&& m2.core.pc == m.core.pc.wrapping_add(2)
            &&& m2.core == (Core { a: m2.core.a, p: m2.core.p, pc: m2.core.pc, ..m.core })
        }),
{
    lemma_lda_immediate_fetched(m, i1);
    let m1 = m.tick(i1);
    lemma_immediate_row();
    let c1 = m1.complete(i2.data);
    assert(c1 == (Machine { val: i2.data as u16, core: Core { pc: m1.core.pc.wrapping_add(1), ..m1.core }, ..m1 }));
    assert(c1.skips(Micro::Imm1));
    assert(!c1.skips(Micro::End));
    assert(c1.next_index() == 3);
    lemma_step_last(m1, i2);
    lemma_lda_commits(c1);
}

/// A conditional branch whose condition is false takes two cycles, the
/// opcode fetch and the operand fetch, in either mode and wherever it
/// points: there is no cycle for taking it and none for leaving the page.
/// It changes nothing but the program counter, which moves past it.
#[verifier::rlimit(50)]
pub proof fn lemma_branch_not_taken(m: Machine, i1: Inputs, i2: Inputs)
    requires
        m.fetching(),
        i1.rdy && i2.rdy,
        decode(i1.data).mode == Mode::Relative,
        !(Machine { instr: decode(i1.data), ..m }).taken(),
        !i2.res,
    ensures
        ({
            let m1 = m.tick(i1);
            let m2 = m1.tick(i2);
            &&& m1.req == read_request(m.core.pbr, m.core.pc.wrapping_add(1), false, true)
            &&& m2.t == 0
            &&& m2.core == (Core { pc: m.core.pc.wrapping_add(2), ..m.core })
        }),
{
    let branch = decode(i1.data);
    lemma_relative_is_branch(i1.data);
    lemma_branch_row(branch);
    lemma_opcode_completes(m, i1.data);
    let c0 = m.complete(i1.data);
    assert(c0.instr == branch && c0.t == 0);
    assert(!c0.skips(Micro::Arg0));
    assert(c0.next_index() == 1);
    lemma_step_within(m, i1);
    let m1 = m.tick(i1);
    assert(m1.micro == Micro::Arg0 && m1.t == 1 && m1.instr == branch);
    assert(m1.req == read_request(m.core.pbr, m.core.pc.wrapping_add(1), false, true));
    let c1 = m1.complete(i2.data);
    assert(c1.instr == branch && c1.t == 1);
    assert(c1.core == (Core { pc: m.core.pc.wrapping_add(2), ..m.core }));
    assert(c1.sp == m.core.s);
    assert(c1.taken() == (Machine { instr: branch, ..m }).taken());
    assert(c1.skips(Micro::IoTaken));
    assert(c1.skips(Micro::IoCross));
    assert(c1.next_index() == 4);
    lemma_step_last(m1, i2);
    assert(c1.core.with_s(c1.sp) == c1.core);
    assert(c1.committed() == c1.core);
}

/// The first clock cycle after power-on, with memory ready and no reset
/// or interrupt asserted, puts the first opcode fetch on the bus and
/// leaves the registers as they were taken in.
pub proof fn lemma_power_on_fetches(core: Core, inp: Inputs)
    requires
        inp.rdy,
        !inp.res,
        !inp.nmi,
        !inp.irq,
    ensures
        Machine::power_on(core).tick(inp).fetching(),
        Machine::power_on(core).tick(inp).core == core.normalized(),
        Machine::power_on(core).tick(inp).core.p == core.p,
{
    let m = Machine::power_on(core);
    core.lemma_normalized();
    let c = m.complete(inp.data);
    assert(c == m);
    assert(script(m.instr, 2) == Micro::End);
    assert(!m.skips(Micro::End));
    assert(m.next_index() == 2);
    assert(m.core.with_s(m.sp) == m.core);
    assert(m.committed() == m.core);
}

proof fn lemma_decode_ldx_immediate()
    ensures
        decode(0xa2u8) == (Instr { op: Op::Ldx, mode: Mode::Immediate }),
        script(Instr { op: Op::Ldx, mode: Mode::Immediate }, 1) == Micro::Imm0,
        script(Instr { op: Op::Ldx, mode: Mode::Immediate }, 2) == Micro::Imm1,
        script(Instr { op: Op::Ldx, mode: Mode::Immediate }, 3) == Micro::End,
{
}

/// What a load of X commits: the value at the width of the index
/// registers, `N` and `Z` from it at that width, and nothing else.
#[verifier::rlimit(50)]
pub proof fn lemma_ldx_commits(c: Machine)
    requires
        c.instr.op == Op::Ldx,
        c.core.valid(),
        c.sp == c.core.s,
    ensures
        c.committed().x == (if c.core.x8() { wide(lo(c.val)) } else { c.val }),
        c.committed().p@ == (Flags {
            n: msb(c.val, c.core.x8()),
            z: zero(c.val, c.core.x8()),
            ..c.core.p@
        }),
        c.committed() == (Core { x: c.committed().x, p: c.committed().p, ..c.core }),
{
    assert(c.core.with_s(c.sp) == c.core);
    let loaded = c.core.with_x(c.val);
    assert(c.committed() == loaded.with_nz(c.val, c.core.x8()));
    loaded.lemma_with_nz(c.val, c.core.x8());
}

#[verifier::rlimit(50)]
proof fn lemma_ldx_immediate_fetched(m: Machine, i1: Inputs)
    requires
        m.fetching(),
        i1.rdy,
        i1.data == 0xa2,
    ensures
        m.tick(i1) == (Machine {
            instr: Instr { op: Op::Ldx, mode: Mode::Immediate },
            core: Core { pc: m.core.pc.wrapping_add(1), ..m.core },
            t: 1,
            micro: Micro::Imm0,
            req: read_request(m.core.pbr, m.core.pc.wrapping_add(1), false, true),
            ..m
        }),
{
    lemma_decode_ldx_immediate();
    lemma_opcode_completes(m, i1.data);
    let c0 = m.complete(i1.data);
    assert(!c0.skips(Micro::Imm0));
    assert(c0.next_index() == 1);
    lemma_step_within(m, i1);
}

/// Load X, immediate, at 8 bits, as always in emulation mode whatever the
/// stored width flags: two cycles, no write. X is the operand byte with a
/// zero high byte, `N` and `Z` are those of the byte, and the other six
/// flags and the other registers stay.
#[verifier::rlimit(50)]
pub proof fn lemma_ldx_immediate_narrow(m: Machine, i1: Inputs, i2: Inputs)
    requires
        m.fetching(),
        m.core.x8(),
        i1.rdy && i2.rdy,
        i1.data == 0xa2,
        !i2.res,
    ensures
        ({
            let m1 = m.tick(i1);
            let m2 = m1.tick(i2);
            &&& m1.req == read_request(m.core.pbr, m.core.pc.wrapping_add(1), false, true)
            &&& m2.t == 0
            &&& m2.core.x == i2.data as u16
            &&& m2.core.p@ == (Flags { n: i2.data >= 0x80, z: i2.data == 0, ..m.core.p@ })
            &&& m2.core.pc == m.core.pc.wrapping_add(2)
            &&& m2.core == (Core { x: m2.core.x, p: m2.core.p, pc: m2.core.pc, ..m.core })
        }),
{
    lemma_ldx_immediate_fetched(m, i1);
    let m1 = m.tick(i1);
    lemma_decode_ldx_immediate();
    let c1 = m1.complete(i2.data);
    assert(c1 == (Machine { val: i2.data as u16, core: Core { pc: m1.core.pc.wrapping_add(1), ..m1.core }, ..m1 }));
    assert(c1.skips(Micro::Imm1));
    assert(!c1.skips(Micro::End));
    assert(c1.next_index() == 3);
    lemma_step_last(m1, i2);
    lemma_ldx_commits(c1);
}

} // verus!
