//! The cycles of each instruction, one row per instruction shape.

use crate::instruction::{Class, Instr, Mode, Op, Width};
use vstd::prelude::*;

verus! {

/// One bus cycle of an instruction.
#[derive(Copy, Clone, Debug, PartialEq, Eq, Structural)]
pub enum Micro {
    /// Opcode fetch.
    Opcode,
    /// First cycle of a hardware sequence: an opcode fetch whose byte is dropped.
    IntFetch,
    /// Operand bytes: low, high, bank.
    Arg0,
    Arg1,
    Arg2,
    /// Immediate data: low, high.
    Imm0,
    Imm1,
    /// Internal cycle with the program counter on the address bus.
    IoPc,
    /// Internal cycle; the address bus holds.
    IoSame,
    /// Internal cycle taken when the direct page is not page-aligned.
    IoDp,
    /// Internal cycle at the indexed address before its page is fixed.
    IoIndex,
    /// Internal cycle of a branch that is taken.
    IoTaken,
    /// Internal cycle of a taken branch that leaves its page in emulation mode.
    IoCross,
    /// Pointer bytes: low, high, bank.
    Ptr0,
    Ptr1,
    Ptr2,
    /// Data read: low, high.
    Read0,
    Read1,
    /// The internal cycle of a read-modify-write.
    Modify,
    /// Write back of a read-modify-write: high, then low.
    Write1,
    Write0,
    /// Store: low, then high.
    Store0,
    Store1,
    /// Pushes: program bank, high byte, low byte, status.
    PushK,
    PushH,
    PushL,
    PushP,
    /// Pulls: status, low byte, high byte, bank.
    PullP,
    PullL,
    PullH,
    PullB,
    /// Vector pull: low, high.
    Vec0,
    Vec1,
    /// Block move: read of the source byte, write of the destination byte.
    MoveRead,
    MoveWrite,
    /// The processor rests until an interrupt or a reset.
    Rest,
    /// No cycle: the instruction is complete.
    End,
}

/// The cycle at position `t` of a row; position 1 is the cycle after the
/// opcode fetch. Past its last cycle a row has ended.
pub open spec fn spec_row(t: u8, m1: Micro, m2: Micro, m3: Micro, m4: Micro, m5: Micro, m6: Micro, m7: Micro) -> Micro {
    if t == 1 {
        m1
    } else if t == 2 {
        m2
    } else if t == 3 {
        m3
    } else if t == 4 {
        m4
    } else if t == 5 {
        m5
    } else if t == 6 {
        m6
    } else if t == 7 {
        m7
    } else {
        Micro::End
    }
}

/// Computes [`spec_row`].
#[verifier::when_used_as_spec(spec_row)]
pub fn row(t: u8, m1: Micro, m2: Micro, m3: Micro, m4: Micro, m5: Micro, m6: Micro, m7: Micro) -> (r: Micro)
    ensures
        r == spec_row(t, m1, m2, m3, m4, m5, m6, m7),
{
    if t == 1 {
        m1
    } else if t == 2 {
        m2
    } else if t == 3 {
        m3
    } else if t == 4 {
        m4
    } else if t == 5 {
        m5
    } else if t == 6 {
        m6
    } else if t == 7 {
        m7
    } else {
        Micro::End
    }
}

/// The cycles that touch the operand once its address is known: cycle `k`
/// (from 1) of a read, a store or a read-modify-write.
pub open spec fn spec_access(class: Class, k: u8) -> Micro {
    match class {
        Class::Read => row(k, Micro::Read0, Micro::Read1, Micro::End, Micro::End, Micro::End, Micro::End, Micro::End),
        Class::Write => row(k, Micro::Store0, Micro::Store1, Micro::End, Micro::End, Micro::End, Micro::End, Micro::End),
        Class::Modify => row(k, Micro::Read0, Micro::Read1, Micro::Modify, Micro::Write1, Micro::Write0, Micro::End, Micro::End),
        Class::Other => Micro::End,
    }
}

/// Computes [`spec_access`].
#[verifier::when_used_as_spec(spec_access)]
pub fn access(class: Class, k: u8) -> (r: Micro)
    ensures
        r == spec_access(class, k),
{
    match class {
        Class::Read => row(k, Micro::Read0, Micro::Read1, Micro::End, Micro::End, Micro::End, Micro::End, Micro::End),
        Class::Write => row(k, Micro::Store0, Micro::Store1, Micro::End, Micro::End, Micro::End, Micro::End, Micro::End),
        Class::Modify => row(k, Micro::Read0, Micro::Read1, Micro::Modify, Micro::Write1, Micro::Write0, Micro::End, Micro::End),
        Class::Other => Micro::End,
    }
}

/// The cycles by which a data addressing mode finds its operand, then the
/// access itself.
pub open spec fn spec_addressed(mode: Mode, class: Class, t: u8) -> Micro {
    match mode {
        Mode::Immediate => row(t, Micro::Imm0, Micro::Imm1, Micro::End, Micro::End, Micro::End, Micro::End, Micro::End),
        Mode::Relative => row(t, Micro::Arg0, Micro::IoTaken, Micro::IoCross, Micro::End, Micro::End, Micro::End, Micro::End),
        Mode::Direct => if t <= 2 {
            row(t, Micro::Arg0, Micro::IoDp, Micro::End, Micro::End, Micro::End, Micro::End, Micro::End)
        } else {
            access(class, (t - 2) as u8)
        },
        Mode::DirectX | Mode::DirectY => if t <= 3 {
            row(t, Micro::Arg0, Micro::IoDp, Micro::IoSame, Micro::End, Micro::End, Micro::End, Micro::End)
        } else {
            access(class, (t - 3) as u8)
        },
        Mode::DirectIndirect => if t <= 4 {
            row(t, Micro::Arg0, Micro::IoDp, Micro::Ptr0, Micro::Ptr1, Micro::End, Micro::End, Micro::End)
        } else {
            access(class, (t - 4) as u8)
        },
        Mode::DirectIndexedIndirect => if t <= 5 {
            row(t, Micro::Arg0, Micro::IoDp, Micro::IoSame, Micro::Ptr0, Micro::Ptr1, Micro::End, Micro::End)
        } else {
            access(class, (t - 5) as u8)
        },
        Mode::DirectIndirectIndexed => if t <= 5 {
            row(t, Micro::Arg0, Micro::IoDp, Micro::Ptr0, Micro::Ptr1, Micro::IoIndex, Micro::End, Micro::End)
        } else {
            access(class, (t - 5) as u8)
        },
        Mode::DirectIndirectLong | Mode::DirectIndirectLongIndexed => if t <= 5 {
            row(t, Micro::Arg0, Micro::IoDp, Micro::Ptr0, Micro::Ptr1, Micro::Ptr2, Micro::End, Micro::End)
        } else {
            access(class, (t - 5) as u8)
        },
        Mode::Absolute => if t <= 2 {
            row(t, Micro::Arg0, Micro::Arg1, Micro::End, Micro::End, Micro::End, Micro::End, Micro::End)
        } else {
            access(class, (t - 2) as u8)
        },
        Mode::AbsoluteX | Mode::AbsoluteY => if t <= 3 {
            row(t, Micro::Arg0, Micro::Arg1, Micro::IoIndex, Micro::End, Micro::End, Micro::End, Micro::End)
        } else {
            access(class, (t - 3) as u8)
        },
        Mode::AbsoluteLong | Mode::AbsoluteLongX => if t <= 3 {
            row(t, Micro::Arg0, Micro::Arg1, Micro::Arg2, Micro::End, Micro::End, Micro::End, Micro::End)
        } else {
            access(class, (t - 3) as u8)
        },
        Mode::StackRelative => if t <= 2 {
            row(t, Micro::Arg0, Micro::IoSame, Micro::End, Micro::End, Micro::End, Micro::End, Micro::End)
        } else {
            access(class, (t - 2) as u8)
        },
        Mode::StackRelativeIndirectIndexed => if t <= 5 {
            row(t, Micro::Arg0, Micro::IoSame, Micro::Ptr0, Micro::Ptr1, Micro::IoSame, Micro::End, Micro::End)
        } else {
            access(class, (t - 5) as u8)
        },
        _ => row(t, Micro::IoPc, Micro::End, Micro::End, Micro::End, Micro::End, Micro::End, Micro::End),
    }
}

/// Computes [`spec_addressed`].
#[verifier::when_used_as_spec(spec_addressed)]
pub fn addressed(mode: Mode, class: Class, t: u8) -> (r: Micro)
    ensures
        r == spec_addressed(mode, class, t),
{
    match mode {
        Mode::Immediate => row(t, Micro::Imm0, Micro::Imm1, Micro::End, Micro::End, Micro::End, Micro::End, Micro::End),
        Mode::Relative => row(t, Micro::Arg0, Micro::IoTaken, Micro::IoCross, Micro::End, Micro::End, Micro::End, Micro::End),
        Mode::Direct => if t <= 2 {
            row(t, Micro::Arg0, Micro::IoDp, Micro::End, Micro::End, Micro::End, Micro::End, Micro::End)
        } else {
            access(class, (t - 2) as u8)
        },
        Mode::DirectX | Mode::DirectY => if t <= 3 {
            row(t, Micro::Arg0, Micro::IoDp, Micro::IoSame, Micro::End, Micro::End, Micro::End, Micro::End)
        } else {
            access(class, (t - 3) as u8)
        },
        Mode::DirectIndirect => if t <= 4 {
            row(t, Micro::Arg0, Micro::IoDp, Micro::Ptr0, Micro::Ptr1, Micro::End, Micro::End, Micro::End)
        } else {
            access(class, (t - 4) as u8)
        },
        Mode::DirectIndexedIndirect => if t <= 5 {
            row(t, Micro::Arg0, Micro::IoDp, Micro::IoSame, Micro::Ptr0, Micro::Ptr1, Micro::End, Micro::End)
        } else {
            access(class, (t - 5) as u8)
        },
        Mode::DirectIndirectIndexed => if t <= 5 {
            row(t, Micro::Arg0, Micro::IoDp, Micro::Ptr0, Micro::Ptr1, Micro::IoIndex, Micro::End, Micro::End)
        } else {
            access(class, (t - 5) as u8)
        },
        Mode::DirectIndirectLong | Mode::DirectIndirectLongIndexed => if t <= 5 {
            row(t, Micro::Arg0, Micro::IoDp, Micro::Ptr0, Micro::Ptr1, Micro::Ptr2, Micro::End, Micro::End)
        } else {
            access(class, (t - 5) as u8)
        },
        Mode::Absolute => if t <= 2 {
            row(t, Micro::Arg0, Micro::Arg1, Micro::End, Micro::End, Micro::End, Micro::End, Micro::End)
        } else {
            access(class, (t - 2) as u8)
        },
        Mode::AbsoluteX | Mode::AbsoluteY => if t <= 3 {
            row(t, Micro::Arg0, Micro::Arg1, Micro::IoIndex, Micro::End, Micro::End, Micro::End, Micro::End)
        } else {
            access(class, (t - 3) as u8)
        },
        Mode::AbsoluteLong | Mode::AbsoluteLongX => if t <= 3 {
            row(t, Micro::Arg0, Micro::Arg1, Micro::Arg2, Micro::End, Micro::End, Micro::End, Micro::End)
        } else {
            access(class, (t - 3) as u8)
        },
        Mode::StackRelative => if t <= 2 {
            row(t, Micro::Arg0, Micro::IoSame, Micro::End, Micro::End, Micro::End, Micro::End, Micro::End)
        } else {
            access(class, (t - 2) as u8)
        },
        Mode::StackRelativeIndirectIndexed => if t <= 5 {
            row(t, Micro::Arg0, Micro::IoSame, Micro::Ptr0, Micro::Ptr1, Micro::IoSame, Micro::End, Micro::End)
        } else {
            access(class, (t - 5) as u8)
        },
        _ => row(t, Micro::IoPc, Micro::End, Micro::End, Micro::End, Micro::End, Micro::End, Micro::End),
    }
}

/// The cycle at position `t` of an instruction. Position 0 is the opcode
/// fetch. Some cycles are left out when the instruction runs: see
/// `Machine::skips`. The instructions that jump, use the stack or stop have
/// a row of their own; all others go by their addressing mode.
pub open spec fn spec_script(instr: Instr, t: u8) -> Micro {
    if t == 0 {
        if instr.mode == Mode::Interrupt {
            Micro::IntFetch
        } else {
            Micro::Opcode
        }
    } else {
        match instr.op {
            Op::Irq | Op::Nmi | Op::Reset => row(t, Micro::IoSame, Micro::PushK, Micro::PushH, Micro::PushL, Micro::PushP, Micro::Vec0, Micro::Vec1),
            Op::Brk | Op::Cop => row(t, Micro::Arg0, Micro::PushK, Micro::PushH, Micro::PushL, Micro::PushP, Micro::Vec0, Micro::Vec1),
            Op::Jsr => if instr.mode == Mode::AbsoluteIndexedIndirect {
                row(t, Micro::Arg0, Micro::PushH, Micro::PushL, Micro::Arg1, Micro::IoSame, Micro::Ptr0, Micro::Ptr1)
            } else {
                row(t, Micro::Arg0, Micro::Arg1, Micro::IoSame, Micro::PushH, Micro::PushL, Micro::End, Micro::End)
            },
            Op::Jsl => row(t, Micro::Arg0, Micro::Arg1, Micro::PushK, Micro::IoSame, Micro::Arg2, Micro::PushH, Micro::PushL),
            Op::Jmp => if instr.mode == Mode::AbsoluteIndirect {
                row(t, Micro::Arg0, Micro::Arg1, Micro::Ptr0, Micro::Ptr1, Micro::End, Micro::End, Micro::End)
            } else if instr.mode == Mode::AbsoluteIndexedIndirect {
                row(t, Micro::Arg0, Micro::Arg1, Micro::IoSame, Micro::Ptr0, Micro::Ptr1, Micro::End, Micro::End)
            } else {
                row(t, Micro::Arg0, Micro::Arg1, Micro::End, Micro::End, Micro::End, Micro::End, Micro::End)
            },
            Op::Jml => if instr.mode == Mode::AbsoluteIndirectLong {
                row(t, Micro::Arg0, Micro::Arg1, Micro::Ptr0, Micro::Ptr1, Micro::Ptr2, Micro::End, Micro::End)
            } else {
                row(t, Micro::Arg0, Micro::Arg1, Micro::Arg2, Micro::End, Micro::End, Micro::End, Micro::End)
            },
            Op::Rts => row(t, Micro::IoPc, Micro::IoSame, Micro::PullL, Micro::PullH, Micro::IoSame, Micro::End, Micro::End),
            Op::Rtl => row(t, Micro::IoPc, Micro::IoSame, Micro::PullL, Micro::PullH, Micro::PullB, Micro::End, Micro::End),
            Op::Rti => row(t, Micro::IoPc, Micro::IoSame, Micro::PullP, Micro::PullL, Micro::PullH, Micro::PullB, Micro::End),
            Op::Pha | Op::Phx | Op::Phy | Op::Php | Op::Phb | Op::Phd | Op::Phk => row(t, Micro::IoPc, Micro::PushH, Micro::PushL, Micro::End, Micro::End, Micro::End, Micro::End),
            Op::Pla | Op::Plx | Op::Ply | Op::Plp | Op::Plb | Op::Pld => row(t, Micro::IoPc, Micro::IoSame, Micro::PullL, Micro::PullH, Micro::End, Micro::End, Micro::End),
            Op::Pea => row(t, Micro::Arg0, Micro::Arg1, Micro::PushH, Micro::PushL, Micro::End, Micro::End, Micro::End),
            Op::Pei => row(t, Micro::Arg0, Micro::IoDp, Micro::Ptr0, Micro::Ptr1, Micro::PushH, Micro::PushL, Micro::End),
            Op::Per => row(t, Micro::Arg0, Micro::Arg1, Micro::IoSame, Micro::PushH, Micro::PushL, Micro::End, Micro::End),
            Op::Brl => row(t, Micro::Arg0, Micro::Arg1, Micro::IoSame, Micro::End, Micro::End, Micro::End, Micro::End),
            Op::Mvn | Op::Mvp => row(t, Micro::Arg0, Micro::Arg1, Micro::MoveRead, Micro::MoveWrite, Micro::IoSame, Micro::IoSame, Micro::End),
            Op::Xba => row(t, Micro::IoPc, Micro::IoSame, Micro::End, Micro::End, Micro::End, Micro::End, Micro::End),
            Op::Stp | Op::Wai => row(t, Micro::IoPc, Micro::Rest, Micro::End, Micro::End, Micro::End, Micro::End, Micro::End),
            Op::Wdm => row(t, Micro::Arg0, Micro::End, Micro::End, Micro::End, Micro::End, Micro::End, Micro::End),
            Op::Rep | Op::Sep => row(t, Micro::Imm0, Micro::IoSame, Micro::End, Micro::End, Micro::End, Micro::End, Micro::End),
            _ => addressed(instr.mode, instr.op.class(), t),
        }
    }
}

/// Computes [`spec_script`].
#[verifier::when_used_as_spec(spec_script)]
pub fn script(instr: Instr, t: u8) -> (r: Micro)
    ensures
        r == spec_script(instr, t),
{
    if t == 0 {
        if instr.mode == Mode::Interrupt {
            Micro::IntFetch
        } else {
            Micro::Opcode
        }
    } else {
        match instr.op {
            Op::Irq | Op::Nmi | Op::Reset => row(t, Micro::IoSame, Micro::PushK, Micro::PushH, Micro::PushL, Micro::PushP, Micro::Vec0, Micro::Vec1),
            Op::Brk | Op::Cop => row(t, Micro::Arg0, Micro::PushK, Micro::PushH, Micro::PushL, Micro::PushP, Micro::Vec0, Micro::Vec1),
            Op::Jsr => if instr.mode == Mode::AbsoluteIndexedIndirect {
                row(t, Micro::Arg0, Micro::PushH, Micro::PushL, Micro::Arg1, Micro::IoSame, Micro::Ptr0, Micro::Ptr1)
            } else {
                row(t, Micro::Arg0, Micro::Arg1, Micro::IoSame, Micro::PushH, Micro::PushL, Micro::End, Micro::End)
            },
            Op::Jsl => row(t, Micro::Arg0, Micro::Arg1, Micro::PushK, Micro::IoSame, Micro::Arg2, Micro::PushH, Micro::PushL),
            Op::Jmp => if instr.mode == Mode::AbsoluteIndirect {
                row(t, Micro::Arg0, Micro::Arg1, Micro::Ptr0, Micro::Ptr1, Micro::End, Micro::End, Micro::End)
            } else if instr.mode == Mode::AbsoluteIndexedIndirect {
                row(t, Micro::Arg0, Micro::Arg1, Micro::IoSame, Micro::Ptr0, Micro::Ptr1, Micro::End, Micro::End)
            } else {
                row(t, Micro::Arg0, Micro::Arg1, Micro::End, Micro::End, Micro::End, Micro::End, Micro::End)
            },
            Op::Jml => if instr.mode == Mode::AbsoluteIndirectLong {
                row(t, Micro::Arg0, Micro::Arg1, Micro::Ptr0, Micro::Ptr1, Micro::Ptr2, Micro::End, Micro::End)
            } else {
                row(t, Micro::Arg0, Micro::Arg1, Micro::Arg2, Micro::End, Micro::End, Micro::End, Micro::End)
            },
            Op::Rts => row(t, Micro::IoPc, Micro::IoSame, Micro::PullL, Micro::PullH, Micro::IoSame, Micro::End, Micro::End),
            Op::Rtl => row(t, Micro::IoPc, Micro::IoSame, Micro::PullL, Micro::PullH, Micro::PullB, Micro::End, Micro::End),
            Op::Rti => row(t, Micro::IoPc, Micro::IoSame, Micro::PullP, Micro::PullL, Micro::PullH, Micro::PullB, Micro::End),
            Op::Pha | Op::Phx | Op::Phy | Op::Php | Op::Phb | Op::Phd | Op::Phk => row(t, Micro::IoPc, Micro::PushH, Micro::PushL, Micro::End, Micro::End, Micro::End, Micro::End),
            Op::Pla | Op::Plx | Op::Ply | Op::Plp | Op::Plb | Op::Pld => row(t, Micro::IoPc, Micro::IoSame, Micro::PullL, Micro::PullH, Micro::End, Micro::End, Micro::End),
            Op::Pea => row(t, Micro::Arg0, Micro::Arg1, Micro::PushH, Micro::PushL, Micro::End, Micro::End, Micro::End),
            Op::Pei => row(t, Micro::Arg0, Micro::IoDp, Micro::Ptr0, Micro::Ptr1, Micro::PushH, Micro::PushL, Micro::End),
            Op::Per => row(t, Micro::Arg0, Micro::Arg1, Micro::IoSame, Micro::PushH, Micro::PushL, Micro::End, Micro::End),
            Op::Brl => row(t, Micro::Arg0, Micro::Arg1, Micro::IoSame, Micro::End, Micro::End, Micro::End, Micro::End),
            Op::Mvn | Op::Mvp => row(t, Micro::Arg0, Micro::Arg1, Micro::MoveRead, Micro::MoveWrite, Micro::IoSame, Micro::IoSame, Micro::End),
            Op::Xba => row(t, Micro::IoPc, Micro::IoSame, Micro::End, Micro::End, Micro::End, Micro::End, Micro::End),
            Op::Stp | Op::Wai => row(t, Micro::IoPc, Micro::Rest, Micro::End, Micro::End, Micro::End, Micro::End, Micro::End),
            Op::Wdm => row(t, Micro::Arg0, Micro::End, Micro::End, Micro::End, Micro::End, Micro::End, Micro::End),
            Op::Rep | Op::Sep => row(t, Micro::Imm0, Micro::IoSame, Micro::End, Micro::End, Micro::End, Micro::End, Micro::End),
            _ => addressed(instr.mode, instr.op.class(), t),
        }
    }
}

/// Whether the cycle `micro` belongs to every run of `instr`, whatever the
/// registers hold. High bytes are certain where the width is fixed at 16
/// bits, the cycle for indexing where the operation writes, the cycle of a
/// taken branch where the branch is unconditional, and the program bank on
/// the stack where the instruction is not an interrupt sequence.
pub open spec fn spec_certain(instr: Instr, micro: Micro) -> bool {
    match micro {
        Micro::End | Micro::IoDp | Micro::IoCross => false,
        Micro::Imm1 | Micro::Read1 | Micro::Write1 | Micro::Store1 | Micro::PushH | Micro::PullH => instr.op.width()
            == Width::Word,
        Micro::IoIndex => instr.op.class() != Class::Read,
        Micro::IoTaken => instr.op == Op::Bra,
        Micro::PushK => !instr.op.is_interrupt(),
        Micro::PullB => instr.op != Op::Rti,
        _ => true,
    }
}

/// Computes [`spec_certain`].
#[verifier::when_used_as_spec(spec_certain)]
pub fn certain(instr: Instr, micro: Micro) -> (r: bool)
    ensures
        r == spec_certain(instr, micro),
{
    match micro {
        Micro::End | Micro::IoDp | Micro::IoCross => false,
        Micro::Imm1 | Micro::Read1 | Micro::Write1 | Micro::Store1 | Micro::PushH | Micro::PullH => instr.op.width()
            == Width::Word,
        Micro::IoIndex => instr.op.class() != Class::Read,
        Micro::IoTaken => instr.op == Op::Bra,
        Micro::PushK => !instr.op.is_interrupt(),
        Micro::PullB => instr.op != Op::Rti,
        _ => true,
    }
}

/// The number of certain cycles of `instr` at the positions from `t` to 9.
/// No row is longer.
pub open spec fn certain_from(instr: Instr, t: nat) -> nat
    decreases 10 - t,
{
    if t >= 10 {
        0
    } else {
        (if certain(instr, script(instr, t as u8)) { 1nat } else { 0nat }) + certain_from(instr, t + 1)
    }
}

/// The base cycle count of an instruction: the number of its certain cycles.
pub open spec fn spec_base_cycles(instr: Instr) -> u8 {
    certain_from(instr, 0) as u8
}

/// Counts the certain cycles of the row of `instr`.
#[verifier::when_used_as_spec(spec_base_cycles)]
pub fn base_cycles(instr: Instr) -> (r: u8)
    ensures
        r == spec_base_cycles(instr),
        1 <= r <= 10,
{
    let mut n: u8 = 0;
    let mut t: u8 = 10;
    assert(certain_from(instr, 10) == 0);
    while t > 0
        invariant
            t <= 10,
            n == certain_from(instr, t as nat),
            n <= 10 - t,
        decreases t,
    {
        t -= 1;
        if certain(instr, script(instr, t)) {
            n += 1;
        }
    }
    assert(certain(instr, script(instr, 0)));
    assert(certain_from(instr, 0) >= 1);
    n
}

} // verus!
