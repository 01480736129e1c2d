//! The instruction set: what each of the 256 opcode bytes stands for.

use vstd::prelude::*;

verus! {

/// The operation of an instruction, by its mnemonic. The last three are the
/// sequences that the hardware starts by itself.
#[derive(Copy, Clone, Debug, PartialEq, Eq, Structural)]
pub enum Op {
    Adc,
    And,
    Asl,
    Bcc,
    Bcs,
    Beq,
    Bit,
    Bmi,
    Bne,
    Bpl,
    Bra,
    Brk,
    Brl,
    Bvc,
    Bvs,
    Clc,
    Cld,
    Cli,
    Clv,
    Cmp,
    Cop,
    Cpx,
    Cpy,
    Dec,
    Dex,
    Dey,
    Eor,
    Inc,
    Inx,
    Iny,
    Jml,
    Jmp,
    Jsl,
    Jsr,
    Lda,
    Ldx,
    Ldy,
    Lsr,
    Mvn,
    Mvp,
    Nop,
    Ora,
    Pea,
    Pei,
    Per,
    Pha,
    Phb,
    Phd,
    Phk,
    Php,
    Phx,
    Phy,
    Pla,
    Plb,
    Pld,
    Plp,
    Plx,
    Ply,
    Rep,
    Rol,
    Ror,
    Rti,
    Rtl,
    Rts,
    Sbc,
    Sec,
    Sed,
    Sei,
    Sep,
    Sta,
    Stp,
    Stx,
    Sty,
    Stz,
    Tax,
    Tay,
    Tcd,
    Tcs,
    Tdc,
    Trb,
    Tsb,
    Tsc,
    Tsx,
    Txa,
    Txs,
    Txy,
    Tya,
    Tyx,
    Wai,
    Wdm,
    Xba,
    Xce,
    Irq,
    Nmi,
    Reset,
}

/// The addressing mode of an instruction.
#[derive(Copy, Clone, Debug, PartialEq, Eq, Structural)]
pub enum Mode {
    Implied,
    Accumulator,
    Immediate,
    Direct,
    DirectX,
    DirectY,
    DirectIndirect,
    DirectIndexedIndirect,
    DirectIndirectIndexed,
    DirectIndirectLong,
    DirectIndirectLongIndexed,
    Absolute,
    AbsoluteX,
    AbsoluteY,
    AbsoluteLong,
    AbsoluteLongX,
    AbsoluteIndirect,
    AbsoluteIndexedIndirect,
    AbsoluteIndirectLong,
    StackRelative,
    StackRelativeIndirectIndexed,
    Relative,
    RelativeLong,
    BlockMove,
    Stack,
    Interrupt,
}

/// How wide the data of an operation is.
#[derive(Copy, Clone, Debug, PartialEq, Eq, Structural)]
pub enum Width {
    /// As wide as the accumulator.
    Acc,
    /// As wide as the index registers.
    Index,
    /// Always one byte.
    Byte,
    /// Always two bytes.
    Word,
}

/// What an operation does with the memory operand of a data addressing mode.
#[derive(Copy, Clone, Debug, PartialEq, Eq, Structural)]
pub enum Class {
    Read,
    Write,
    Modify,
    Other,
}

/// An operation with its addressing mode.
#[derive(Copy, Clone, Debug, PartialEq, Eq, Structural)]
pub struct Instr {
    pub op: Op,
    pub mode: Mode,
}

/// The operation of an opcode byte, listed by mnemonic.
pub open spec fn spec_op_of(opcode: u8) -> Op {
    match opcode {
        0x61 | 0x63 | 0x65 | 0x67 | 0x69 | 0x6d | 0x6f | 0x71 | 0x72 | 0x73 | 0x75
        | 0x77 | 0x79 | 0x7d | 0x7f => Op::Adc,
        0x21 | 0x23 | 0x25 | 0x27 | 0x29 | 0x2d | 0x2f | 0x31 | 0x32 | 0x33 | 0x35
        | 0x37 | 0x39 | 0x3d | 0x3f => Op::And,
        0x06 | 0x0a | 0x0e | 0x16 | 0x1e => Op::Asl,
        0x90 => Op::Bcc,
        0xb0 => Op::Bcs,
        0xf0 => Op::Beq,
        0x24 | 0x2c | 0x34 | 0x3c | 0x89 => Op::Bit,
        0x30 => Op::Bmi,
        0xd0 => Op::Bne,
        0x10 => Op::Bpl,
        0x80 => Op::Bra,
        0x00 => Op::Brk,
        0x82 => Op::Brl,
        0x50 => Op::Bvc,
        0x70 => Op::Bvs,
        0x18 => Op::Clc,
        0xd8 => Op::Cld,
        0x58 => Op::Cli,
        0xb8 => Op::Clv,
        0xc1 | 0xc3 | 0xc5 | 0xc7 | 0xc9 | 0xcd | 0xcf | 0xd1 | 0xd2 | 0xd3 | 0xd5
        | 0xd7 | 0xd9 | 0xdd | 0xdf => Op::Cmp,
        0x02 => Op::Cop,
        0xe0 | 0xe4 | 0xec => Op::Cpx,
        0xc0 | 0xc4 | 0xcc => Op::Cpy,
        0x3a | 0xc6 | 0xce | 0xd6 | 0xde => Op::Dec,
        0xca => Op::Dex,
        0x88 => Op::Dey,
        0x41 | 0x43 | 0x45 | 0x47 | 0x49 | 0x4d | 0x4f | 0x51 | 0x52 | 0x53 | 0x55
        | 0x57 | 0x59 | 0x5d | 0x5f => Op::Eor,
        0x1a | 0xe6 | 0xee | 0xf6 | 0xfe => Op::Inc,
        0xe8 => Op::Inx,
        0xc8 => Op::Iny,
        0x5c | 0xdc => Op::Jml,
        0x4c | 0x6c | 0x7c => Op::Jmp,
        0x22 => Op::Jsl,
        0x20 | 0xfc => Op::Jsr,
        0xa1 | 0xa3 | 0xa5 | 0xa7 | 0xa9 | 0xad | 0xaf | 0xb1 | 0xb2 | 0xb3 | 0xb5
        | 0xb7 | 0xb9 | 0xbd | 0xbf => Op::Lda,
        0xa2 | 0xa6 | 0xae | 0xb6 | 0xbe => Op::Ldx,
        0xa0 | 0xa4 | 0xac | 0xb4 | 0xbc => Op::Ldy,
        0x46 | 0x4a | 0x4e | 0x56 | 0x5e => Op::Lsr,
        0x54 => Op::Mvn,
        0x44 => Op::Mvp,
        0x01 | 0x03 | 0x05 | 0x07 | 0x09 | 0x0d | 0x0f | 0x11 | 0x12 | 0x13 | 0x15
        | 0x17 | 0x19 | 0x1d | 0x1f => Op::Ora,
        0xf4 => Op::Pea,
        0xd4 => Op::Pei,
        0x62 => Op::Per,
        0x48 => Op::Pha,
        0x8b => Op::Phb,
        0x0b => Op::Phd,
        0x4b => Op::Phk,
        0x08 => Op::Php,
        0xda => Op::Phx,
        0x5a => Op::Phy,
        0x68 => Op::Pla,
        0xab => Op::Plb,
        0x2b => Op::Pld,
        0x28 => Op::Plp,
        0xfa => Op::Plx,
        0x7a => Op::Ply,
        0xc2 => Op::Rep,
        0x26 | 0x2a | 0x2e | 0x36 | 0x3e => Op::Rol,
        0x66 | 0x6a | 0x6e | 0x76 | 0x7e => Op::Ror,
        0x40 => Op::Rti,
        0x6b => Op::Rtl,
        0x60 => Op::Rts,
        0xe1 | 0xe3 | 0xe5 | 0xe7 | 0xe9 | 0xed | 0xef | 0xf1 | 0xf2 | 0xf3 | 0xf5
        | 0xf7 | 0xf9 | 0xfd | 0xff => Op::Sbc,
        0x38 => Op::Sec,
        0xf8 => Op::Sed,
        0x78 => Op::Sei,
        0xe2 => Op::Sep,
        0x81 | 0x83 | 0x85 | 0x87 | 0x8d | 0x8f | 0x91 | 0x92 | 0x93 | 0x95 | 0x97
        | 0x99 | 0x9d | 0x9f => Op::Sta,
        0xdb => Op::Stp,
        0x86 | 0x8e | 0x96 => Op::Stx,
        0x84 | 0x8c | 0x94 => Op::Sty,
        0x64 | 0x74 | 0x9c | 0x9e => Op::Stz,
        0xaa => Op::Tax,
        0xa8 => Op::Tay,
        0x5b => Op::Tcd,
        0x1b => Op::Tcs,
        0x7b => Op::Tdc,
        0x14 | 0x1c => Op::Trb,
        0x04 | 0x0c => Op::Tsb,
        0x3b => Op::Tsc,
        0xba => Op::Tsx,
        0x8a => Op::Txa,
        0x9a => Op::Txs,
        0x9b => Op::Txy,
        0x98 => Op::Tya,
        0xbb => Op::Tyx,
        0xcb => Op::Wai,
        0x42 => Op::Wdm,
        0xeb => Op::Xba,
        0xfb => Op::Xce,
        _ => Op::Nop,
    }
}

/// The addressing mode of an opcode byte, listed by mode.
pub open spec fn spec_mode_of(opcode: u8) -> Mode {
    match opcode {
        0x09 | 0x29 | 0x49 | 0x69 | 0x89 | 0xa0 | 0xa2 | 0xa9 | 0xc0 | 0xc2 | 0xc9
        | 0xe0 | 0xe2 | 0xe9 => Mode::Immediate,
        0x04 | 0x05 | 0x06 | 0x14 | 0x24 | 0x25 | 0x26 | 0x45 | 0x46 | 0x64 | 0x65
        | 0x66 | 0x84 | 0x85 | 0x86 | 0xa4 | 0xa5 | 0xa6 | 0xc4 | 0xc5 | 0xc6 | 0xe4
        | 0xe5 | 0xe6 => Mode::Direct,
        0x15 | 0x16 | 0x34 | 0x35 | 0x36 | 0x55 | 0x56 | 0x74 | 0x75 | 0x76 | 0x94
        | 0x95 | 0xb4 | 0xb5 | 0xd5 | 0xd6 | 0xf5 | 0xf6 => Mode::DirectX,
        0x96 | 0xb6 => Mode::DirectY,
        0x12 | 0x32 | 0x52 | 0x72 | 0x92 | 0xb2 | 0xd2 | 0xf2 => Mode::DirectIndirect,
        0x01 | 0x21 | 0x41 | 0x61 | 0x81 | 0xa1 | 0xc1 | 0xe1 => Mode::DirectIndexedIndirect,
        0x11 | 0x31 | 0x51 | 0x71 | 0x91 | 0xb1 | 0xd1 | 0xf1 => Mode::DirectIndirectIndexed,
        0x07 | 0x27 | 0x47 | 0x67 | 0x87 | 0xa7 | 0xc7 | 0xe7 => Mode::DirectIndirectLong,
        0x17 | 0x37 | 0x57 | 0x77 | 0x97 | 0xb7 | 0xd7 | 0xf7 => Mode::DirectIndirectLongIndexed,
        0x0c | 0x0d | 0x0e | 0x1c | 0x20 | 0x2c | 0x2d | 0x2e | 0x4c | 0x4d | 0x4e
        | 0x6d | 0x6e | 0x8c | 0x8d | 0x8e | 0x9c | 0xac | 0xad | 0xae | 0xcc | 0xcd
        | 0xce | 0xec | 0xed | 0xee => Mode::Absolute,
        0x1d | 0x1e | 0x3c | 0x3d | 0x3e | 0x5d | 0x5e | 0x7d | 0x7e | 0x9d | 0x9e
        | 0xbc | 0xbd | 0xdd | 0xde | 0xfd | 0xfe => Mode::AbsoluteX,
        0x19 | 0x39 | 0x59 | 0x79 | 0x99 | 0xb9 | 0xbe | 0xd9 | 0xf9 => Mode::AbsoluteY,
        0x0f | 0x22 | 0x2f | 0x4f | 0x5c | 0x6f | 0x8f | 0xaf | 0xcf | 0xef => Mode::AbsoluteLong,
        0x1f | 0x3f | 0x5f | 0x7f | 0x9f | 0xbf | 0xdf | 0xff => Mode::AbsoluteLongX,
        0x6c => Mode::AbsoluteIndirect,
        0x7c | 0xfc => Mode::AbsoluteIndexedIndirect,
        0xdc => Mode::AbsoluteIndirectLong,
        0x03 | 0x23 | 0x43 | 0x63 | 0x83 | 0xa3 | 0xc3 | 0xe3 => Mode::StackRelative,
        0x13 | 0x33 | 0x53 | 0x73 | 0x93 | 0xb3 | 0xd3 | 0xf3 => Mode::StackRelativeIndirectIndexed,
        0x10 | 0x30 | 0x50 | 0x70 | 0x80 | 0x90 | 0xb0 | 0xd0 | 0xf0 => Mode::Relative,
        0x82 => Mode::RelativeLong,
        0x44 | 0x54 => Mode::BlockMove,
        0x0a | 0x1a | 0x2a | 0x3a | 0x4a | 0x6a => Mode::Accumulator,
        0x00 | 0x02 | 0x08 | 0x0b | 0x28 | 0x2b | 0x40 | 0x48 | 0x4b | 0x5a | 0x60
        | 0x62 | 0x68 | 0x6b | 0x7a | 0x8b | 0xab | 0xd4 | 0xda | 0xf4 | 0xfa => Mode::Stack,
        _ => Mode::Implied,
    }
}

/// The instruction of an opcode byte: every byte has one.
pub open spec fn spec_decode(opcode: u8) -> Instr {
    Instr { op: spec_op_of(opcode), mode: spec_mode_of(opcode) }
}

/// Decodes an opcode byte by the table of all 256.
#[verifier::when_used_as_spec(spec_decode)]
pub fn decode(opcode: u8) -> (r: Instr)
    ensures
        r == spec_decode(opcode),
{
    match opcode {
        0x00 => Instr { op: Op::Brk, mode: Mode::Stack },
        0x01 => Instr { op: Op::Ora, mode: Mode::DirectIndexedIndirect },
        0x02 => Instr { op: Op::Cop, mode: Mode::Stack },
        0x03 => Instr { op: Op::Ora, mode: Mode::StackRelative },
        0x04 => Instr { op: Op::Tsb, mode: Mode::Direct },
        0x05 => Instr { op: Op::Ora, mode: Mode::Direct },
        0x06 => Instr { op: Op::Asl, mode: Mode::Direct },
        0x07 => Instr { op: Op::Ora, mode: Mode::DirectIndirectLong },
        0x08 => Instr { op: Op::Php, mode: Mode::Stack },
        0x09 => Instr { op: Op::Ora, mode: Mode::Immediate },
        0x0a => Instr { op: Op::Asl, mode: Mode::Accumulator },
        0x0b => Instr { op: Op::Phd, mode: Mode::Stack },
        0x0c => Instr { op: Op::Tsb, mode: Mode::Absolute },
        0x0d => Instr { op: Op::Ora, mode: Mode::Absolute },
        0x0e => Instr { op: Op::Asl, mode: Mode::Absolute },
        0x0f => Instr { op: Op::Ora, mode: Mode::AbsoluteLong },
        0x10 => Instr { op: Op::Bpl, mode: Mode::Relative },
        0x11 => Instr { op: Op::Ora, mode: Mode::DirectIndirectIndexed },
        0x12 => Instr { op: Op::Ora, mode: Mode::DirectIndirect },
        0x13 => Instr { op: Op::Ora, mode: Mode::StackRelativeIndirectIndexed },
        0x14 => Instr { op: Op::Trb, mode: Mode::Direct },
        0x15 => Instr { op: Op::Ora, mode: Mode::DirectX },
        0x16 => Instr { op: Op::Asl, mode: Mode::DirectX },
        0x17 => Instr { op: Op::Ora, mode: Mode::DirectIndirectLongIndexed },
        0x18 => Instr { op: Op::Clc, mode: Mode::Implied },
        0x19 => Instr { op: Op::Ora, mode: Mode::AbsoluteY },
        0x1a => Instr { op: Op::Inc, mode: Mode::Accumulator },
        0x1b => Instr { op: Op::Tcs, mode: Mode::Implied },
        0x1c => Instr { op: Op::Trb, mode: Mode::Absolute },
        0x1d => Instr { op: Op::Ora, mode: Mode::AbsoluteX },
        0x1e => Instr { op: Op::Asl, mode: Mode::AbsoluteX },
        0x1f => Instr { op: Op::Ora, mode: Mode::AbsoluteLongX },
        0x20 => Instr { op: Op::Jsr, mode: Mode::Absolute },
        0x21 => Instr { op: Op::And, mode: Mode::DirectIndexedIndirect },
        0x22 => Instr { op: Op::Jsl, mode: Mode::AbsoluteLong },
        0x23 => Instr { op: Op::And, mode: Mode::StackRelative },
        0x24 => Instr { op: Op::Bit, mode: Mode::Direct },
        0x25 => Instr { op: Op::And, mode: Mode::Direct },
        0x26 => Instr { op: Op::Rol, mode: Mode::Direct },
        0x27 => Instr { op: Op::And, mode: Mode::DirectIndirectLong },
        0x28 => Instr { op: Op::Plp, mode: Mode::Stack },
        0x29 => Instr { op: Op::And, mode: Mode::Immediate },
        0x2a => Instr { op: Op::Rol, mode: Mode::Accumulator },
        0x2b => Instr { op: Op::Pld, mode: Mode::Stack },
        0x2c => Instr { op: Op::Bit, mode: Mode::Absolute },
        0x2d => Instr { op: Op::And, mode: Mode::Absolute },
        0x2e => Instr { op: Op::Rol, mode: Mode::Absolute },
        0x2f => Instr { op: Op::And, mode: Mode::AbsoluteLong },
        0x30 => Instr { op: Op::Bmi, mode: Mode::Relative },
        0x31 => Instr { op: Op::And, mode: Mode::DirectIndirectIndexed },
        0x32 => Instr { op: Op::And, mode: Mode::DirectIndirect },
        0x33 => Instr { op: Op::And, mode: Mode::StackRelativeIndirectIndexed },
        0x34 => Instr { op: Op::Bit, mode: Mode::DirectX },
        0x35 => Instr { op: Op::And, mode: Mode::DirectX },
        0x36 => Instr { op: Op::Rol, mode: Mode::DirectX },
        0x37 => Instr { op: Op::And, mode: Mode::DirectIndirectLongIndexed },
        0x38 => Instr { op: Op::Sec, mode: Mode::Implied },
        0x39 => Instr { op: Op::And, mode: Mode::AbsoluteY },
        0x3a => Instr { op: Op::Dec, mode: Mode::Accumulator },
        0x3b => Instr { op: Op::Tsc, mode: Mode::Implied },
        0x3c => Instr { op: Op::Bit, mode: Mode::AbsoluteX },
        0x3d => Instr { op: Op::And, mode: Mode::AbsoluteX },
        0x3e => Instr { op: Op::Rol, mode: Mode::AbsoluteX },
        0x3f => Instr { op: Op::And, mode: Mode::AbsoluteLongX },
        0x40 => Instr { op: Op::Rti, mode: Mode::Stack },
        0x41 => Instr { op: Op::Eor, mode: Mode::DirectIndexedIndirect },
        0x42 => Instr { op: Op::Wdm, mode: Mode::Implied },
        0x43 => Instr { op: Op::Eor, mode: Mode::StackRelative },
        0x44 => Instr { op: Op::Mvp, mode: Mode::BlockMove },
        0x45 => Instr { op: Op::Eor, mode: Mode::Direct },
        0x46 => Instr { op: Op::Lsr, mode: Mode::Direct },
        0x47 => Instr { op: Op::Eor, mode: Mode::DirectIndirectLong },
        0x48 => Instr { op: Op::Pha, mode: Mode::Stack },
        0x49 => Instr { op: Op::Eor, mode: Mode::Immediate },
        0x4a => Instr { op: Op::Lsr, mode: Mode::Accumulator },
        0x4b => Instr { op: Op::Phk, mode: Mode::Stack },
        0x4c => Instr { op: Op::Jmp, mode: Mode::Absolute },
        0x4d => Instr { op: Op::Eor, mode: Mode::Absolute },
        0x4e => Instr { op: Op::Lsr, mode: Mode::Absolute },
        0x4f => Instr { op: Op::Eor, mode: Mode::AbsoluteLong },
        0x50 => Instr { op: Op::Bvc, mode: Mode::Relative },
        0x51 => Instr { op: Op::Eor, mode: Mode::DirectIndirectIndexed },
        0x52 => Instr { op: Op::Eor, mode: Mode::DirectIndirect },
        0x53 => Instr { op: Op::Eor, mode: Mode::StackRelativeIndirectIndexed },
        0x54 => Instr { op: Op::Mvn, mode: Mode::BlockMove },
        0x55 => Instr { op: Op::Eor, mode: Mode::DirectX },
        0x56 => Instr { op: Op::Lsr, mode: Mode::DirectX },
        0x57 => Instr { op: Op::Eor, mode: Mode::DirectIndirectLongIndexed },
        0x58 => Instr { op: Op::Cli, mode: Mode::Implied },
        0x59 => Instr { op: Op::Eor, mode: Mode::AbsoluteY },
        0x5a => Instr { op: Op::Phy, mode: Mode::Stack },
        0x5b => Instr { op: Op::Tcd, mode: Mode::Implied },
        0x5c => Instr { op: Op::Jml, mode: Mode::AbsoluteLong },
        0x5d => Instr { op: Op::Eor, mode: Mode::AbsoluteX },
        0x5e => Instr { op: Op::Lsr, mode: Mode::AbsoluteX },
        0x5f => Instr { op: Op::Eor, mode: Mode::AbsoluteLongX },
        0x60 => Instr { op: Op::Rts, mode: Mode::Stack },
        0x61 => Instr { op: Op::Adc, mode: Mode::DirectIndexedIndirect },
        0x62 => Instr { op: Op::Per, mode: Mode::Stack },
        0x63 => Instr { op: Op::Adc, mode: Mode::StackRelative },
        0x64 => Instr { op: Op::Stz, mode: Mode::Direct },
        0x65 => Instr { op: Op::Adc, mode: Mode::Direct },
        0x66 => Instr { op: Op::Ror, mode: Mode::Direct },
        0x67 => Instr { op: Op::Adc, mode: Mode::DirectIndirectLong },
        0x68 => Instr { op: Op::Pla, mode: Mode::Stack },
        0x69 => Instr { op: Op::Adc, mode: Mode::Immediate },
        0x6a => Instr { op: Op::Ror, mode: Mode::Accumulator },
        0x6b => Instr { op: Op::Rtl, mode: Mode::Stack },
        0x6c => Instr { op: Op::Jmp, mode: Mode::AbsoluteIndirect },
        0x6d => Instr { op: Op::Adc, mode: Mode::Absolute },
        0x6e => Instr { op: Op::Ror, mode: Mode::Absolute },
        0x6f => Instr { op: Op::Adc, mode: Mode::AbsoluteLong },
        0x70 => Instr { op: Op::Bvs, mode: Mode::Relative },
        0x71 => Instr { op: Op::Adc, mode: Mode::DirectIndirectIndexed },
        0x72 => Instr { op: Op::Adc, mode: Mode::DirectIndirect },
        0x73 => Instr { op: Op::Adc, mode: Mode::StackRelativeIndirectIndexed },
        0x74 => Instr { op: Op::Stz, mode: Mode::DirectX },
        0x75 => Instr { op: Op::Adc, mode: Mode::DirectX },
        0x76 => Instr { op: Op::Ror, mode: Mode::DirectX },
        0x77 => Instr { op: Op::Adc, mode: Mode::DirectIndirectLongIndexed },
        0x78 => Instr { op: Op::Sei, mode: Mode::Implied },
        0x79 => Instr { op: Op::Adc, mode: Mode::AbsoluteY },
        0x7a => Instr { op: Op::Ply, mode: Mode::Stack },
        0x7b => Instr { op: Op::Tdc, mode: Mode::Implied },
        0x7c => Instr { op: Op::Jmp, mode: Mode::AbsoluteIndexedIndirect },
        0x7d => Instr { op: Op::Adc, mode: Mode::AbsoluteX },
        0x7e => Instr { op: Op::Ror, mode: Mode::AbsoluteX },
        0x7f => Instr { op: Op::Adc, mode: Mode::AbsoluteLongX },
        0x80 => Instr { op: Op::Bra, mode: Mode::Relative },
        0x81 => Instr { op: Op::Sta, mode: Mode::DirectIndexedIndirect },
        0x82 => Instr { op: Op::Brl, mode: Mode::RelativeLong },
        0x83 => Instr { op: Op::Sta, mode: Mode::StackRelative },
        0x84 => Instr { op: Op::Sty, mode: Mode::Direct },
        0x85 => Instr { op: Op::Sta, mode: Mode::Direct },
        0x86 => Instr { op: Op::Stx, mode: Mode::Direct },
        0x87 => Instr { op: Op::Sta, mode: Mode::DirectIndirectLong },
        0x88 => Instr { op: Op::Dey, mode: Mode::Implied },
        0x89 => Instr { op: Op::Bit, mode: Mode::Immediate },
        0x8a => Instr { op: Op::Txa, mode: Mode::Implied },
        0x8b => Instr { op: Op::Phb, mode: Mode::Stack },
        0x8c => Instr { op: Op::Sty, mode: Mode::Absolute },
        0x8d => Instr { op: Op::Sta, mode: Mode::Absolute },
        0x8e => Instr { op: Op::Stx, mode: Mode::Absolute },
        0x8f => Instr { op: Op::Sta, mode: Mode::AbsoluteLong },
        0x90 => Instr { op: Op::Bcc, mode: Mode::Relative },
        0x91 => Instr { op: Op::Sta, mode: Mode::DirectIndirectIndexed },
        0x92 => Instr { op: Op::Sta, mode: Mode::DirectIndirect },
        0x93 => Instr { op: Op::Sta, mode: Mode::StackRelativeIndirectIndexed },
        0x94 => Instr { op: Op::Sty, mode: Mode::DirectX },
        0x95 => Instr { op: Op::Sta, mode: Mode::DirectX },
        0x96 => Instr { op: Op::Stx, mode: Mode::DirectY },
        0x97 => Instr { op: Op::Sta, mode: Mode::DirectIndirectLongIndexed },
        0x98 => Instr { op: Op::Tya, mode: Mode::Implied },
        0x99 => Instr { op: Op::Sta, mode: Mode::AbsoluteY },
        0x9a => Instr { op: Op::Txs, mode: Mode::Implied },
        0x9b => Instr { op: Op::Txy, mode: Mode::Implied },
        0x9c => Instr { op: Op::Stz, mode: Mode::Absolute },
        0x9d => Instr { op: Op::Sta, mode: Mode::AbsoluteX },
        0x9e => Instr { op: Op::Stz, mode: Mode::AbsoluteX },
        0x9f => Instr { op: Op::Sta, mode: Mode::AbsoluteLongX },
        0xa0 => Instr { op: Op::Ldy, mode: Mode::Immediate },
        0xa1 => Instr { op: Op::Lda, mode: Mode::DirectIndexedIndirect },
        0xa2 => Instr { op: Op::Ldx, mode: Mode::Immediate },
        0xa3 => Instr { op: Op::Lda, mode: Mode::StackRelative },
        0xa4 => Instr { op: Op::Ldy, mode: Mode::Direct },
        0xa5 => Instr { op: Op::Lda, mode: Mode::Direct },
        0xa6 => Instr { op: Op::Ldx, mode: Mode::Direct },
        0xa7 => Instr { op: Op::Lda, mode: Mode::DirectIndirectLong },
        0xa8 => Instr { op: Op::Tay, mode: Mode::Implied },
        0xa9 => Instr { op: Op::Lda, mode: Mode::Immediate },
        0xaa => Instr { op: Op::Tax, mode: Mode::Implied },
        0xab => Instr { op: Op::Plb, mode: Mode::Stack },
        0xac => Instr { op: Op::Ldy, mode: Mode::Absolute },
        0xad => Instr { op: Op::Lda, mode: Mode::Absolute },
        0xae => Instr { op: Op::Ldx, mode: Mode::Absolute },
        0xaf => Instr { op: Op::Lda, mode: Mode::AbsoluteLong },
        0xb0 => Instr { op: Op::Bcs, mode: Mode::Relative },
        0xb1 => Instr { op: Op::Lda, mode: Mode::DirectIndirectIndexed },
        0xb2 => Instr { op: Op::Lda, mode: Mode::DirectIndirect },
        0xb3 => Instr { op: Op::Lda, mode: Mode::StackRelativeIndirectIndexed },
        0xb4 => Instr { op: Op::Ldy, mode: Mode::DirectX },
        0xb5 => Instr { op: Op::Lda, mode: Mode::DirectX },
        0xb6 => Instr { op: Op::Ldx, mode: Mode::DirectY },
        0xb7 => Instr { op: Op::Lda, mode: Mode::DirectIndirectLongIndexed },
        0xb8 => Instr { op: Op::Clv, mode: Mode::Implied },
        0xb9 => Instr { op: Op::Lda, mode: Mode::AbsoluteY },
        0xba => Instr { op: Op::Tsx, mode: Mode::Implied },
        0xbb => Instr { op: Op::Tyx, mode: Mode::Implied },
        0xbc => Instr { op: Op::Ldy, mode: Mode::AbsoluteX },
        0xbd => Instr { op: Op::Lda, mode: Mode::AbsoluteX },
        0xbe => Instr { op: Op::Ldx, mode: Mode::AbsoluteY },
        0xbf => Instr { op: Op::Lda, mode: Mode::AbsoluteLongX },
        0xc0 => Instr { op: Op::Cpy, mode: Mode::Immediate },
        0xc1 => Instr { op: Op::Cmp, mode: Mode::DirectIndexedIndirect },
        0xc2 => Instr { op: Op::Rep, mode: Mode::Immediate },
        0xc3 => Instr { op: Op::Cmp, mode: Mode::StackRelative },
        0xc4 => Instr { op: Op::Cpy, mode: Mode::Direct },
        0xc5 => Instr { op: Op::Cmp, mode: Mode::Direct },
        0xc6 => Instr { op: Op::Dec, mode: Mode::Direct },
        0xc7 => Instr { op: Op::Cmp, mode: Mode::DirectIndirectLong },
        0xc8 => Instr { op: Op::Iny, mode: Mode::Implied },
        0xc9 => Instr { op: Op::Cmp, mode: Mode::Immediate },
        0xca => Instr { op: Op::Dex, mode: Mode::Implied },
        0xcb => Instr { op: Op::Wai, mode: Mode::Implied },
        0xcc => Instr { op: Op::Cpy, mode: Mode::Absolute },
        0xcd => Instr { op: Op::Cmp, mode: Mode::Absolute },
        0xce => Instr { op: Op::Dec, mode: Mode::Absolute },
        0xcf => Instr { op: Op::Cmp, mode: Mode::AbsoluteLong },
        0xd0 => Instr { op: Op::Bne, mode: Mode::Relative },
        0xd1 => Instr { op: Op::Cmp, mode: Mode::DirectIndirectIndexed },
        0xd2 => Instr { op: Op::Cmp, mode: Mode::DirectIndirect },
        0xd3 => Instr { op: Op::Cmp, mode: Mode::StackRelativeIndirectIndexed },
        0xd4 => Instr { op: Op::Pei, mode: Mode::Stack },
        0xd5 => Instr { op: Op::Cmp, mode: Mode::DirectX },
        0xd6 => Instr { op: Op::Dec, mode: Mode::DirectX },
        0xd7 => Instr { op: Op::Cmp, mode: Mode::DirectIndirectLongIndexed },
        0xd8 => Instr { op: Op::Cld, mode: Mode::Implied },
        0xd9 => Instr { op: Op::Cmp, mode: Mode::AbsoluteY },
        0xda => Instr { op: Op::Phx, mode: Mode::Stack },
        0xdb => Instr { op: Op::Stp, mode: Mode::Implied },
        0xdc => Instr { op: Op::Jml, mode: Mode::AbsoluteIndirectLong },
        0xdd => Instr { op: Op::Cmp, mode: Mode::AbsoluteX },
        0xde => Instr { op: Op::Dec, mode: Mode::AbsoluteX },
        0xdf => Instr { op: Op::Cmp, mode: Mode::AbsoluteLongX },
        0xe0 => Instr { op: Op::Cpx, mode: Mode::Immediate },
        0xe1 => Instr { op: Op::Sbc, mode: Mode::DirectIndexedIndirect },
        0xe2 => Instr { op: Op::Sep, mode: Mode::Immediate },
        0xe3 => Instr { op: Op::Sbc, mode: Mode::StackRelative },
        0xe4 => Instr { op: Op::Cpx, mode: Mode::Direct },
        0xe5 => Instr { op: Op::Sbc, mode: Mode::Direct },
        0xe6 => Instr { op: Op::Inc, mode: Mode::Direct },
        0xe7 => Instr { op: Op::Sbc, mode: Mode::DirectIndirectLong },
        0xe8 => Instr { op: Op::Inx, mode: Mode::Implied },
        0xe9 => Instr { op: Op::Sbc, mode: Mode::Immediate },
        0xea => Instr { op: Op::Nop, mode: Mode::Implied },
        0xeb => Instr { op: Op::Xba, mode: Mode::Implied },
        0xec => Instr { op: Op::Cpx, mode: Mode::Absolute },
        0xed => Instr { op: Op::Sbc, mode: Mode::Absolute },
        0xee => Instr { op: Op::Inc, mode: Mode::Absolute },
        0xef => Instr { op: Op::Sbc, mode: Mode::AbsoluteLong },
        0xf0 => Instr { op: Op::Beq, mode: Mode::Relative },
        0xf1 => Instr { op: Op::Sbc, mode: Mode::DirectIndirectIndexed },
        0xf2 => Instr { op: Op::Sbc, mode: Mode::DirectIndirect },
        0xf3 => Instr { op: Op::Sbc, mode: Mode::StackRelativeIndirectIndexed },
        0xf4 => Instr { op: Op::Pea, mode: Mode::Stack },
        0xf5 => Instr { op: Op::Sbc, mode: Mode::DirectX },
        0xf6 => Instr { op: Op::Inc, mode: Mode::DirectX },
        0xf7 => Instr { op: Op::Sbc, mode: Mode::DirectIndirectLongIndexed },
        0xf8 => Instr { op: Op::Sed, mode: Mode::Implied },
        0xf9 => Instr { op: Op::Sbc, mode: Mode::AbsoluteY },
        0xfa => Instr { op: Op::Plx, mode: Mode::Stack },
        0xfb => Instr { op: Op::Xce, mode: Mode::Implied },
        0xfc => Instr { op: Op::Jsr, mode: Mode::AbsoluteIndexedIndirect },
        0xfd => Instr { op: Op::Sbc, mode: Mode::AbsoluteX },
        0xfe => Instr { op: Op::Inc, mode: Mode::AbsoluteX },
        0xff => Instr { op: Op::Sbc, mode: Mode::AbsoluteLongX },
    }
}

impl Op {
    /// The width rule of the operation's data.
    pub open spec fn spec_width(self) -> Width {
        match self {
            Op::Adc | Op::And | Op::Asl | Op::Bit | Op::Cmp | Op::Dec | Op::Eor | Op::Inc
            | Op::Lda | Op::Lsr | Op::Ora | Op::Pha | Op::Pla | Op::Rol | Op::Ror | Op::Sbc
            | Op::Sta | Op::Stz | Op::Trb | Op::Tsb => Width::Acc,
            Op::Cpx | Op::Cpy | Op::Ldx | Op::Ldy | Op::Phx | Op::Phy | Op::Plx | Op::Ply
            | Op::Stx | Op::Sty => Width::Index,
            Op::Brk | Op::Brl | Op::Cop | Op::Irq | Op::Jml | Op::Jmp | Op::Jsl | Op::Jsr
            | Op::Nmi | Op::Pea | Op::Pei | Op::Per | Op::Phd | Op::Pld | Op::Reset | Op::Rti
            | Op::Rtl | Op::Rts => Width::Word,
            _ => Width::Byte,
        }
    }

    /// Computes [`Self::spec_width`].
    #[verifier::when_used_as_spec(spec_width)]
    pub fn width(self) -> (r: Width)
        ensures
            r == self.spec_width(),
    {
        match self {
            Op::Adc | Op::And | Op::Asl | Op::Bit | Op::Cmp | Op::Dec | Op::Eor | Op::Inc
            | Op::Lda | Op::Lsr | Op::Ora | Op::Pha | Op::Pla | Op::Rol | Op::Ror | Op::Sbc
            | Op::Sta | Op::Stz | Op::Trb | Op::Tsb => Width::Acc,
            Op::Cpx | Op::Cpy | Op::Ldx | Op::Ldy | Op::Phx | Op::Phy | Op::Plx | Op::Ply
            | Op::Stx | Op::Sty => Width::Index,
            Op::Brk | Op::Brl | Op::Cop | Op::Irq | Op::Jml | Op::Jmp | Op::Jsl | Op::Jsr
            | Op::Nmi | Op::Pea | Op::Pei | Op::Per | Op::Phd | Op::Pld | Op::Reset | Op::Rti
            | Op::Rtl | Op::Rts => Width::Word,
            _ => Width::Byte,
        }
    }

    /// What the operation does with a memory operand.
    pub open spec fn spec_class(self) -> Class {
        match self {
            Op::Adc | Op::And | Op::Bit | Op::Cmp | Op::Cpx | Op::Cpy | Op::Eor | Op::Lda
            | Op::Ldx | Op::Ldy | Op::Ora | Op::Sbc => Class::Read,
            Op::Sta | Op::Stx | Op::Sty | Op::Stz => Class::Write,
            Op::Asl | Op::Dec | Op::Inc | Op::Lsr | Op::Rol | Op::Ror | Op::Trb | Op::Tsb => Class::Modify,
            _ => Class::Other,
        }
    }

    /// Computes [`Self::spec_class`].
    #[verifier::when_used_as_spec(spec_class)]
    pub fn class(self) -> (r: Class)
        ensures
            r == self.spec_class(),
    {
        match self {
            Op::Adc | Op::And | Op::Bit | Op::Cmp | Op::Cpx | Op::Cpy | Op::Eor | Op::Lda
            | Op::Ldx | Op::Ldy | Op::Ora | Op::Sbc => Class::Read,
            Op::Sta | Op::Stx | Op::Sty | Op::Stz => Class::Write,
            Op::Asl | Op::Dec | Op::Inc | Op::Lsr | Op::Rol | Op::Ror | Op::Trb | Op::Tsb => Class::Modify,
            _ => Class::Other,
        }
    }

    /// Whether this is one of the sequences that end in a vector pull.
    pub open spec fn spec_is_interrupt(self) -> bool {
        match self {
            Op::Brk | Op::Cop | Op::Irq | Op::Nmi | Op::Reset => true,
            _ => false,
        }
    }

    /// Computes [`Self::spec_is_interrupt`].
    #[verifier::when_used_as_spec(spec_is_interrupt)]
    pub fn is_interrupt(self) -> (r: bool)
        ensures
            r == self.spec_is_interrupt(),
    {
        match self {
            Op::Brk | Op::Cop | Op::Irq | Op::Nmi | Op::Reset => true,
            _ => false,
        }
    }
}

} // verus!
