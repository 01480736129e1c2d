use cpu_65816::alu::{adc, adjust, binary, decimal, modified, sbc, shifted_out, Sum};
use cpu_65816::instruction::{decode, Class, Instr, Mode, Op, Width};
use cpu_65816::word::{at, bank_of, far, hi, inv, linear, lo, merge, msb, offset_of, sext, shr, swap, word, zero};

#[test]
fn bytes_and_words() {
    assert_eq!(lo(0x1234), 0x34);
    assert_eq!(hi(0x1234), 0x12);
    assert_eq!(word(0x34, 0x12), 0x1234);
    assert_eq!(swap(0x1234), 0x3412);
    assert_eq!(sext(0x7f), 0x007f);
    assert_eq!(sext(0x80), 0xff80);
    assert_eq!(sext(0xff), 0xffff);
    assert_eq!(at(0x1234, true), 0x0034);
    assert_eq!(at(0x1234, false), 0x1234);
    assert_eq!(merge(0x1234, 0xabcd, true), 0x12cd);
    assert_eq!(merge(0x1234, 0xabcd, false), 0xabcd);
    assert_eq!(inv(0x0012, true), 0x00ed);
    assert_eq!(inv(0x0012, false), 0xffed);
    assert_eq!(shr(0x0081, true, true), 0x00c0);
    assert_eq!(shr(0x8001, false, false), 0x4000);
    assert!(msb(0x0080, true) && !msb(0x0080, false) && msb(0x8000, false));
    assert!(zero(0x1200, true) && !zero(0x1200, false));
}

#[test]
fn addresses_carry_into_the_next_bank() {
    assert_eq!(linear(0x12, 0x3456), 0x123456);
    assert_eq!(bank_of(0x123456), 0x12);
    assert_eq!(offset_of(0x123456), 0x3456);
    assert_eq!(far(0x12, 0xffff, 0, 1), (0x13, 0x0000));
    assert_eq!(far(0x12, 0xff00, 0x0100, 1), (0x13, 0x0001));
    assert_eq!(far(0xff, 0xffff, 0, 1), (0x00, 0x0000));
    assert_eq!(far(0x12, 0x1000, 0x0010, 0), (0x12, 0x1010));
}

#[test]
fn binary_addition_at_eight_bits() {
    assert_eq!(adc(0x0001, 0x0001, false, false, true), Sum { value: 0x02, c: false, v: false });
    assert_eq!(adc(0x00ff, 0x0001, false, false, true), Sum { value: 0x00, c: true, v: false });
    assert_eq!(adc(0x007f, 0x0001, false, false, true), Sum { value: 0x80, c: false, v: true });
    assert_eq!(adc(0x0080, 0x0080, false, false, true), Sum { value: 0x00, c: true, v: true });
    assert_eq!(adc(0x12ff, 0x3400, true, false, true), Sum { value: 0x00, c: true, v: false });
}

#[test]
fn binary_addition_at_sixteen_bits() {
    assert_eq!(adc(0x1234, 0x1111, true, false, false), Sum { value: 0x2346, c: false, v: false });
    assert_eq!(adc(0xffff, 0x0001, false, false, false), Sum { value: 0x0000, c: true, v: false });
    assert_eq!(adc(0x7fff, 0x0001, false, false, false), Sum { value: 0x8000, c: false, v: true });
    assert_eq!(binary(0x8000, 0x8000, false, false), Sum { value: 0x0000, c: true, v: true });
}

#[test]
fn binary_subtraction() {
    assert_eq!(sbc(0x0005, 0x0003, true, false, true), Sum { value: 0x02, c: true, v: false });
    assert_eq!(sbc(0x0003, 0x0005, true, false, true), Sum { value: 0xfe, c: false, v: false });
    assert_eq!(sbc(0x0005, 0x0003, false, false, true), Sum { value: 0x01, c: true, v: false });
    assert_eq!(sbc(0x0080, 0x0001, true, false, true), Sum { value: 0x7f, c: true, v: true });
    assert_eq!(sbc(0x1000, 0x0001, true, false, false), Sum { value: 0x0fff, c: true, v: false });
    assert_eq!(sbc(0x0000, 0x0001, true, false, false), Sum { value: 0xffff, c: false, v: false });
}

#[test]
fn decimal_addition() {
    assert_eq!(adc(0x0019, 0x0001, false, true, true).value, 0x20);
    assert_eq!(adc(0x0099, 0x0001, false, true, true), Sum { value: 0x00, c: true, v: false });
    assert_eq!(adc(0x0058, 0x0046, true, true, true).value, 0x05);
    assert!(adc(0x0058, 0x0046, true, true, true).c);
    assert_eq!(adc(0x1999, 0x0001, false, true, false).value, 0x2000);
    assert_eq!(adc(0x9999, 0x0001, false, true, false).value, 0x0000);
    assert!(adc(0x9999, 0x0001, false, true, false).c);
    assert_eq!(decimal(0x0012, 0x0034, false, true, false).value, 0x46);
}

#[test]
fn decimal_subtraction() {
    assert_eq!(sbc(0x0020, 0x0001, true, true, true).value, 0x19);
    assert!(sbc(0x0020, 0x0001, true, true, true).c);
    assert_eq!(sbc(0x0000, 0x0001, true, true, true).value, 0x99);
    assert!(!sbc(0x0000, 0x0001, true, true, true).c);
    assert_eq!(sbc(0x2000, 0x0001, true, true, false).value, 0x1999);
    assert_eq!(sbc(0x0046, 0x0012, false, true, true).value, 0x33);
}

#[test]
fn decimal_digit_correction() {
    assert_eq!(adjust(9, false), 9);
    assert_eq!(adjust(10, false), 16);
    assert_eq!(adjust(19, false), 25);
    assert_eq!(adjust(15, true), 9);
    assert_eq!(adjust(0, true), 10);
    assert_eq!(adjust(16, true), 16);
}

#[test]
fn shifts_and_rotates() {
    assert_eq!(modified(Op::Asl, 0x0081, 0, false, true), 0x02);
    assert!(shifted_out(Op::Asl, 0x0081, false, true));
    assert_eq!(modified(Op::Asl, 0x8001, 0, false, false), 0x0002);
    assert_eq!(modified(Op::Rol, 0x0080, 0, true, true), 0x01);
    assert_eq!(modified(Op::Lsr, 0x0081, 0, true, true), 0x40);
    assert!(shifted_out(Op::Lsr, 0x0081, false, true));
    assert_eq!(modified(Op::Ror, 0x0001, 0, true, true), 0x80);
    assert_eq!(modified(Op::Ror, 0x0002, 0, true, false), 0x8001);
    assert_eq!(modified(Op::Inc, 0x00ff, 0, false, true), 0x00);
    assert_eq!(modified(Op::Inc, 0x00ff, 0, false, false), 0x0100);
    assert_eq!(modified(Op::Dec, 0x0000, 0, false, true), 0xff);
    assert_eq!(modified(Op::Dec, 0x0000, 0, false, false), 0xffff);
    assert_eq!(modified(Op::Tsb, 0x00f0, 0x000f, false, true), 0xff);
    assert_eq!(modified(Op::Trb, 0x00ff, 0x000f, false, true), 0xf0);
}

#[test]
fn every_opcode_decodes() {
    assert_eq!(decode(0x00), Instr { op: Op::Brk, mode: Mode::Stack });
    assert_eq!(decode(0xa9), Instr { op: Op::Lda, mode: Mode::Immediate });
    assert_eq!(decode(0xea), Instr { op: Op::Nop, mode: Mode::Implied });
    assert_eq!(decode(0x42), Instr { op: Op::Wdm, mode: Mode::Implied });
    assert_eq!(decode(0x89), Instr { op: Op::Bit, mode: Mode::Immediate });
    assert_eq!(decode(0x5c), Instr { op: Op::Jml, mode: Mode::AbsoluteLong });
    assert_eq!(decode(0xdc), Instr { op: Op::Jml, mode: Mode::AbsoluteIndirectLong });
    assert_eq!(decode(0xfc), Instr { op: Op::Jsr, mode: Mode::AbsoluteIndexedIndirect });
    assert_eq!(decode(0x54), Instr { op: Op::Mvn, mode: Mode::BlockMove });
    assert_eq!(decode(0x93), Instr { op: Op::Sta, mode: Mode::StackRelativeIndirectIndexed });
    assert_eq!(decode(0xb7), Instr { op: Op::Lda, mode: Mode::DirectIndirectLongIndexed });
    assert_eq!(decode(0xff), Instr { op: Op::Sbc, mode: Mode::AbsoluteLongX });
    assert_eq!(decode(0x96), Instr { op: Op::Stx, mode: Mode::DirectY });
    assert_eq!(decode(0xfb), Instr { op: Op::Xce, mode: Mode::Implied });
    let mut n = 0;
    for b in 0..=255u8 {
        let i = decode(b);
        assert!(i.op != Op::Irq && i.op != Op::Nmi && i.op != Op::Reset);
        assert!(i.mode != Mode::Interrupt);
        n += 1;
    }
    assert_eq!(n, 256);
}

#[test]
fn width_and_class_of_operations() {
    assert_eq!(Op::Lda.width(), Width::Acc);
    assert_eq!(Op::Ldx.width(), Width::Index);
    assert_eq!(Op::Cpy.width(), Width::Index);
    assert_eq!(Op::Php.width(), Width::Byte);
    assert_eq!(Op::Rep.width(), Width::Byte);
    assert_eq!(Op::Phd.width(), Width::Word);
    assert_eq!(Op::Pea.width(), Width::Word);
    assert_eq!(Op::Lda.class(), Class::Read);
    assert_eq!(Op::Stz.class(), Class::Write);
    assert_eq!(Op::Tsb.class(), Class::Modify);
    assert_eq!(Op::Jmp.class(), Class::Other);
    assert!(Op::Brk.is_interrupt() && Op::Reset.is_interrupt() && !Op::Rti.is_interrupt());
}
