use cpu_65816::bus::{Bus, Request};
use cpu_65816::registers::{Core, P};

fn plain() -> Core {
    Core { a: 0, d: 0, dbr: 0, e: false, p: P(0), pbr: 0, pc: 0, s: 0x01ff, x: 0, y: 0 }
}

#[test]
fn status_getters_read_their_own_bit() {
    assert!(P(0x01).c() && !P(0xfe).c());
    assert!(P(0x02).z() && !P(0xfd).z());
    assert!(P(0x04).i() && !P(0xfb).i());
    assert!(P(0x08).d() && !P(0xf7).d());
    assert!(P(0x10).x() && !P(0xef).x());
    assert!(P(0x20).m() && !P(0xdf).m());
    assert!(P(0x40).v() && !P(0xbf).v());
    assert!(P(0x80).n() && !P(0x7f).n());
}

#[test]
fn status_setters_change_one_bit() {
    let mut p = P(0);
    p.set_c(true);
    assert_eq!(p, P(0x01));
    p.set_z(true);
    assert_eq!(p, P(0x03));
    p.set_i(true);
    assert_eq!(p, P(0x07));
    p.set_d(true);
    assert_eq!(p, P(0x0f));
    p.set_x(true);
    assert_eq!(p, P(0x1f));
    p.set_m(true);
    assert_eq!(p, P(0x3f));
    p.set_v(true);
    assert_eq!(p, P(0x7f));
    p.set_n(true);
    assert_eq!(p, P(0xff));
    p.set_d(false);
    assert_eq!(p, P(0xf7));
    p.set_n(false);
    assert_eq!(p, P(0x77));
    p.set_c(false);
    assert_eq!(p, P(0x76));
}

#[test]
fn status_builders_return_the_changed_byte() {
    assert_eq!(P(0).with_c(true), P(0x01));
    assert_eq!(P(0).with_z(true), P(0x02));
    assert_eq!(P(0).with_i(true), P(0x04));
    assert_eq!(P(0).with_d(true), P(0x08));
    assert_eq!(P(0).with_x(true), P(0x10));
    assert_eq!(P(0).with_m(true), P(0x20));
    assert_eq!(P(0).with_v(true), P(0x40));
    assert_eq!(P(0).with_n(true), P(0x80));
    assert_eq!(P(0xff).with_v(false).with_c(false), P(0xbe));
    assert_eq!(P(0x24).with_i(true), P(0x24));
}

#[test]
fn status_text_uses_each_flags_own_letter() {
    assert_eq!(P(0x00).text(), "--------");
    assert_eq!(P(0xff).text(), "NVMXDIZC");
    assert_eq!(P(0x01).text(), "-------C");
    assert_eq!(P(0x02).text(), "------Z-");
    assert_eq!(P(0x80).text(), "N-------");
    assert_eq!(P(0x34).text(), "--MX-I--");
}

#[test]
fn width_bits_can_be_stored_in_emulation_mode() {
    let mut p = P(0x30);
    p.set_m(false);
    p.set_x(false);
    assert_eq!(p, P(0x00));
    let c = Core { e: true, p, ..plain() };
    assert!(c.m8());
    assert!(c.x8());
}

#[test]
fn widths_follow_the_flags_in_native_mode() {
    assert!(!Core { p: P(0x00), ..plain() }.m8());
    assert!(!Core { p: P(0x00), ..plain() }.x8());
    assert!(Core { p: P(0x20), ..plain() }.m8());
    assert!(!Core { p: P(0x20), ..plain() }.x8());
    assert!(Core { p: P(0x10), ..plain() }.x8());
}

#[test]
fn normalized_keeps_the_status_byte_and_forces_what_the_mode_forces() {
    let c = Core { e: true, p: P(0x01), s: 0x23fe, x: 0x1234, y: 0xabcd, a: 0x5566, ..plain() };
    let n = c.normalized();
    assert_eq!(n.p, P(0x01));
    assert_eq!(n.s, 0x01fe);
    assert_eq!(n.x, 0x0034);
    assert_eq!(n.y, 0x00cd);
    assert_eq!(n.a, 0x5566);
    assert_eq!(n.normalized(), n);
}

#[test]
fn normalized_clears_index_high_bytes_at_eight_bits() {
    let c = Core { p: P(0x10), s: 0x23fe, x: 0x1234, y: 0xabcd, ..plain() };
    let n = c.normalized();
    assert_eq!(n.x, 0x0034);
    assert_eq!(n.y, 0x00cd);
    assert_eq!(n.s, 0x23fe);
    let wide = Core { p: P(0x00), x: 0x1234, ..plain() };
    assert_eq!(wide.normalized(), wide);
}

#[test]
fn register_writes_go_by_the_width_in_force() {
    let eight = Core { p: P(0x30), a: 0x1200, ..plain() };
    assert_eq!(eight.with_a(0xabcd).a, 0x12cd);
    assert_eq!(eight.with_x(0xabcd).x, 0x00cd);
    assert_eq!(eight.with_y(0xabcd).y, 0x00cd);
    let sixteen = Core { p: P(0x00), a: 0x1200, ..plain() };
    assert_eq!(sixteen.with_a(0xabcd).a, 0xabcd);
    assert_eq!(sixteen.with_x(0xabcd).x, 0xabcd);
    assert_eq!(sixteen.with_s(0x4321).s, 0x4321);
    let emu = Core { e: true, p: P(0x30), ..plain() };
    assert_eq!(emu.with_s(0x4321).s, 0x0121);
}

#[test]
fn loading_the_status_byte_keeps_the_forced_bits() {
    let emu = Core { e: true, p: P(0x30), ..plain() };
    assert_eq!(emu.with_p(P(0x00)).p, P(0x30));
    assert_eq!(emu.with_p(P(0xc3)).p, P(0xf3));
    let native = Core { p: P(0x00), x: 0x1234, y: 0x5678, ..plain() };
    assert_eq!(native.with_p(P(0x10)).x, 0x0034);
    assert_eq!(native.with_p(P(0x10)).y, 0x0078);
    assert_eq!(native.with_p(P(0x20)).x, 0x1234);
    assert_eq!(native.with_p(P(0x20)).p, P(0x20));
}

#[test]
fn zero_and_negative_go_by_the_width() {
    let c = plain();
    assert_eq!(c.with_nz(0x8000, false).p, P(0x80));
    assert_eq!(c.with_nz(0x8000, true).p, P(0x02));
    assert_eq!(c.with_nz(0x0080, true).p, P(0x80));
    assert_eq!(c.with_nz(0x0080, false).p, P(0x00));
    assert_eq!(c.with_nz(0x0000, false).p, P(0x02));
}

#[test]
fn bus_getters_read_their_own_line() {
    let b = |flags: u16| Bus { addr: 0, bank: 0, data: 0, flags };
    assert!(b(1).irq() && !b(!1).irq());
    assert!(b(2).nmi() && !b(!2).nmi());
    assert!(b(4).rdy() && !b(!4).rdy());
    assert!(b(8).res() && !b(!8).res());
    assert!(b(16).rw() && !b(!16).rw());
    assert!(b(32).vda() && !b(!32).vda());
    assert!(b(64).vpa() && !b(!64).vpa());
    assert!(b(128).vp() && !b(!128).vp());
    assert!(b(256).ml() && !b(!256).ml());
}

#[test]
fn bus_setters_change_one_line() {
    let mut b = Bus { addr: 0x1234, bank: 0x56, data: 0x78, flags: 0 };
    b.set_irq(true);
    assert_eq!(b.flags, 1);
    b.set_nmi(true);
    assert_eq!(b.flags, 3);
    b.set_rdy(true);
    assert_eq!(b.flags, 7);
    b.set_res(true);
    assert_eq!(b.flags, 15);
    b.set_rw(true);
    assert_eq!(b.flags, 31);
    b.set_vda(true);
    assert_eq!(b.flags, 63);
    b.set_vpa(true);
    assert_eq!(b.flags, 127);
    b.set_vp(true);
    assert_eq!(b.flags, 255);
    b.set_ml(true);
    assert_eq!(b.flags, 511);
    b.set_rdy(false);
    assert_eq!(b.flags, 507);
    b.set_vpa(false);
    assert_eq!(b.flags, 443);
    assert_eq!((b.addr, b.bank, b.data), (0x1234, 0x56, 0x78));
}

#[test]
fn a_new_bus_is_ready_and_reads() {
    let b = Bus::new();
    assert_eq!(b, Bus { addr: 0, bank: 0, data: 0, flags: 20 });
    assert!(b.rdy() && b.rw());
    assert!(!b.irq() && !b.nmi() && !b.res() && !b.vda() && !b.vpa() && !b.vp() && !b.ml());
}

#[test]
fn linear_address_joins_bank_and_offset() {
    assert_eq!(Bus { addr: 0x3456, bank: 0x12, data: 0, flags: 0 }.linear_address(), 0x123456);
    assert_eq!(Bus { addr: 0xffff, bank: 0xff, data: 0, flags: 0 }.linear_address(), 0xffffff);
    assert_eq!(Bus::new().linear_address(), 0);
}

#[test]
fn driving_a_read_keeps_the_data_byte_and_the_inputs() {
    let mut b = Bus { addr: 0, bank: 0, data: 0x99, flags: 0 };
    b.set_rdy(true);
    b.set_irq(true);
    let req = Request { bank: 0x7e, addr: 0x1000, data: 0x55, rw: true, vda: true, vpa: false, vp: true, ml: false };
    let d = b.drive(req);
    assert_eq!((d.bank, d.addr, d.data), (0x7e, 0x1000, 0x99));
    assert!(d.rw() && d.vda() && !d.vpa() && d.vp() && !d.ml());
    assert!(d.rdy() && d.irq() && !d.nmi() && !d.res());
}

#[test]
fn driving_a_write_puts_the_data_byte_on_the_bus() {
    let b = Bus { addr: 0, bank: 0, data: 0x99, flags: 20 };
    let req = Request { bank: 0x01, addr: 0x2000, data: 0x55, rw: false, vda: true, vpa: false, vp: false, ml: true };
    let d = b.drive(req);
    assert_eq!((d.bank, d.addr, d.data), (0x01, 0x2000, 0x55));
    assert!(!d.rw() && d.vda() && !d.vpa() && !d.vp() && d.ml() && d.rdy());
}

#[test]
fn flags_cleared_and_set_by_a_mask() {
    assert_eq!(P(0xff).without(0x30), P(0xcf));
    assert_eq!(P(0x0f).without(0xf1), P(0x0e));
    assert_eq!(P(0x00).with_all(0x11), P(0x11));
    assert_eq!(P(0x81).with_all(0x42), P(0xc3));
}

#[test]
fn leaving_emulation_mode_sets_the_width_flags() {
    let emu = Core { e: true, p: P(0x01), ..plain() };
    let left = emu.with_e(false);
    assert!(!left.e);
    assert_eq!(left.p, P(0x31));
    let native = Core { p: P(0x01), ..plain() };
    assert_eq!(native.with_e(false), native);
    assert_eq!(native.with_e(true).p, P(0x31));
}
