use cpu_65816::registers::{Core, P};
use cpu_65816::{Bus, Cpu65816};

const FETCH: u8 = 3;
const OPERAND: u8 = 2;
const DATA: u8 = 1;
const IDLE: u8 = 0;

struct Rig {
    cpu: Cpu65816,
    bus: Bus,
    ram: Vec<u8>,
    writes: Vec<(u32, u8)>,
}

fn native(p: u8, pc: u16) -> Core {
    Core { a: 0, d: 0, dbr: 0, e: false, p: P(p), pbr: 0, pc, s: 0x01ff, x: 0, y: 0 }
}

fn emulation(p: u8, pc: u16) -> Core {
    Core { e: true, ..native(p, pc) }
}

fn rig(core: Core, at: u32, program: &[u8]) -> Rig {
    let mut ram = vec![0u8; 0x100_0000];
    for (i, b) in program.iter().enumerate() {
        ram[at as usize + i] = *b;
    }
    Rig { cpu: Cpu65816::new(core), bus: Bus::new(), ram, writes: Vec::new() }
}

fn step(r: &mut Rig) -> (u8, u32, bool) {
    r.cpu.cycle(&mut r.bus);
    let addr = r.bus.linear_address();
    if r.bus.rw() {
        r.bus.data = r.ram[addr as usize];
    } else {
        r.ram[addr as usize] = r.bus.data;
        r.writes.push((addr, r.bus.data));
    }
    let kind = (if r.bus.vpa() { 2 } else { 0 }) + (if r.bus.vda() { 1 } else { 0 });
    (kind, addr, r.bus.rw())
}

fn vector(r: &mut Rig, at: usize, to: u16) {
    r.ram[at] = to as u8;
    r.ram[at + 1] = (to >> 8) as u8;
}

#[test]
fn brk_and_rti_in_native_mode() {
    let mut r = rig(Core { pbr: 0x12, ..native(0x09, 0x8000) }, 0x128000, &[0x00, 0xff]);
    vector(&mut r, 0xffe6, 0xa000);
    r.ram[0xa000] = 0x40;
    assert_eq!(step(&mut r), (FETCH, 0x128000, true));
    assert_eq!(step(&mut r), (OPERAND, 0x128001, true));
    assert_eq!(step(&mut r), (DATA, 0x0001ff, false));
    assert_eq!(step(&mut r), (DATA, 0x0001fe, false));
    assert_eq!(step(&mut r), (DATA, 0x0001fd, false));
    assert_eq!(step(&mut r), (DATA, 0x0001fc, false));
    assert_eq!(step(&mut r), (DATA, 0x00ffe6, true));
    assert!(r.bus.vp());
    assert_eq!(step(&mut r), (DATA, 0x00ffe7, true));
    assert_eq!(step(&mut r), (FETCH, 0x00a000, true));
    assert_eq!(r.writes, vec![(0x01ff, 0x12), (0x01fe, 0x80), (0x01fd, 0x02), (0x01fc, 0x09)]);
    let c = r.cpu.registers();
    assert_eq!((c.pbr, c.pc, c.s, c.p), (0x00, 0xa000, 0x01fb, P(0x05)));
    assert_eq!(step(&mut r), (IDLE, 0x00a001, true));
    assert_eq!(step(&mut r), (IDLE, 0x00a001, true));
    assert_eq!(step(&mut r), (DATA, 0x0001fc, true));
    assert_eq!(step(&mut r), (DATA, 0x0001fd, true));
    assert_eq!(step(&mut r), (DATA, 0x0001fe, true));
    assert_eq!(step(&mut r), (DATA, 0x0001ff, true));
    assert_eq!(step(&mut r), (FETCH, 0x128002, true));
    let c = r.cpu.registers();
    assert_eq!((c.pbr, c.pc, c.s, c.p), (0x12, 0x8002, 0x01ff, P(0x09)));
}

#[test]
fn brk_and_cop_in_emulation_mode() {
    let mut r = rig(emulation(0x31, 0x8000), 0x8000, &[0x00, 0xff]);
    vector(&mut r, 0xfffe, 0xa000);
    assert_eq!(step(&mut r), (FETCH, 0x8000, true));
    assert_eq!(step(&mut r), (OPERAND, 0x8001, true));
    assert_eq!(step(&mut r), (DATA, 0x01ff, false));
    assert_eq!(step(&mut r), (DATA, 0x01fe, false));
    assert_eq!(step(&mut r), (DATA, 0x01fd, false));
    assert_eq!(step(&mut r), (DATA, 0xfffe, true));
    assert_eq!(step(&mut r), (DATA, 0xffff, true));
    assert_eq!(step(&mut r), (FETCH, 0xa000, true));
    assert_eq!(r.writes, vec![(0x01ff, 0x80), (0x01fe, 0x02), (0x01fd, 0x31)]);
    assert_eq!(r.cpu.registers().p, P(0x35));
    let mut r = rig(emulation(0x30, 0x8000), 0x8000, &[0x02, 0xff]);
    vector(&mut r, 0xfff4, 0xb000);
    while step(&mut r) != (FETCH, 0xb000, true) {}
    assert_eq!(r.writes.len(), 3);
    let mut r = rig(native(0x00, 0x8000), 0x8000, &[0x02, 0xff]);
    vector(&mut r, 0xffe4, 0xb000);
    while step(&mut r) != (FETCH, 0xb000, true) {}
    assert_eq!(r.writes.len(), 4);
}

#[test]
fn irq_is_taken_when_the_flag_lets_it_through() {
    let mut r = rig(Core { pbr: 0x12, ..native(0x00, 0x8000) }, 0x128000, &[0xea, 0xea]);
    vector(&mut r, 0xffee, 0xc000);
    r.ram[0xc000] = 0xea;
    r.ram[0xc001] = 0xea;
    assert_eq!(step(&mut r), (FETCH, 0x128000, true));
    r.bus.set_irq(true);
    assert_eq!(step(&mut r), (IDLE, 0x128001, true));
    assert_eq!(step(&mut r), (FETCH, 0x128001, true));
    assert_eq!(r.cpu.registers().pc, 0x8001);
    assert_eq!(step(&mut r), (IDLE, 0x128001, true));
    assert_eq!(step(&mut r), (DATA, 0x0001ff, false));
    assert_eq!(step(&mut r), (DATA, 0x0001fe, false));
    assert_eq!(step(&mut r), (DATA, 0x0001fd, false));
    assert_eq!(step(&mut r), (DATA, 0x0001fc, false));
    assert_eq!(step(&mut r), (DATA, 0x00ffee, true));
    assert_eq!(step(&mut r), (DATA, 0x00ffef, true));
    assert_eq!(step(&mut r), (FETCH, 0x00c000, true));
    assert_eq!(r.writes, vec![(0x01ff, 0x12), (0x01fe, 0x80), (0x01fd, 0x01), (0x01fc, 0x00)]);
    assert!(r.cpu.registers().p.i());
    assert_eq!(step(&mut r), (IDLE, 0x00c001, true));
    assert_eq!(step(&mut r), (FETCH, 0x00c001, true));
}

#[test]
fn irq_is_held_off_by_the_interrupt_disable_flag() {
    let mut r = rig(native(0x04, 0x8000), 0x8000, &[0xea, 0xea]);
    r.bus.set_irq(true);
    assert_eq!(step(&mut r), (FETCH, 0x8000, true));
    assert_eq!(step(&mut r), (IDLE, 0x8001, true));
    assert_eq!(step(&mut r), (FETCH, 0x8001, true));
    assert_eq!(step(&mut r), (IDLE, 0x8002, true));
    assert!(r.writes.is_empty());
}

#[test]
fn an_interrupt_in_emulation_mode_pushes_the_break_bit_clear() {
    let mut r = rig(emulation(0x31, 0x8000), 0x8000, &[0xea]);
    vector(&mut r, 0xfffe, 0xc000);
    r.bus.set_irq(true);
    assert_eq!(step(&mut r), (FETCH, 0x8000, true));
    assert_eq!(step(&mut r), (IDLE, 0x8000, true));
    assert_eq!(step(&mut r), (DATA, 0x01ff, false));
    assert_eq!(step(&mut r), (DATA, 0x01fe, false));
    assert_eq!(step(&mut r), (DATA, 0x01fd, false));
    assert_eq!(step(&mut r), (DATA, 0xfffe, true));
    assert_eq!(step(&mut r), (DATA, 0xffff, true));
    assert_eq!(step(&mut r), (FETCH, 0xc000, true));
    assert_eq!(r.writes, vec![(0x01ff, 0x80), (0x01fe, 0x00), (0x01fd, 0x21)]);
    assert_eq!(r.cpu.registers().p, P(0x35));
}

#[test]
fn nmi_is_taken_on_its_rising_edge_only() {
    let mut r = rig(native(0x04, 0x8000), 0x8000, &[0xea]);
    vector(&mut r, 0xffea, 0xd000);
    r.ram[0xd000] = 0xea;
    r.ram[0xd001] = 0xea;
    r.ram[0xd002] = 0xea;
    r.bus.set_nmi(true);
    assert_eq!(step(&mut r), (FETCH, 0x8000, true));
    for _ in 0..5 {
        step(&mut r);
    }
    assert_eq!(step(&mut r), (DATA, 0xffea, true));
    assert_eq!(step(&mut r), (DATA, 0xffeb, true));
    assert_eq!(step(&mut r), (FETCH, 0xd000, true));
    assert_eq!(r.writes.len(), 4);
    assert_eq!(step(&mut r), (IDLE, 0xd001, true));
    assert_eq!(step(&mut r), (FETCH, 0xd001, true));
    r.bus.set_nmi(false);
    assert_eq!(step(&mut r), (IDLE, 0xd002, true));
    assert_eq!(step(&mut r), (FETCH, 0xd002, true));
    r.bus.set_nmi(true);
    assert_eq!(step(&mut r), (IDLE, 0xd003, true));
    assert_eq!(step(&mut r), (FETCH, 0xd003, true));
    assert_eq!(step(&mut r), (IDLE, 0xd003, true));
    assert_eq!(step(&mut r), (DATA, 0x01fb, false));
}

#[test]
fn reset_wins_over_the_interrupts() {
    let mut r = rig(native(0x00, 0x8000), 0x8000, &[0xea]);
    vector(&mut r, 0xfffc, 0x9000);
    r.bus.set_res(true);
    r.bus.set_nmi(true);
    r.bus.set_irq(true);
    step(&mut r);
    r.bus.set_res(false);
    r.bus.set_irq(false);
    for _ in 0..6 {
        step(&mut r);
    }
    assert_eq!(step(&mut r), (FETCH, 0x9000, true));
    assert!(r.writes.is_empty());
    assert!(r.cpu.registers().e);
}

#[test]
fn wai_rests_until_an_interrupt() {
    let mut r = rig(native(0x04, 0x8000), 0x8000, &[0xcb, 0xea]);
    assert_eq!(step(&mut r), (FETCH, 0x8000, true));
    assert_eq!(step(&mut r), (IDLE, 0x8001, true));
    assert_eq!(step(&mut r), (IDLE, 0x8001, true));
    for _ in 0..10 {
        assert_eq!(step(&mut r), (IDLE, 0x8001, true));
    }
    assert_eq!(r.cpu.registers().pc, 0x8001);
    r.bus.set_irq(true);
    assert_eq!(step(&mut r), (FETCH, 0x8001, true));
    assert_eq!(step(&mut r), (IDLE, 0x8002, true));
}

#[test]
fn stp_rests_until_a_reset() {
    let mut r = rig(native(0x00, 0x8000), 0x8000, &[0xdb, 0xea]);
    vector(&mut r, 0xfffc, 0x9000);
    assert_eq!(step(&mut r), (FETCH, 0x8000, true));
    assert_eq!(step(&mut r), (IDLE, 0x8001, true));
    assert_eq!(step(&mut r), (IDLE, 0x8001, true));
    r.bus.set_irq(true);
    r.bus.set_nmi(true);
    for _ in 0..10 {
        assert_eq!(step(&mut r), (IDLE, 0x8001, true));
    }
    r.bus.set_irq(false);
    r.bus.set_nmi(false);
    r.bus.set_res(true);
    assert_eq!(step(&mut r), (FETCH, 0x8001, true));
    r.bus.set_res(false);
    assert!(r.cpu.registers().e);
    for _ in 0..6 {
        step(&mut r);
    }
    assert_eq!(step(&mut r), (FETCH, 0x9000, true));
}

#[test]
fn block_move_copies_one_byte_per_round() {
    let c = Core { a: 0x0001, x: 0x1000, y: 0x2000, ..native(0x00, 0x8000) };
    let mut r = rig(c, 0x8000, &[0x54, 0x02, 0x01]);
    r.ram[0x011000] = 0xaa;
    r.ram[0x011001] = 0xbb;
    assert_eq!(step(&mut r), (FETCH, 0x8000, true));
    assert_eq!(step(&mut r), (OPERAND, 0x8001, true));
    assert_eq!(step(&mut r), (OPERAND, 0x8002, true));
    assert_eq!(step(&mut r), (DATA, 0x011000, true));
    assert_eq!(step(&mut r), (DATA, 0x022000, false));
    assert_eq!(step(&mut r), (IDLE, 0x022000, true));
    assert_eq!(step(&mut r), (IDLE, 0x022000, true));
    assert_eq!(step(&mut r), (FETCH, 0x8000, true));
    let c = r.cpu.registers();
    assert_eq!((c.a, c.x, c.y, c.dbr, c.pc), (0x0000, 0x1001, 0x2001, 0x02, 0x8000));
    for _ in 0..6 {
        step(&mut r);
    }
    assert_eq!(step(&mut r), (FETCH, 0x8003, true));
    let c = r.cpu.registers();
    assert_eq!((c.a, c.x, c.y, c.dbr, c.pc), (0xffff, 0x1002, 0x2002, 0x02, 0x8003));
    assert_eq!(r.writes, vec![(0x022000, 0xaa), (0x022001, 0xbb)]);
    let c = Core { a: 0x0000, x: 0x00ff, y: 0x0000, ..native(0x10, 0x8000) };
    let mut r = rig(c, 0x8000, &[0x44, 0x02, 0x01]);
    for _ in 0..8 {
        step(&mut r);
    }
    let c = r.cpu.registers();
    assert_eq!((c.a, c.x, c.y), (0xffff, 0x00fe, 0x00ff));
}
