use cpu_65816::registers::{Core, P};
use cpu_65816::{Bus, Cpu65816};

const FETCH: u8 = 3;
const OPERAND: u8 = 2;
const DATA: u8 = 1;
const IDLE: u8 = 0;

struct Rig {
    cpu: Cpu65816,
    bus: Bus,
    ram: Vec<u8>,
    writes: Vec<(u32, u8)>,
}

fn native(p: u8, pc: u16) -> Core {
    Core { a: 0, d: 0, dbr: 0, e: false, p: P(p), pbr: 0, pc, s: 0x01ff, x: 0, y: 0 }
}

fn emulation(p: u8, pc: u16) -> Core {
    Core { e: true, ..native(p, pc) }
}

fn rig(core: Core, at: u32, program: &[u8]) -> Rig {
    let mut ram = vec![0u8; 0x100_0000];
    for (i, b) in program.iter().enumerate() {
        ram[at as usize + i] = *b;
    }
    Rig { cpu: Cpu65816::new(core), bus: Bus::new(), ram, writes: Vec::new() }
}

/// One clock cycle: the kind of cycle, the address, and whether it reads.
fn step(r: &mut Rig) -> (u8, u32, bool) {
    r.cpu.cycle(&mut r.bus);
    let addr = r.bus.linear_address();
    if r.bus.rw() {
        r.bus.data = r.ram[addr as usize];
    } else {
        r.ram[addr as usize] = r.bus.data;
        r.writes.push((addr, r.bus.data));
    }
    let kind = (if r.bus.vpa() { 2 } else { 0 }) + (if r.bus.vda() { 1 } else { 0 });
    (kind, addr, r.bus.rw())
}

/// Steps until the next opcode fetch after the first one; gives the number
/// of cycles of the instruction that ran.
fn run_one(r: &mut Rig) -> usize {
    assert_eq!(step(r).0, FETCH);
    let mut n = 1;
    while step(r).0 != FETCH {
        n += 1;
        assert!(n < 40);
    }
    n
}

#[test]
fn the_first_cycle_fetches_the_opcode() {
    let mut r = rig(Core { pbr: 0x12, ..native(0x00, 0x8000) }, 0x128000, &[0xea]);
    assert_eq!(r.cpu.request().rw, true);
    assert_eq!(step(&mut r), (FETCH, 0x128000, true));
    assert_eq!(r.cpu.registers().pc, 0x8000);
    assert_eq!(step(&mut r), (IDLE, 0x128001, true));
    assert_eq!(r.cpu.registers().pc, 0x8001);
    assert_eq!(step(&mut r), (FETCH, 0x128001, true));
}

#[test]
fn lda_immediate_sixteen_bit_takes_three_cycles() {
    let mut r = rig(native(0x00, 0x8000), 0x8000, &[0xa9, 0x34, 0x92]);
    assert_eq!(step(&mut r), (FETCH, 0x8000, true));
    assert_eq!(step(&mut r), (OPERAND, 0x8001, true));
    assert_eq!(step(&mut r), (OPERAND, 0x8002, true));
    assert_eq!(r.cpu.registers().a, 0x0000);
    assert_eq!(step(&mut r), (FETCH, 0x8003, true));
    let c = r.cpu.registers();
    assert_eq!(c.a, 0x9234);
    assert!(c.p.n() && !c.p.z());
    assert_eq!(c.pc, 0x8003);
    assert!(r.writes.is_empty());
}

#[test]
fn lda_immediate_sixteen_bit_zero_sets_z_from_the_whole_word() {
    let mut r = rig(Core { a: 0x1234, ..native(0x00, 0x8000) }, 0x8000, &[0xa9, 0x00, 0x00]);
    assert_eq!(run_one(&mut r), 3);
    assert_eq!(r.cpu.registers().a, 0x0000);
    assert_eq!(r.cpu.registers().p, P(0x02));
    let mut r = rig(native(0x00, 0x8000), 0x8000, &[0xa9, 0x00, 0x01]);
    assert_eq!(run_one(&mut r), 3);
    assert_eq!(r.cpu.registers().a, 0x0100);
    assert_eq!(r.cpu.registers().p, P(0x00));
}

#[test]
fn lda_immediate_in_emulation_mode_takes_two_cycles() {
    let mut r = rig(Core { a: 0x1200, ..emulation(0x30, 0x8000) }, 0x8000, &[0xa9, 0x80, 0x55]);
    assert_eq!(step(&mut r), (FETCH, 0x8000, true));
    assert_eq!(step(&mut r), (OPERAND, 0x8001, true));
    assert_eq!(step(&mut r), (FETCH, 0x8002, true));
    let c = r.cpu.registers();
    assert_eq!(c.a, 0x1280);
    assert_eq!(c.p, P(0xb0));
    assert!(r.writes.is_empty());
}

#[test]
fn lda_immediate_in_emulation_mode_ignores_cleared_width_bits() {
    let mut r = rig(Core { a: 0x1234, ..emulation(0x00, 0x8000) }, 0x8000, &[0xa9, 0x00, 0x55]);
    assert_eq!(run_one(&mut r), 2);
    let c = r.cpu.registers();
    assert_eq!(c.a, 0x1200);
    assert_eq!(c.p, P(0x02));
    assert!(c.m8() && c.x8());
}

#[test]
fn a_branch_not_taken_takes_two_cycles() {
    let mut r = rig(native(0x02, 0x8000), 0x8000, &[0xd0, 0x10]);
    assert_eq!(step(&mut r), (FETCH, 0x8000, true));
    assert_eq!(step(&mut r), (OPERAND, 0x8001, true));
    assert_eq!(step(&mut r), (FETCH, 0x8002, true));
    let mut r = rig(emulation(0x32, 0x80f0), 0x80f0, &[0xd0, 0x20]);
    assert_eq!(run_one(&mut r), 2);
    assert_eq!(r.cpu.registers().pc, 0x80f2);
}

#[test]
fn a_branch_taken_takes_three_cycles() {
    let mut r = rig(native(0x00, 0x8000), 0x8000, &[0xd0, 0x10]);
    assert_eq!(step(&mut r), (FETCH, 0x8000, true));
    assert_eq!(step(&mut r), (OPERAND, 0x8001, true));
    assert_eq!(step(&mut r), (IDLE, 0x8001, true));
    assert_eq!(step(&mut r), (FETCH, 0x8012, true));
    let mut r = rig(native(0x00, 0x80f0), 0x80f0, &[0xd0, 0x20]);
    assert_eq!(run_one(&mut r), 3);
    assert_eq!(r.cpu.registers().pc, 0x8112);
    let mut r = rig(native(0x00, 0x8010), 0x8010, &[0x80, 0xfe]);
    assert_eq!(run_one(&mut r), 3);
    assert_eq!(r.cpu.registers().pc, 0x8010);
}

#[test]
fn a_branch_across_a_page_costs_a_cycle_in_emulation_mode() {
    let mut r = rig(emulation(0x30, 0x80f0), 0x80f0, &[0xd0, 0x20]);
    assert_eq!(run_one(&mut r), 4);
    assert_eq!(r.cpu.registers().pc, 0x8112);
    let mut r = rig(emulation(0x30, 0x8000), 0x8000, &[0xd0, 0x20]);
    assert_eq!(run_one(&mut r), 3);
    assert_eq!(r.cpu.registers().pc, 0x8022);
}

#[test]
fn every_branch_tests_its_own_flag() {
    let cases: [(u8, u8, bool); 16] = [
        (0x10, 0x00, true),
        (0x10, 0x80, false),
        (0x30, 0x80, true),
        (0x30, 0x00, false),
        (0x50, 0x00, true),
        (0x50, 0x40, false),
        (0x70, 0x40, true),
        (0x70, 0x00, false),
        (0x90, 0x00, true),
        (0x90, 0x01, false),
        (0xb0, 0x01, true),
        (0xb0, 0x00, false),
        (0xd0, 0x00, true),
        (0xd0, 0x02, false),
        (0xf0, 0x02, true),
        (0xf0, 0x00, false),
    ];
    for (opcode, p, taken) in cases {
        let mut r = rig(native(p, 0x8000), 0x8000, &[opcode, 0x05]);
        assert_eq!(run_one(&mut r), if taken { 3 } else { 2 });
        assert_eq!(r.cpu.registers().pc, if taken { 0x8007 } else { 0x8002 });
    }
}

#[test]
fn a_wait_state_repeats_the_request_and_moves_nothing() {
    let mut r = rig(native(0x00, 0x8000), 0x8000, &[0xa9, 0x34, 0x92]);
    step(&mut r);
    step(&mut r);
    let before = r.cpu.registers();
    let request = r.cpu.request();
    let pins = r.bus;
    r.bus.set_rdy(false);
    for _ in 0..5 {
        r.cpu.cycle(&mut r.bus);
        assert_eq!(r.cpu.registers(), before);
        assert_eq!(r.cpu.request(), request);
        assert_eq!((r.bus.bank, r.bus.addr, r.bus.rw(), r.bus.vda(), r.bus.vpa()), (pins.bank, pins.addr, pins.rw(), pins.vda(), pins.vpa()));
    }
    r.bus.set_rdy(true);
    assert_eq!(step(&mut r), (OPERAND, 0x8002, true));
    assert_eq!(step(&mut r), (FETCH, 0x8003, true));
    assert_eq!(r.cpu.registers().a, 0x9234);
}

#[test]
fn a_wait_state_holds_a_write_too() {
    let mut r = rig(Core { a: 0x0042, ..native(0x30, 0x8000) }, 0x8000, &[0x8d, 0x00, 0x20]);
    step(&mut r);
    step(&mut r);
    step(&mut r);
    assert_eq!(step(&mut r), (DATA, 0x2000, false));
    let request = r.cpu.request();
    r.bus.set_rdy(false);
    r.cpu.cycle(&mut r.bus);
    r.cpu.cycle(&mut r.bus);
    assert_eq!(r.cpu.request(), request);
    assert_eq!(r.bus.data, 0x42);
    assert!(!r.bus.rw());
    r.bus.set_rdy(true);
    assert_eq!(step(&mut r), (FETCH, 0x8003, true));
    assert_eq!(r.writes, vec![(0x2000, 0x42)]);
}

#[test]
fn reset_enters_emulation_mode_and_loads_the_vector() {
    let start = Core { a: 0x1234, d: 0x4000, dbr: 0x7e, pbr: 0x12, s: 0x1fff, x: 0x2222, y: 0x3333, ..native(0x09, 0x8000) };
    let mut r = rig(start, 0x128000, &[0xea]);
    r.ram[0xfffc] = 0x00;
    r.ram[0xfffd] = 0x90;
    r.bus.set_res(true);
    assert_eq!(step(&mut r), (FETCH, 0x008000, true));
    r.bus.set_res(false);
    let c = r.cpu.registers();
    assert!(c.e && c.p.i() && !c.p.d() && c.p.m() && c.p.x());
    assert_eq!((c.pbr, c.dbr, c.d), (0, 0, 0));
    assert_eq!((c.x, c.y, c.s), (0x0022, 0x0033, 0x01ff));
    assert_eq!(step(&mut r), (IDLE, 0x008000, true));
    assert_eq!(step(&mut r), (DATA, 0x0001ff, true));
    assert_eq!(step(&mut r), (DATA, 0x0001fe, true));
    assert_eq!(step(&mut r), (DATA, 0x0001fd, true));
    assert_eq!(step(&mut r), (DATA, 0x00fffc, true));
    assert!(r.bus.vp());
    assert_eq!(step(&mut r), (DATA, 0x00fffd, true));
    assert!(r.bus.vp());
    assert_eq!(step(&mut r), (FETCH, 0x009000, true));
    assert!(!r.bus.vp());
    let c = r.cpu.registers();
    assert!(c.e && c.p.i() && !c.p.d());
    assert_eq!((c.pbr, c.pc, c.s, c.a), (0, 0x9000, 0x01fc, 0x1234));
    assert!(r.writes.is_empty());
}

#[test]
fn reset_is_sampled_at_the_end_of_an_instruction_only() {
    let mut r = rig(native(0x00, 0x8000), 0x8000, &[0xa9, 0x34, 0x92, 0xea]);
    r.ram[0xfffc] = 0x00;
    r.ram[0xfffd] = 0x90;
    step(&mut r);
    r.bus.set_res(true);
    assert_eq!(step(&mut r), (OPERAND, 0x8001, true));
    assert!(!r.cpu.registers().e);
    r.bus.set_res(false);
    assert_eq!(step(&mut r), (OPERAND, 0x8002, true));
    assert_eq!(step(&mut r), (FETCH, 0x8003, true));
    assert_eq!(r.cpu.registers().a, 0x9234);
    assert!(!r.cpu.registers().e);
}

#[test]
fn the_stack_stays_in_page_one_in_emulation_mode() {
    let mut r = rig(Core { a: 0x0042, s: 0x0100, ..emulation(0x30, 0x8000) }, 0x8000, &[0x48, 0x68]);
    assert_eq!(step(&mut r), (FETCH, 0x8000, true));
    assert_eq!(step(&mut r), (IDLE, 0x8001, true));
    assert_eq!(step(&mut r), (DATA, 0x0100, false));
    assert_eq!(step(&mut r), (FETCH, 0x8001, true));
    assert_eq!(r.cpu.registers().s, 0x01ff);
    assert_eq!(r.writes, vec![(0x0100, 0x42)]);
    assert_eq!(step(&mut r), (IDLE, 0x8002, true));
    assert_eq!(step(&mut r), (IDLE, 0x8002, true));
    assert_eq!(step(&mut r), (DATA, 0x0100, true));
    assert_eq!(step(&mut r), (FETCH, 0x8002, true));
    assert_eq!(r.cpu.registers().s, 0x0100);
    assert_eq!(r.cpu.registers().a, 0x0042);
}

#[test]
fn a_new_instruction_leaves_page_one_and_comes_back() {
    let mut r = rig(Core { s: 0x0100, ..emulation(0x30, 0x8000) }, 0x8000, &[0xf4, 0x34, 0x12]);
    assert_eq!(run_one(&mut r), 5);
    assert_eq!(r.writes, vec![(0x0100, 0x12), (0x00ff, 0x34)]);
    assert_eq!(r.cpu.registers().s, 0x01fe);
}

#[test]
fn the_stack_pointer_is_sixteen_bits_wide_in_native_mode() {
    let mut r = rig(Core { a: 0xbeef, s: 0x0100, ..native(0x00, 0x8000) }, 0x8000, &[0x48]);
    assert_eq!(run_one(&mut r), 4);
    assert_eq!(r.writes, vec![(0x0100, 0xbe), (0x00ff, 0xef)]);
    assert_eq!(r.cpu.registers().s, 0x00fe);
}

#[test]
fn txs_keeps_the_stack_in_page_one_in_emulation_mode() {
    let mut r = rig(Core { x: 0x0080, ..emulation(0x30, 0x8000) }, 0x8000, &[0x9a]);
    assert_eq!(run_one(&mut r), 2);
    assert_eq!(r.cpu.registers().s, 0x0180);
    let mut r = rig(Core { a: 0x4480, ..emulation(0x30, 0x8000) }, 0x8000, &[0x1b]);
    assert_eq!(run_one(&mut r), 2);
    assert_eq!(r.cpu.registers().s, 0x0180);
    let mut r = rig(Core { a: 0x4480, ..native(0x30, 0x8000) }, 0x8000, &[0x1b]);
    assert_eq!(run_one(&mut r), 2);
    assert_eq!(r.cpu.registers().s, 0x4480);
}

#[test]
fn xce_takes_effect_at_once() {
    let mut r = rig(Core { x: 0x1234, y: 0x5678, s: 0x2345, ..native(0x01, 0x8000) }, 0x8000, &[0xfb, 0xfb]);
    assert_eq!(run_one(&mut r), 2);
    let c = r.cpu.registers();
    assert!(c.e && !c.p.c() && c.p.m() && c.p.x());
    assert_eq!((c.x, c.y, c.s), (0x0034, 0x0078, 0x0145));
    let mut r = rig(emulation(0x30, 0x8000), 0x8000, &[0xfb]);
    assert_eq!(run_one(&mut r), 2);
    let c = r.cpu.registers();
    assert!(!c.e && c.p.c() && c.p.m() && c.p.x());
}

#[test]
fn rep_cannot_clear_the_width_flags_in_emulation_mode() {
    let mut r = rig(emulation(0xff, 0x8000), 0x8000, &[0xc2, 0xff]);
    assert_eq!(run_one(&mut r), 3);
    assert_eq!(r.cpu.registers().p, P(0x30));
    let mut r = rig(native(0xff, 0x8000), 0x8000, &[0xc2, 0x30]);
    assert_eq!(run_one(&mut r), 3);
    assert_eq!(r.cpu.registers().p, P(0xcf));
    let mut r = rig(Core { x: 0x1234, y: 0x5678, ..native(0x00, 0x8000) }, 0x8000, &[0xe2, 0x11]);
    assert_eq!(run_one(&mut r), 3);
    let c = r.cpu.registers();
    assert_eq!(c.p, P(0x11));
    assert_eq!((c.x, c.y), (0x0034, 0x0078));
}

#[test]
fn the_status_byte_is_taken_as_given() {
    let r = rig(emulation(0x00, 0x8000), 0x8000, &[0xea]);
    assert_eq!(r.cpu.registers(), emulation(0x00, 0x8000));
    let r = rig(emulation(0xcf, 0x8000), 0x8000, &[0xea]);
    assert_eq!(r.cpu.registers().p, P(0xcf));
    let mut r = rig(emulation(0x00, 0x8000), 0x8000, &[0xea, 0xea]);
    assert_eq!(run_one(&mut r), 2);
    assert_eq!(r.cpu.registers(), emulation(0x00, 0x8001));
}

#[test]
fn stored_width_flags_do_not_change_what_emulation_mode_does() {
    let program = [0xa9, 0x80, 0xa2, 0x7f, 0x48, 0x08, 0x69, 0x01, 0xe8, 0x9d, 0x00, 0x20, 0xd0, 0x02, 0xea, 0xea, 0x00, 0x00];
    let mut a = rig(Core { a: 0x1200, ..emulation(0x00, 0x8000) }, 0x8000, &program);
    let mut b = rig(Core { a: 0x1200, ..emulation(0x30, 0x8000) }, 0x8000, &program);
    for _ in 0..60 {
        let ca = step(&mut a);
        let cb = step(&mut b);
        assert_eq!(ca, cb);
        assert_eq!(a.bus, b.bus);
        let (ra, rb) = (a.cpu.registers(), b.cpu.registers());
        assert_eq!(Core { p: P(ra.p.0 | 0x30), ..ra }, Core { p: P(rb.p.0 | 0x30), ..rb });
    }
    assert_eq!(a.writes, b.writes);
    assert!(a.writes.contains(&(0x01fe, 0x30)));
}

#[test]
fn leaving_emulation_mode_keeps_the_widths_at_eight_bits() {
    let mut r = rig(emulation(0x00, 0x8000), 0x8000, &[0xfb, 0xa9, 0x34, 0x12]);
    assert_eq!(run_one(&mut r), 2);
    let c = r.cpu.registers();
    assert!(!c.e && c.p.m() && c.p.x());
    let mut n = 1;
    while step(&mut r).0 != FETCH {
        n += 1;
    }
    assert_eq!(n, 2);
    assert_eq!(r.cpu.registers().a, 0x0034);
}
