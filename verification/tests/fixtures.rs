use cpu_65816::fixture::{
    annotation, compare_cpu, compare_cycle, compare_ram, image_fits, is_runnable, prepare_cpu, prepare_ram, run_test,
    Annotation, BusMismatch, Outcome, RamMismatch, RegisterMismatch, State, Test, RAM_SIZE,
};
use cpu_65816::registers::{Core, P};
use cpu_65816::Bus;

fn state(pc: u16, ram: Vec<(u32, u8)>) -> State {
    State { a: 0, d: 0, dbr: 0, e: 1, p: 0x30, pbr: 0, pc, s: 0x01ff, x: 0, y: 0, ram }
}

fn lda_test() -> Test {
    let image = vec![(0x8000, 0xa9), (0x8001, 0x42)];
    Test {
        name: String::from("a9 e 1"),
        start: state(0x8000, image.clone()),
        end: State { a: 0x0042, ..state(0x8002, image) },
        cycles: vec![
            (Some(0x8000), Some(0xa9), String::from("dp-remx-")),
            (Some(0x8001), Some(0x42), String::from("-p-remx-")),
        ],
    }
}

fn sta_test() -> Test {
    let image = vec![(0x8000, 0x8d), (0x8001, 0x00), (0x8002, 0x20)];
    let mut after = image.clone();
    after.push((0x2000, 0x42));
    Test {
        name: String::from("8d e 1"),
        start: State { a: 0x0042, ..state(0x8000, image) },
        end: State { a: 0x0042, ..state(0x8003, after) },
        cycles: vec![
            (Some(0x8000), Some(0x8d), String::from("dp-remx-")),
            (Some(0x8001), Some(0x00), String::from("-p-remx-")),
            (Some(0x8002), Some(0x20), String::from("-p-remx-")),
            (Some(0x2000), Some(0x42), String::from("d--wemx-")),
        ],
    }
}

fn bus(bank: u8, addr: u16, data: u8, rw: bool, vda: bool, vpa: bool) -> Bus {
    let mut b = Bus::new();
    b.bank = bank;
    b.addr = addr;
    b.data = data;
    b.set_rw(rw);
    b.set_vda(vda);
    b.set_vpa(vpa);
    b
}

#[test]
fn annotation_reads_each_position() {
    let all = Annotation { vda: true, vpa: true, vp: true, rw: true, e: true, m: true, x: true, ml: true };
    assert_eq!(annotation("dpvremxl"), all);
    let none = Annotation { vda: false, vpa: false, vp: false, rw: false, e: false, m: false, x: false, ml: false };
    assert_eq!(annotation("---w----"), none);
    assert_eq!(annotation("pdrvmxle"), none);
    assert_eq!(annotation("d--r----extra"), Annotation { vda: true, rw: true, ..none });
}

#[test]
fn compare_cycle_finds_nothing_on_a_match() {
    let b = bus(0x12, 0x3456, 0x78, true, true, false);
    assert_eq!(compare_cycle(b, 0x123456, 0x78, "d--r----"), vec![]);
}

#[test]
fn compare_cycle_lists_each_difference_in_order() {
    let b = bus(0x12, 0x3456, 0x78, true, true, false);
    assert_eq!(
        compare_cycle(b, 0x13ffff, 0x79, "-p-w----"),
        vec![
            BusMismatch::Bank { expected: 0x13, actual: 0x12 },
            BusMismatch::Addr { expected: 0xffff, actual: 0x3456 },
            BusMismatch::Data { expected: 0x79, actual: 0x78 },
            BusMismatch::Vda { expected: false, actual: true },
            BusMismatch::Vpa { expected: true, actual: false },
            BusMismatch::Rw { expected: false, actual: true },
        ]
    );
    assert_eq!(
        compare_cycle(b, 0x123456, 0x78, "dp-r----"),
        vec![BusMismatch::Vpa { expected: true, actual: false }]
    );
    assert_eq!(
        compare_cycle(b, 0xab123456, 0x78, "d--r----"),
        vec![]
    );
}

#[test]
fn compare_cpu_lists_each_difference_in_order() {
    let end = State { a: 1, d: 2, dbr: 3, e: 0, p: 4, pbr: 5, pc: 6, s: 7, x: 8, y: 9, ram: vec![] };
    let same = Core { a: 1, d: 2, dbr: 3, e: false, p: P(4), pbr: 5, pc: 6, s: 7, x: 8, y: 9 };
    assert_eq!(compare_cpu(&end, same), vec![]);
    let other = Core { a: 11, d: 12, dbr: 13, e: true, p: P(14), pbr: 15, pc: 16, s: 17, x: 18, y: 19 };
    assert_eq!(
        compare_cpu(&end, other),
        vec![
            RegisterMismatch::A { expected: 1, actual: 11 },
            RegisterMismatch::D { expected: 2, actual: 12 },
            RegisterMismatch::Dbr { expected: 3, actual: 13 },
            RegisterMismatch::E { expected: false, actual: true },
            RegisterMismatch::P { expected: P(4), actual: P(14) },
            RegisterMismatch::Pbr { expected: 5, actual: 15 },
            RegisterMismatch::Pc { expected: 6, actual: 16 },
            RegisterMismatch::S { expected: 7, actual: 17 },
            RegisterMismatch::X { expected: 8, actual: 18 },
            RegisterMismatch::Y { expected: 9, actual: 19 },
        ]
    );
    assert_eq!(
        compare_cpu(&end, Core { pc: 60, ..same }),
        vec![RegisterMismatch::Pc { expected: 6, actual: 60 }]
    );
    let emu = State { e: 2, ..state(0, vec![]) };
    assert!(emu.registers().e);
}

#[test]
fn compare_ram_lists_the_bytes_that_differ() {
    let end = state(0, vec![(0, 1), (5, 2), (9, 3), (5, 7)]);
    let ram = vec![1, 0, 0, 0, 0, 2, 0, 0, 0, 4];
    assert_eq!(
        compare_ram(&end, &ram),
        vec![
            RamMismatch { addr: 9, expected: 3, actual: 4 },
            RamMismatch { addr: 5, expected: 7, actual: 2 },
        ]
    );
    assert_eq!(compare_ram(&state(0, vec![]), &ram), vec![]);
}

#[test]
fn prepare_ram_writes_the_image_in_order() {
    let start = state(0, vec![(1, 0x11), (3, 0x33), (1, 0x44)]);
    let mut ram = vec![9u8; 5];
    prepare_ram(&start, &mut ram);
    assert_eq!(ram, vec![9, 0x44, 9, 0x33, 9]);
}

#[test]
fn prepare_cpu_takes_the_registers_of_the_snapshot() {
    let start = State { a: 1, d: 2, dbr: 3, e: 0, p: 0x04, pbr: 5, pc: 6, s: 7, x: 8, y: 9, ram: vec![] };
    let cpu = prepare_cpu(&start);
    assert_eq!(
        cpu.registers(),
        Core { a: 1, d: 2, dbr: 3, e: false, p: P(0x04), pbr: 5, pc: 6, s: 7, x: 8, y: 9 }
    );
    let start = State { e: 1, p: 0x00, s: 0x01ff, x: 0, y: 0, ..start };
    let c = prepare_cpu(&start).registers();
    assert_eq!(c, Core { a: 1, d: 2, dbr: 3, e: true, p: P(0x00), pbr: 5, pc: 6, s: 0x01ff, x: 0, y: 0 });
    let start = State { e: 1, p: 0xcf, s: 0x23ff, x: 0x1234, ..start };
    let c = prepare_cpu(&start).registers();
    assert_eq!((c.e, c.p, c.s, c.x, c.a, c.pc), (true, P(0xcf), 0x01ff, 0x0034, 1, 6));
}

#[test]
fn a_test_is_runnable_when_it_fits_the_memory() {
    assert!(is_runnable(&lda_test()));
    let mut t = lda_test();
    t.cycles[1].2 = String::from("-p-remx");
    assert!(!is_runnable(&t));
    let mut t = lda_test();
    t.start.ram.push((0x100_0000, 0));
    assert!(!is_runnable(&t));
    let mut t = lda_test();
    t.end.ram.push((0xff_ffff, 0));
    assert!(is_runnable(&t));
    assert!(image_fits(&vec![(4, 0)], 5));
    assert!(!image_fits(&vec![(4, 0), (5, 0)], 5));
    assert_eq!(RAM_SIZE, 16 * 1024 * 1024);
}

#[test]
fn a_matching_test_passes() {
    let mut ram = vec![0u8; RAM_SIZE];
    let report = run_test(&lda_test(), &mut ram);
    assert_eq!(report.outcome, Outcome::Pass);
    assert_eq!(report.cycle, 2);
    assert!(report.bus.is_empty() && report.cpu.is_empty() && report.ram.is_empty());
    let report = run_test(&sta_test(), &mut ram);
    assert_eq!(report.outcome, Outcome::Pass);
    assert_eq!(report.cycle, 4);
    assert_eq!(ram[0x2000], 0x42);
}

#[test]
fn a_test_stops_at_the_first_cycle_that_differs() {
    let mut t = sta_test();
    t.cycles[1].1 = Some(0x01);
    t.cycles[2].1 = Some(0x21);
    let mut ram = vec![0u8; RAM_SIZE];
    let report = run_test(&t, &mut ram);
    assert_eq!(report.outcome, Outcome::Cycle);
    assert_eq!(report.cycle, 1);
    assert_eq!(report.bus, vec![BusMismatch::Data { expected: 0x01, actual: 0x00 }]);
    assert!(report.cpu.is_empty() && report.ram.is_empty());
    assert_eq!(ram[0x2000], 0x00);
}

#[test]
fn an_absent_address_or_byte_counts_as_zero() {
    let mut t = lda_test();
    t.cycles[1].0 = None;
    t.cycles[1].1 = None;
    let mut ram = vec![0u8; RAM_SIZE];
    let report = run_test(&t, &mut ram);
    assert_eq!(report.outcome, Outcome::Cycle);
    assert_eq!(
        report.bus,
        vec![
            BusMismatch::Addr { expected: 0x0000, actual: 0x8001 },
            BusMismatch::Data { expected: 0x00, actual: 0x42 },
        ]
    );
}

#[test]
fn a_test_fails_on_the_registers_before_the_memory() {
    let mut t = sta_test();
    t.end.a = 0x0043;
    t.end.ram.push((0x2001, 0x99));
    let mut ram = vec![0u8; RAM_SIZE];
    let report = run_test(&t, &mut ram);
    assert_eq!(report.outcome, Outcome::Cpu);
    assert_eq!(report.cycle, 4);
    assert_eq!(report.cpu, vec![RegisterMismatch::A { expected: 0x0043, actual: 0x0042 }]);
    assert!(report.bus.is_empty() && report.ram.is_empty());
}

#[test]
fn a_test_fails_on_the_memory_last() {
    let mut t = sta_test();
    t.end.ram.push((0x2001, 0x99));
    let mut ram = vec![0u8; RAM_SIZE];
    let report = run_test(&t, &mut ram);
    assert_eq!(report.outcome, Outcome::Ram);
    assert_eq!(report.ram, vec![RamMismatch { addr: 0x2001, expected: 0x99, actual: 0x00 }]);
    assert!(report.bus.is_empty() && report.cpu.is_empty());
}

fn immediate_test(opcode: u8, p: u8) -> Test {
    let image = vec![(0x8000, opcode), (0x8001, 0x42), (0x8002, 0x99)];
    let start = State { p, ..state(0x8000, image.clone()) };
    let mut end = State { p, ..state(0x8002, image) };
    if opcode == 0xa9 {
        end.a = 0x0042;
    } else {
        end.x = 0x0042;
    }
    Test {
        name: String::from("immediate e"),
        start,
        end,
        cycles: vec![
            (Some(0x8000), Some(opcode), String::from("dp-remx-")),
            (Some(0x8001), Some(0x42), String::from("-p-remx-")),
        ],
    }
}

#[test]
fn injecting_a_snapshot_and_comparing_it_finds_nothing() {
    for p in [0x00u8, 0x10, 0x20, 0x30, 0xcf, 0xff] {
        for e in [0u8, 1] {
            let s = State { a: 0x1234, d: 0x5678, dbr: 0x9a, e, p, pbr: 0xbc, pc: 0xdef0, s: 0x01f0, x: 0x0011, y: 0x0022, ram: vec![] };
            let cpu = prepare_cpu(&s);
            assert_eq!(cpu.registers().p, P(p));
            assert_eq!(compare_cpu(&s, cpu.registers()), vec![]);
        }
    }
}

#[test]
fn a_test_with_cleared_width_flags_in_emulation_mode_can_pass() {
    let image = vec![(0x8000, 0xea)];
    let t = Test {
        name: String::from("ea e"),
        start: State { p: 0x00, ..state(0x8000, image.clone()) },
        end: State { p: 0x00, ..state(0x8001, image) },
        cycles: vec![
            (Some(0x8000), Some(0xea), String::from("dp-remx-")),
            (Some(0x8001), Some(0x00), String::from("---remx-")),
        ],
    };
    let mut ram = vec![0u8; RAM_SIZE];
    assert_eq!(run_test(&t, &mut ram).outcome, Outcome::Pass);
}

#[test]
fn immediate_loads_are_one_byte_wide_in_emulation_mode_whatever_the_flags() {
    for opcode in [0xa9u8, 0xa2] {
        for p in [0x00u8, 0x10, 0x20, 0x30] {
            let mut ram = vec![0u8; RAM_SIZE];
            let report = run_test(&immediate_test(opcode, p), &mut ram);
            assert_eq!(report.outcome, Outcome::Pass, "opcode {:02x} p {:02x}", opcode, p);
            assert_eq!(report.cycle, 2);
        }
    }
}

#[test]
fn a_load_leaves_the_memory_as_prepared() {
    let mut ram = vec![7u8; RAM_SIZE + 16];
    let t = lda_test();
    let mut want = ram.clone();
    prepare_ram(&t.start, &mut want);
    assert_eq!(run_test(&t, &mut ram).outcome, Outcome::Pass);
    assert!(ram == want);
}
