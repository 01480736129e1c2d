//! Single-step conformance tests: a start state, the expected bus cycles,
//! and the state expected at the end.

use crate::bus::Bus;
use crate::cpu::Cpu65816;
use crate::machine::Machine;
use crate::registers::{Core, P};
use crate::word::{bank_of, lemma_linear_parts, offset_of};
use vstd::prelude::*;
use vstd::string::StrSliceExecFns;

verus! {

/// The size of the memory that a test runs on: the whole 24-bit address space.
pub const RAM_SIZE: usize = 0x100_0000;

/// A register snapshot with a sparse memory image: pairs of a 24-bit
/// address and the byte there.
pub struct State {
    pub a: u16,
    pub d: u16,
    pub dbr: u8,
    pub e: u8,
    pub p: u8,
    pub pbr: u8,
    pub pc: u16,
    pub s: u16,
    pub x: u16,
    pub y: u16,
    pub ram: Vec<(u32, u8)>,
}

/// A named test. Each expected cycle gives the address, the data byte, and
/// eight characters that tell the state of the control lines.
pub struct Test {
    pub name: String,
    pub start: State,
    pub end: State,
    pub cycles: Vec<(Option<u32>, Option<u8>, String)>,
}

/// The control lines that the eight characters of a cycle stand for. At
/// each position one character means that the line is asserted: `d p v r e
/// m x l`, in this order.
#[derive(Copy, Clone, Debug, PartialEq, Eq, Structural)]
pub struct Annotation {
    pub vda: bool,
    pub vpa: bool,
    pub vp: bool,
    pub rw: bool,
    pub e: bool,
    pub m: bool,
    pub x: bool,
    pub ml: bool,
}

/// One difference between the bus and an expected cycle.
#[allow(inconsistent_fields)]
#[derive(Copy, Clone, Debug, PartialEq, Eq, Structural)]
pub enum BusMismatch {
    Bank { expected: u8, actual: u8 },
    Addr { expected: u16, actual: u16 },
    Data { expected: u8, actual: u8 },
    Vda { expected: bool, actual: bool },
    Vpa { expected: bool, actual: bool },
    Rw { expected: bool, actual: bool },
}

/// One difference between the registers and the expected ones.
#[allow(inconsistent_fields)]
#[derive(Copy, Clone, Debug, PartialEq, Eq, Structural)]
pub enum RegisterMismatch {
    A { expected: u16, actual: u16 },
    D { expected: u16, actual: u16 },
    Dbr { expected: u8, actual: u8 },
    E { expected: bool, actual: bool },
    P { expected: P, actual: P },
    Pbr { expected: u8, actual: u8 },
    Pc { expected: u16, actual: u16 },
    S { expected: u16, actual: u16 },
    X { expected: u16, actual: u16 },
    Y { expected: u16, actual: u16 },
}

/// One byte of memory that is not what the test expects.
#[derive(Copy, Clone, Debug, PartialEq, Eq, Structural)]
pub struct RamMismatch {
    pub addr: u32,
    pub expected: u8,
    pub actual: u8,
}

/// Where a test stopped.
#[derive(Copy, Clone, Debug, PartialEq, Eq, Structural)]
pub enum Outcome {
    /// Every cycle, every register and every byte matched.
    Pass,
    /// The bus did not match an expected cycle.
    Cycle,
    /// The cycles matched; the registers at the end did not.
    Cpu,
    /// Cycles and registers matched; the memory at the end did not.
    Ram,
}

/// What a test found. Only the differences of the comparison that stopped
/// the test are listed; `cycle` is the index of the failing cycle, or the
/// number of cycles when all of them matched.
pub struct Report {
    pub outcome: Outcome,
    pub cycle: usize,
    pub bus: Vec<BusMismatch>,
    pub cpu: Vec<RegisterMismatch>,
    pub ram: Vec<RamMismatch>,
}

/// A [`Report`] as plain values, with the memory that the test left.
pub struct Findings {
    pub outcome: Outcome,
    pub cycle: int,
    pub bus: Seq<BusMismatch>,
    pub cpu: Seq<RegisterMismatch>,
    pub ram: Seq<RamMismatch>,
    pub memory: Seq<u8>,
}

/// A test in progress: the machine, the bus and the memory.
pub struct Run {
    pub machine: Machine,
    pub bus: Bus,
    pub ram: Seq<u8>,
}

/// `s` with `x` appended if `cond` holds.
pub open spec fn pushed_if<T>(s: Seq<T>, cond: bool, x: T) -> Seq<T> {
    if cond {
        s.push(x)
    } else {
        s
    }
}

/// The value of an optional field of a cycle: zero where it is absent.
pub open spec fn or_zero32(o: Option<u32>) -> u32 {
    match o {
        Some(v) => v,
        None => 0,
    }
}

/// The value of an optional field of a cycle: zero where it is absent.
pub open spec fn or_zero8(o: Option<u8>) -> u8 {
    match o {
        Some(v) => v,
        None => 0,
    }
}

/// Whether every address of the image lies within a memory of `len` bytes.
pub open spec fn fits(image: Seq<(u32, u8)>, len: nat) -> bool {
    forall|i: int| 0 <= i < image.len() ==> (#[trigger] image[i]).0 < len
}

/// The memory with the first `n` entries of the image written to it, in order.
pub open spec fn patched(ram: Seq<u8>, image: Seq<(u32, u8)>, n: nat) -> Seq<u8>
    decreases n,
{
    if n == 0 {
        ram
    } else {
        patched(ram, image, (n - 1) as nat).update(image[n - 1].0 as int, image[n - 1].1)
    }
}

/// What the eight characters say.
pub open spec fn spec_annotation(cycle: Seq<char>) -> Annotation {
    Annotation {
        vda: cycle[0] == 'd',
        vpa: cycle[1] == 'p',
        vp: cycle[2] == 'v',
        rw: cycle[3] == 'r',
        e: cycle[4] == 'e',
        m: cycle[5] == 'm',
        x: cycle[6] == 'x',
        ml: cycle[7] == 'l',
    }
}

/// The differences between the bus and an expected cycle, in the order
/// bank, address, data, VDA, VPA, direction.
pub open spec fn bus_mismatches(bus: Bus, should_addr: u32, should_data: u8, cycle: Seq<char>) -> Seq<
    BusMismatch,
> {
    let s0 = Seq::<BusMismatch>::empty();
    let s1 = pushed_if(
        s0,
        bank_of(should_addr) != bus.bank,
        BusMismatch::Bank { expected: bank_of(should_addr), actual: bus.bank },
    );
    let s2 = pushed_if(
        s1,
        offset_of(should_addr) != bus.addr,
        BusMismatch::Addr { expected: offset_of(should_addr), actual: bus.addr },
    );
    let s3 = pushed_if(
        s2,
        should_data != bus.data,
        BusMismatch::Data { expected: should_data, actual: bus.data },
    );
    let s4 = pushed_if(
        s3,
        spec_annotation(cycle).vda != bus.vda(),
        BusMismatch::Vda { expected: spec_annotation(cycle).vda, actual: bus.vda() },
    );
    let s5 = pushed_if(
        s4,
        spec_annotation(cycle).vpa != bus.vpa(),
        BusMismatch::Vpa { expected: spec_annotation(cycle).vpa, actual: bus.vpa() },
    );
    pushed_if(
        s5,
        spec_annotation(cycle).rw != bus.rw(),
        BusMismatch::Rw { expected: spec_annotation(cycle).rw, actual: bus.rw() },
    )
}

/// The differences between the registers and the expected ones, in the
/// order A, D, DBR, E, P, PBR, PC, S, X, Y.
pub open spec fn register_mismatches(want: Core, have: Core) -> Seq<RegisterMismatch> {
    let s0 = Seq::<RegisterMismatch>::empty();
    let s1 = pushed_if(s0, want.a != have.a, RegisterMismatch::A { expected: want.a, actual: have.a });
    let s2 = pushed_if(s1, want.d != have.d, RegisterMismatch::D { expected: want.d, actual: have.d });
    let s3 = pushed_if(
        s2,
        want.dbr != have.dbr,
        RegisterMismatch::Dbr { expected: want.dbr, actual: have.dbr },
    );
    let s4 = pushed_if(s3, want.e != have.e, RegisterMismatch::E { expected: want.e, actual: have.e });
    let s5 = pushed_if(s4, want.p != have.p, RegisterMismatch::P { expected: want.p, actual: have.p });
    let s6 = pushed_if(
        s5,
        want.pbr != have.pbr,
        RegisterMismatch::Pbr { expected: want.pbr, actual: have.pbr },
    );
    let s7 = pushed_if(s6, want.pc != have.pc, RegisterMismatch::Pc { expected: want.pc, actual: have.pc });
    let s8 = pushed_if(s7, want.s != have.s, RegisterMismatch::S { expected: want.s, actual: have.s });
    let s9 = pushed_if(s8, want.x != have.x, RegisterMismatch::X { expected: want.x, actual: have.x });
    pushed_if(s9, want.y != have.y, RegisterMismatch::Y { expected: want.y, actual: have.y })
}

/// The entries among the first `n` of the image that the memory does not
/// hold, in order.
pub open spec fn ram_mismatches(image: Seq<(u32, u8)>, ram: Seq<u8>, n: nat) -> Seq<RamMismatch>
    decreases n,
{
    if n == 0 {
        Seq::empty()
    } else {
        pushed_if(
            ram_mismatches(image, ram, (n - 1) as nat),
            ram[image[n - 1].0 as int] != image[n - 1].1,
            RamMismatch {
                addr: image[n - 1].0,
                expected: image[n - 1].1,
                actual: ram[image[n - 1].0 as int],
            },
        )
    }
}

impl State {
    /// The registers of the snapshot. `e` counts as set when it is not zero.
    pub open spec fn spec_registers(&self) -> Core {
        Core {
            a: self.a,
            d: self.d,
            dbr: self.dbr,
            e: self.e != 0,
            p: P(self.p),
            pbr: self.pbr,
            pc: self.pc,
            s: self.s,
            x: self.x,
            y: self.y,
        }
    }

    /// Computes [`Self::spec_registers`].
    #[verifier::when_used_as_spec(spec_registers)]
    pub fn registers(&self) -> (r: Core)
        ensures
            r == self.spec_registers(),
    {
        Core {
            a: self.a,
            d: self.d,
            dbr: self.dbr,
            e: self.e != 0,
            p: P(self.p),
            pbr: self.pbr,
            pc: self.pc,
            s: self.s,
            x: self.x,
            y: self.y,
        }
    }
}

impl Run {
    /// The run one clock cycle on: the processor steps and drives the bus,
    /// then the memory answers. On a read the byte at the address is put on
    /// the data bus, on a write the byte on the data bus is stored.
    #[verifier::opaque]
    pub open spec fn stepped(self) -> Run {
        let machine = self.machine.tick(self.bus.inputs());
        let bus = self.bus.drive(machine.req);
        if bus.rw() {
            Run { machine, bus: Bus { data: self.ram[bus.linear_address() as int], ..bus }, ram: self.ram }
        } else {
            Run { machine, bus, ram: self.ram.update(bus.linear_address() as int, bus.data) }
        }
    }

    /// What the comparisons at the end of a test find. The registers are
    /// read once the last cycle has completed, that is after one more
    /// step of the processor, whose request is not carried out. The memory
    /// is compared only when the registers match.
    #[verifier::opaque]
    pub open spec fn judged(self, test: &Test) -> Findings {
        let have = self.machine.tick(self.bus.inputs()).core;
        let cpu = register_mismatches(test.end.registers(), have);
        let ram = ram_mismatches(test.end.ram@, self.ram, test.end.ram@.len());
        if cpu.len() > 0 {
            Findings {
                outcome: Outcome::Cpu,
                cycle: test.cycles@.len() as int,
                bus: Seq::empty(),
                cpu,
                ram: Seq::empty(),
                memory: self.ram,
            }
        } else if ram.len() > 0 {
            Findings {
                outcome: Outcome::Ram,
                cycle: test.cycles@.len() as int,
                bus: Seq::empty(),
                cpu: Seq::empty(),
                ram,
                memory: self.ram,
            }
        } else {
            Findings {
                outcome: Outcome::Pass,
                cycle: test.cycles@.len() as int,
                bus: Seq::empty(),
                cpu: Seq::empty(),
                ram: Seq::empty(),
                memory: self.ram,
            }
        }
    }

    /// What a test finds from its cycle `k` on: each cycle is stepped and
    /// compared, and the first one that differs stops the test.
    pub open spec fn outcome(self, test: &Test, k: nat) -> Findings
        decreases test.cycles@.len() - k,
    {
        if k >= test.cycles@.len() {
            self.judged(test)
        } else {
            let next = self.stepped();
            let found = bus_mismatches(
                next.bus,
                or_zero32(test.cycles@[k as int].0),
                or_zero8(test.cycles@[k as int].1),
                test.cycles@[k as int].2@,
            );
            if found.len() > 0 {
                Findings {
                    outcome: Outcome::Cycle,
                    cycle: k as int,
                    bus: found,
                    cpu: Seq::empty(),
                    ram: Seq::empty(),
                    memory: next.ram,
                }
            } else {
                next.outcome(test, k + 1)
            }
        }
    }
}

impl Test {
    /// What a test needs to run on a memory of [`RAM_SIZE`] bytes or more: both
    /// memory images lie within it, and every cycle has its eight characters.
    pub open spec fn runnable(&self) -> bool {
        &&& fits(self.start.ram@, RAM_SIZE as nat)
        &&& fits(self.end.ram@, RAM_SIZE as nat)
        &&& forall|k: int| 0 <= k < self.cycles@.len() ==> (#[trigger] self.cycles@[k]).2@.len() >= 8
    }

    /// What running the test on the memory `ram` finds.
    pub open spec fn findings(&self, ram: Seq<u8>) -> Findings {
        (Run {
            machine: Machine::power_on(self.start.registers()),
            bus: Bus { addr: 0, bank: 0, data: 0, flags: 20 },
            ram: patched(ram, self.start.ram@, self.start.ram@.len()),
        }).outcome(self, 0)
    }
}

impl View for Report {
    type V = Findings;

    /// The report as plain values. A report does not hold the memory.
    open spec fn view(&self) -> Findings {
        Findings {
            outcome: self.outcome,
            cycle: self.cycle as int,
            bus: self.bus@,
            cpu: self.cpu@,
            ram: self.ram@,
            memory: Seq::empty(),
        }
    }
}

/// Whether every address of the image lies within a memory of `len` bytes.
pub fn image_fits(image: &Vec<(u32, u8)>, len: usize) -> (r: bool)
    ensures
        r == fits(image@, len as nat),
{
    let mut i: usize = 0;
    while i < image.len()
        invariant
            i <= image.len(),
            forall|j: int| 0 <= j < i ==> (#[trigger] image@[j]).0 < len,
        decreases image.len() - i,
    {
        if image[i].0 as usize >= len {
            return false;
        }
        i += 1;
    }
    true
}

/// Whether the test can be run: see [`Test::runnable`].
pub fn is_runnable(test: &Test) -> (r: bool)
    ensures
        r == test.runnable(),
{
    if !image_fits(&test.start.ram, RAM_SIZE) || !image_fits(&test.end.ram, RAM_SIZE) {
        return false;
    }
    let mut k: usize = 0;
    while k < test.cycles.len()
        invariant
            k <= test.cycles.len(),
            forall|j: int| 0 <= j < k ==> (#[trigger] test.cycles@[j]).2@.len() >= 8,
        decreases test.cycles.len() - k,
    {
        if test.cycles[k].2.as_str().unicode_len() < 8 {
            return false;
        }
        k += 1;
    }
    true
}

/// A processor at power-on with the registers of the snapshot. The status
/// byte is that of the snapshot, and so is every register of a snapshot
/// that is valid; in one that is not, S, X and Y are held to the mode and
/// the index width.
pub fn prepare_cpu(start: &State) -> (cpu: Cpu65816)
    ensures
        cpu@ == Machine::power_on(start.registers()),
        cpu@.core.p == P(start.p),
        cpu@.core == (Core { s: cpu@.core.s, x: cpu@.core.x, y: cpu@.core.y, ..start.registers() }),
        start.registers().valid() ==> cpu@.core == start.registers(),
{
    Cpu65816::new(start.registers())
}

/// Writes the memory image of the snapshot to `ram`, entry by entry.
pub fn prepare_ram(start: &State, ram: &mut Vec<u8>)
    requires
        fits(start.ram@, old(ram)@.len()),
    ensures
        final(ram)@ == patched(old(ram)@, start.ram@, start.ram@.len()),
        final(ram)@.len() == old(ram)@.len(),
{
    let mut i: usize = 0;
    while i < start.ram.len()
        invariant
            i <= start.ram.len(),
            ram@.len() == old(ram)@.len(),
            fits(start.ram@, ram@.len()),
            ram@ == patched(old(ram)@, start.ram@, i as nat),
        decreases start.ram.len() - i,
    {
        let entry = start.ram[i];
        ram.set(entry.0 as usize, entry.1);
        i += 1;
    }
}

/// Reads the eight characters of a cycle.
pub fn annotation(cycle: &str) -> (r: Annotation)
    requires
        cycle@.len() >= 8,
    ensures
        r == spec_annotation(cycle@),
{
    Annotation {
        vda: cycle.get_char(0) == 'd',
        vpa: cycle.get_char(1) == 'p',
        vp: cycle.get_char(2) == 'v',
        rw: cycle.get_char(3) == 'r',
        e: cycle.get_char(4) == 'e',
        m: cycle.get_char(5) == 'm',
        x: cycle.get_char(6) == 'x',
        ml: cycle.get_char(7) == 'l',
    }
}

/// Compares the bus with an expected cycle: bank and address against the
/// 24-bit `should_addr`, the data byte, and the lines VDA, VPA and
/// direction against the characters of `cycle`.
pub fn compare_cycle(bus: Bus, should_addr: u32, should_data: u8, cycle: &str) -> (found: Vec<BusMismatch>)
    requires
        cycle@.len() >= 8,
    ensures
        found@ == bus_mismatches(bus, should_addr, should_data, cycle@),
{
    let should_bank = bank_of(should_addr);
    let should_offset = offset_of(should_addr);
    let note = annotation(cycle);
    let mut found: Vec<BusMismatch> = Vec::new();
    if should_bank != bus.bank {
        found.push(BusMismatch::Bank { expected: should_bank, actual: bus.bank });
    }
    if should_offset != bus.addr {
        found.push(BusMismatch::Addr { expected: should_offset, actual: bus.addr });
    }
    if should_data != bus.data {
        found.push(BusMismatch::Data { expected: should_data, actual: bus.data });
    }
    if note.vda != bus.vda() {
        found.push(BusMismatch::Vda { expected: note.vda, actual: bus.vda() });
    }
    if note.vpa != bus.vpa() {
        found.push(BusMismatch::Vpa { expected: note.vpa, actual: bus.vpa() });
    }
    if note.rw != bus.rw() {
        found.push(BusMismatch::Rw { expected: note.rw, actual: bus.rw() });
    }
    found
}

/// Compares the registers with those of the expected snapshot.
pub fn compare_cpu(end: &State, have: Core) -> (found: Vec<RegisterMismatch>)
    ensures
        found@ == register_mismatches(end.registers(), have),
{
    let want = end.registers();
    let mut found: Vec<RegisterMismatch> = Vec::new();
    if want.a != have.a {
        found.push(RegisterMismatch::A { expected: want.a, actual: have.a });
    }
    if want.d != have.d {
        found.push(RegisterMismatch::D { expected: want.d, actual: have.d });
    }
    if want.dbr != have.dbr {
        found.push(RegisterMismatch::Dbr { expected: want.dbr, actual: have.dbr });
    }
    if want.e != have.e {
        found.push(RegisterMismatch::E { expected: want.e, actual: have.e });
    }
    if want.p != have.p {
        found.push(RegisterMismatch::P { expected: want.p, actual: have.p });
    }
    if want.pbr != have.pbr {
        found.push(RegisterMismatch::Pbr { expected: want.pbr, actual: have.pbr });
    }
    if want.pc != have.pc {
        found.push(RegisterMismatch::Pc { expected: want.pc, actual: have.pc });
    }
    if want.s != have.s {
        found.push(RegisterMismatch::S { expected: want.s, actual: have.s });
    }
    if want.x != have.x {
        found.push(RegisterMismatch::X { expected: want.x, actual: have.x });
    }
    if want.y != have.y {
        found.push(RegisterMismatch::Y { expected: want.y, actual: have.y });
    }
    found
}

/// Compares the memory with the image of the expected snapshot.
pub fn compare_ram(end: &State, ram: &Vec<u8>) -> (found: Vec<RamMismatch>)
    requires
        fits(end.ram@, ram@.len()),
    ensures
        found@ == ram_mismatches(end.ram@, ram@, end.ram@.len()),
{
    let mut found: Vec<RamMismatch> = Vec::new();
    let mut i: usize = 0;
    while i < end.ram.len()
        invariant
            i <= end.ram.len(),
            fits(end.ram@, ram@.len()),
            found@ == ram_mismatches(end.ram@, ram@, i as nat),
        decreases end.ram.len() - i,
    {
        let entry = end.ram[i];
        let actual = ram[entry.0 as usize];
        if entry.1 != actual {
            found.push(RamMismatch { addr: entry.0, expected: entry.1, actual });
        }
        i += 1;
    }
    found
}

/// Runs a test on `ram`: prepares processor and memory, steps the
/// processor once per expected cycle, carries each request out on the
/// memory and compares the bus with the expected cycle; then compares
/// registers and memory with the expected end state.
pub fn run_test(test: &Test, ram: &mut Vec<u8>) -> (report: Report)
    requires
        old(ram)@.len() >= RAM_SIZE,
        test.runnable(),
    ensures
        report@ == (Findings { memory: Seq::empty(), ..test.findings(old(ram)@) }),
        final(ram)@ == test.findings(old(ram)@).memory,
        final(ram)@.len() == old(ram)@.len(),
{
    let mut cpu = prepare_cpu(&test.start);
    let mut bus = Bus::new();
    prepare_ram(&test.start, ram);
    let mut k: usize = 0;
    while k < test.cycles.len()
        invariant
            k <= test.cycles.len(),
            ram@.len() == old(ram)@.len(),
            ram@.len() >= RAM_SIZE,
            test.runnable(),
            test.findings(old(ram)@) == (Run { machine: cpu@, bus, ram: ram@ }).outcome(test, k as nat),
        decreases test.cycles.len() - k,
    {
        let ghost before = Run { machine: cpu@, bus, ram: ram@ };
        let should_addr = match test.cycles[k].0 {
            Some(v) => v,
            None => 0,
        };
        let should_data = match test.cycles[k].1 {
            Some(v) => v,
            None => 0,
        };
        cpu.cycle(&mut bus);
        proof {
            lemma_linear_parts(bus.bank, bus.addr);
        }
        let addr = bus.linear_address() as usize;
        if bus.rw() {
            bus.data = ram[addr];
        } else {
            ram.set(addr, bus.data);
        }
        assert((Run { machine: cpu@, bus, ram: ram@ }) == before.stepped()) by {
            reveal(Run::stepped);
        }
        let found = compare_cycle(bus, should_addr, should_data, test.cycles[k].2.as_str());
        if found.len() > 0 {
            return Report { outcome: Outcome::Cycle, cycle: k, bus: found, cpu: Vec::new(), ram: Vec::new() };
        }
        k += 1;
    }
    proof {
        reveal(Run::judged);
    }
    cpu.cycle(&mut bus);
    let cpu_found = compare_cpu(&test.end, cpu.registers());
    if cpu_found.len() > 0 {
        return Report {
            outcome: Outcome::Cpu,
            cycle: test.cycles.len(),
            bus: Vec::new(),
            cpu: cpu_found,
            ram: Vec::new(),
        };
    }
    let ram_found = compare_ram(&test.end, ram);
    if ram_found.len() > 0 {
        return Report {
            outcome: Outcome::Ram,
            cycle: test.cycles.len(),
            bus: Vec::new(),
            cpu: Vec::new(),
            ram: ram_found,
        };
    }
    Report { outcome: Outcome::Pass, cycle: test.cycles.len(), bus: Vec::new(), cpu: Vec::new(), ram: Vec::new() }
}

/// Whether the bus shows what an expected cycle says: bank and address,
/// the data byte, and the lines VDA, VPA and direction. An absent address
/// or byte counts as zero.
pub open spec fn cycle_matches(bus: Bus, want: (Option<u32>, Option<u8>, String)) -> bool {
    &&& bank_of(or_zero32(want.0)) == bus.bank
    &&& offset_of(or_zero32(want.0)) == bus.addr
    &&& or_zero8(want.1) == bus.data
    &&& spec_annotation(want.2@).vda == bus.vda()
    &&& spec_annotation(want.2@).vpa == bus.vpa()
    &&& spec_annotation(want.2@).rw == bus.rw()
}

/// Whether the memory holds every byte of the image.
pub open spec fn image_holds(image: Seq<(u32, u8)>, ram: Seq<u8>) -> bool {
    forall|i: int| 0 <= i < image.len() ==> ram[(#[trigger] image[i]).0 as int] == image[i].1
}

impl Run {
    /// The run `n` clock cycles on.
    pub open spec fn ahead(self, n: nat) -> Run
        decreases n,
    {
        if n == 0 {
            self
        } else {
            self.stepped().ahead((n - 1) as nat)
        }
    }

    /// Whether cycle `j` of the test matches, counted from a run that
    /// stands before cycle `k`.
    pub open spec fn matches_at(self, test: &Test, k: nat, j: int) -> bool {
        cycle_matches(self.ahead((j - k + 1) as nat).bus, test.cycles@[j])
    }

    /// Whether the next clock cycle writes to the address `i`.
    pub open spec fn writes_to(self, i: int) -> bool {
        !self.stepped().bus.rw() && self.stepped().bus.linear_address() == i
    }

    /// Whether clock cycle `j` from here, counted from 0, writes to `i`.
    pub open spec fn writes_at(self, j: int, i: int) -> bool {
        self.ahead(j as nat).writes_to(i)
    }
}

/// The bus differs in nothing from an expected cycle exactly when it
/// matches it.
pub proof fn lemma_bus_mismatches_none(bus: Bus, want: (Option<u32>, Option<u8>, String))
    ensures
        (bus_mismatches(bus, or_zero32(want.0), or_zero8(want.1), want.2@).len() == 0) == cycle_matches(
            bus,
            want,
        ),
{
}

/// The registers differ in nothing from the expected ones exactly when
/// they are equal to them.
pub proof fn lemma_register_mismatches_none(want: Core, have: Core)
    ensures
        (register_mismatches(want, have).len() == 0) == (want == have),
{
}

/// The memory differs in nothing from the first `n` entries of an image
/// exactly when it holds them.
pub proof fn lemma_ram_mismatches_none(image: Seq<(u32, u8)>, ram: Seq<u8>, n: nat)
    requires
        n <= image.len(),
    ensures
        (ram_mismatches(image, ram, n).len() == 0) == (forall|i: int|
            0 <= i < n ==> ram[(#[trigger] image[i]).0 as int] == image[i].1),
    decreases n,
{
    if n > 0 {
        lemma_ram_mismatches_none(image, ram, (n - 1) as nat);
        let before = ram_mismatches(image, ram, (n - 1) as nat);
        let last = image[n - 1];
        if before.len() == 0 && ram[last.0 as int] == last.1 {
            assert forall|i: int| 0 <= i < n implies ram[(#[trigger] image[i]).0 as int] == image[i].1 by {
                if i == n - 1 {
                } else {
                }
            }
        } else if before.len() != 0 {
            assert(ram_mismatches(image, ram, n).len() >= before.len());
        } else {
            assert(ram[(image[n - 1]).0 as int] != image[n - 1].1);
        }
    }
}

/// The comparisons at the end pass exactly when the registers, once the
/// last cycle has completed, are those of the expected snapshot and the
/// memory holds its image.
pub proof fn lemma_judged_passes(run: Run, test: &Test)
    ensures
        (run.judged(test).outcome == Outcome::Pass) == ({
            &&& run.machine.tick(run.bus.inputs()).core == test.end.registers()
            &&& image_holds(test.end.ram@, run.ram)
        }),
        run.judged(test).memory == run.ram,
        run.judged(test).cycle == test.cycles@.len(),
        run.judged(test).outcome != Outcome::Cycle,
{
    reveal(Run::judged);
    lemma_register_mismatches_none(test.end.registers(), run.machine.tick(run.bus.inputs()).core);
    lemma_ram_mismatches_none(test.end.ram@, run.ram, test.end.ram@.len());
}

/// A test passes from its cycle `k` on exactly when every cycle from `k`
/// on matches and the comparisons at the end pass.
#[verifier::rlimit(50)]
pub proof fn lemma_outcome_passes(run: Run, test: &Test, k: nat)
    requires
        k <= test.cycles@.len(),
    ensures
        (run.outcome(test, k).outcome == Outcome::Pass) == ({
            &&& forall|j: int| k <= j < test.cycles@.len() ==> #[trigger] run.matches_at(test, k, j)
            &&& run.ahead((test.cycles@.len() - k) as nat).judged(test).outcome == Outcome::Pass
        }),
    decreases test.cycles@.len() - k,
{
    let n = test.cycles@.len();
    if k < n {
        let next = run.stepped();
        lemma_bus_mismatches_none(next.bus, test.cycles@[k as int]);
        assert(run.ahead(1) == next.ahead(0));
        assert(next.ahead(0) == next);
        assert(run.matches_at(test, k, k as int) == cycle_matches(next.bus, test.cycles@[k as int]));
        lemma_outcome_passes(next, test, k + 1);
        assert(run.ahead((n - k) as nat) == next.ahead((n - k - 1) as nat));
        assert forall|j: int| k + 1 <= j < n implies run.matches_at(test, k, j) == next.matches_at(
            test,
            k + 1,
            j,
        ) by {
            assert(run.ahead((j - k + 1) as nat) == next.ahead((j - k) as nat));
        }
        let here = cycle_matches(next.bus, test.cycles@[k as int]);
        let rest = forall|j: int| k + 1 <= j < n ==> #[trigger] next.matches_at(test, k + 1, j);
        let all = forall|j: int| k <= j < n ==> #[trigger] run.matches_at(test, k, j);
        if all {
            assert(run.matches_at(test, k, k as int));
            assert forall|j: int| k + 1 <= j < n implies #[trigger] next.matches_at(test, k + 1, j) by {
                assert(run.matches_at(test, k, j));
            }
        }
        if here && rest {
            assert forall|j: int| k <= j < n implies #[trigger] run.matches_at(test, k, j) by {
                if j > k {
                    assert(next.matches_at(test, k + 1, j));
                }
            }
        }
        assert(all == (here && rest));
    } else {
        assert(run.ahead(0) == run);
    }
}

/// What it takes to pass: a test passes exactly when the bus matches
/// every expected cycle in its turn, the registers after the last cycle
/// are those of the expected snapshot, and the memory then holds the
/// expected image. Cycle `k` is compared after `k + 1` clock cycles.
pub proof fn lemma_test_passes(test: &Test, ram: Seq<u8>)
    ensures
        ({
            let start = Run {
                machine: Machine::power_on(test.start.registers()),
                bus: Bus { addr: 0, bank: 0, data: 0, flags: 20 },
                ram: patched(ram, test.start.ram@, test.start.ram@.len()),
            };
            let end = start.ahead(test.cycles@.len());
            (test.findings(ram).outcome == Outcome::Pass) == ({
                &&& forall|k: int|
                    0 <= k < test.cycles@.len() ==> cycle_matches(
                        (#[trigger] start.ahead((k + 1) as nat)).bus,
                        test.cycles@[k],
                    )
                &&& end.machine.tick(end.bus.inputs()).core == test.end.registers()
                &&& image_holds(test.end.ram@, end.ram)
            })
        }),
{
    let start = Run {
        machine: Machine::power_on(test.start.registers()),
        bus: Bus { addr: 0, bank: 0, data: 0, flags: 20 },
        ram: patched(ram, test.start.ram@, test.start.ram@.len()),
    };
    let n = test.cycles@.len();
    lemma_outcome_passes(start, test, 0);
    lemma_judged_passes(start.ahead(n), test);
    let by_cycle = forall|k: int|
        0 <= k < n ==> cycle_matches((#[trigger] start.ahead((k + 1) as nat)).bus, test.cycles@[k]);
    let by_match = forall|j: int| 0 <= j < n ==> #[trigger] start.matches_at(test, 0, j);
    if by_cycle {
        assert forall|j: int| 0 <= j < n implies #[trigger] start.matches_at(test, 0, j) by {
            assert(cycle_matches(start.ahead((j + 1) as nat).bus, test.cycles@[j]));
        }
    }
    if by_match {
        assert forall|k: int| 0 <= k < n implies cycle_matches(
            (#[trigger] start.ahead((k + 1) as nat)).bus,
            test.cycles@[k],
        ) by {
            assert(start.matches_at(test, 0, k));
        }
    }
    assert(by_cycle == by_match);
}

/// One clock cycle changes the memory by at most one byte: a read leaves
/// it, a write stores the data byte at the address on the bus.
pub proof fn lemma_step_memory(run: Run)
    requires
        run.ram.len() >= RAM_SIZE,
    ensures
        run.stepped().ram.len() == run.ram.len(),
        run.stepped().bus.rw() ==> run.stepped().ram == run.ram,
        !run.stepped().bus.rw() ==> run.stepped().ram == run.ram.update(
            run.stepped().bus.linear_address() as int,
            run.stepped().bus.data,
        ),
        forall|i: int| 0 <= i < run.ram.len() && !run.writes_to(i) ==> run.stepped().ram[i] == run.ram[i],
{
    reveal(Run::stepped);
    let bus = run.bus.drive(run.machine.tick(run.bus.inputs()).req);
    lemma_linear_parts(bus.bank, bus.addr);
}

/// A byte that no clock cycle writes to stays as it is: after `n` cycles
/// the memory differs from what it was only where a cycle has written.
pub proof fn lemma_unwritten_memory_stays(run: Run, n: nat, i: int)
    requires
        run.ram.len() >= RAM_SIZE,
        0 <= i < run.ram.len(),
        forall|j: int| 0 <= j < n ==> !#[trigger] run.writes_at(j, i),
    ensures
        run.ahead(n).ram.len() == run.ram.len(),
        run.ahead(n).ram[i] == run.ram[i],
    decreases n,
{
    if n > 0 {
        let next = run.stepped();
        lemma_step_memory(run);
        assert(run.ahead(0) == run);
        assert(!run.writes_at(0, i));
        assert forall|j: int| 0 <= j < n - 1 implies !#[trigger] next.writes_at(j, i) by {
            assert(run.ahead((j + 1) as nat) == next.ahead(j as nat));
            assert(!run.writes_at(j + 1, i));
        }
        lemma_unwritten_memory_stays(next, (n - 1) as nat, i);
    }
}

/// The memory that a test leaves: that after as many clock cycles as were
/// compared, one more than the index of the cycle that failed, or all of
/// them.
#[verifier::rlimit(50)]
pub proof fn lemma_outcome_memory(run: Run, test: &Test, k: nat)
    requires
        k <= test.cycles@.len(),
    ensures
        ({
            let found = run.outcome(test, k);
            &&& k <= found.cycle <= test.cycles@.len()
            &&& found.outcome == Outcome::Cycle ==> found.cycle < test.cycles@.len() && found.memory == run.ahead(
                (found.cycle - k + 1) as nat,
            ).ram
            &&& found.outcome != Outcome::Cycle ==> found.cycle == test.cycles@.len() && found.memory
                == run.ahead((test.cycles@.len() - k) as nat).ram
        }),
    decreases test.cycles@.len() - k,
{
    let n = test.cycles@.len();
    if k < n {
        let next = run.stepped();
        let here = bus_mismatches(
            next.bus,
            or_zero32(test.cycles@[k as int].0),
            or_zero8(test.cycles@[k as int].1),
            test.cycles@[k as int].2@,
        );
        assert(next.ahead(0) == next);
        assert(run.ahead(1) == next.ahead(0));
        if here.len() > 0 {
            assert(run.outcome(test, k).outcome == Outcome::Cycle);
            assert(run.outcome(test, k).cycle == k);
            assert(run.outcome(test, k).memory == next.ram);
        } else {
            lemma_outcome_memory(next, test, k + 1);
            let found = next.outcome(test, k + 1);
            assert(run.outcome(test, k) == found);
            if found.outcome == Outcome::Cycle {
                let m = (found.cycle - k) as nat;
                assert(run.ahead(m + 1) == next.ahead(m));
            } else {
                let m = (n - k - 1) as nat;
                assert(run.ahead(m + 1) == next.ahead(m));
            }
        }
    } else {
        assert(run.ahead(0) == run);
        lemma_judged_passes(run, test);
    }
}

/// The run `n + 1` clock cycles on is the run `n` cycles on, stepped.
pub proof fn lemma_ahead_last(run: Run, n: nat)
    ensures
        run.ahead(n + 1) == run.ahead(n).stepped(),
    decreases n,
{
    if n > 0 {
        lemma_ahead_last(run.stepped(), (n - 1) as nat);
        assert(run.ahead(n) == run.stepped().ahead((n - 1) as nat));
        assert(run.ahead(n + 1) == run.stepped().ahead(n));
    } else {
        assert(run.ahead(0) == run);
        assert(run.stepped().ahead(0) == run.stepped());
        assert(run.ahead(1) == run.stepped().ahead(0));
    }
}

/// Writing an image that fits the memory keeps the size of the memory.
pub proof fn lemma_patched_len(ram: Seq<u8>, image: Seq<(u32, u8)>, n: nat)
    requires
        fits(image, ram.len()),
        n <= image.len(),
    ensures
        patched(ram, image, n).len() == ram.len(),
    decreases n,
{
    if n > 0 {
        lemma_patched_len(ram, image, (n - 1) as nat);
        assert(image[n - 1].0 < ram.len());
    }
}

/// The memory that a test leaves is that after as many clock cycles as
/// were compared: one more than the index of the cycle that failed, or
/// all of them.
pub proof fn lemma_test_memory(test: &Test, ram: Seq<u8>)
    ensures
        ({
            let start = Run {
                machine: Machine::power_on(test.start.registers()),
                bus: Bus { addr: 0, bank: 0, data: 0, flags: 20 },
                ram: patched(ram, test.start.ram@, test.start.ram@.len()),
            };
            let found = test.findings(ram);
            &&& 0 <= found.cycle <= test.cycles@.len()
            &&& found.outcome == Outcome::Cycle ==> found.cycle < test.cycles@.len() && found.memory == start.ahead(
                (found.cycle + 1) as nat,
            ).ram
            &&& found.outcome != Outcome::Cycle ==> found.cycle == test.cycles@.len() && found.memory
                == start.ahead(test.cycles@.len()).ram
        }),
{
    let start = Run {
        machine: Machine::power_on(test.start.registers()),
        bus: Bus { addr: 0, bank: 0, data: 0, flags: 20 },
        ram: patched(ram, test.start.ram@, test.start.ram@.len()),
    };
    lemma_outcome_memory(start, test, 0);
}

impl Run {
    /// Whether clock cycle `j` from here, counted from 0, is a read.
    pub open spec fn reads_at(self, j: int) -> bool {
        self.ahead((j + 1) as nat).bus.rw()
    }
}

/// Clock cycles keep the size of the memory.
pub proof fn lemma_ahead_len(run: Run, n: nat)
    requires
        run.ram.len() >= RAM_SIZE,
    ensures
        run.ahead(n).ram.len() == run.ram.len(),
    decreases n,
{
    if n > 0 {
        lemma_step_memory(run);
        lemma_ahead_len(run.stepped(), (n - 1) as nat);
    }
}

/// Clock cycles that all read leave the memory as it is.
pub proof fn lemma_reads_keep_memory(run: Run, n: nat)
    requires
        run.ram.len() >= RAM_SIZE,
        forall|j: int| 0 <= j < n ==> #[trigger] run.reads_at(j),
    ensures
        run.ahead(n).ram == run.ram,
{
    assert forall|i: int| 0 <= i < run.ram.len() implies run.ahead(n).ram[i] == run.ram[i] by {
        assert forall|j: int| 0 <= j < n implies !#[trigger] run.writes_at(j, i) by {
            lemma_ahead_last(run, j as nat);
            assert(run.reads_at(j));
        }
        lemma_unwritten_memory_stays(run, n, i);
    }
    lemma_ahead_len(run, n);
    assert(run.ahead(n).ram =~= run.ram);
}

/// A test that passes and whose cycles are all reads leaves the memory as
/// it was prepared: no byte is written.
#[verifier::rlimit(50)]
pub proof fn lemma_reads_leave_memory(test: &Test, ram: Seq<u8>)
    requires
        ram.len() >= RAM_SIZE,
        fits(test.start.ram@, ram.len()),
        test.findings(ram).outcome == Outcome::Pass,
        forall|k: int| 0 <= k < test.cycles@.len() ==> spec_annotation((#[trigger] test.cycles@[k]).2@).rw,
    ensures
        test.findings(ram).memory == patched(ram, test.start.ram@, test.start.ram@.len()),
{
    let start = Run {
        machine: Machine::power_on(test.start.registers()),
        bus: Bus { addr: 0, bank: 0, data: 0, flags: 20 },
        ram: patched(ram, test.start.ram@, test.start.ram@.len()),
    };
    let n = test.cycles@.len();
    lemma_patched_len(ram, test.start.ram@, test.start.ram@.len());
    lemma_test_passes(test, ram);
    lemma_test_memory(test, ram);
    assert(test.findings(ram).memory == start.ahead(n).ram);
    assert forall|j: int| 0 <= j < n implies #[trigger] start.reads_at(j) by {
        let after = start.ahead((j + 1) as nat);
        assert(cycle_matches(after.bus, test.cycles@[j]));
        assert(spec_annotation(test.cycles@[j].2@).rw);
    }
    lemma_reads_keep_memory(start, n);
}

} // verus!
