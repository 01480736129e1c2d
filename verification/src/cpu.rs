//! The processor as its users see it: registers in, one bus cycle per call.

use crate::bus::{Bus, Pins, Request};
use crate::laws::lemma_tick_keeps_valid;
use crate::machine::Machine;
use crate::registers::Core;
use vstd::prelude::*;

verus! {

/// A 65816 stepped one clock cycle at a time.
///
/// Its state is a [`Machine`] whose registers are always valid: in
/// emulation mode the stack lies in page 1, and index registers of 8 bits
/// have a zero high byte. The status byte is held as it was given or last
/// written; in emulation mode the widths are 8 bits whatever it says.
pub struct Cpu65816 {
    machine: Machine,
}

impl View for Cpu65816 {
    type V = Machine;

    closed spec fn view(&self) -> Machine {
        self.machine
    }
}

impl Cpu65816 {
    #[verifier::type_invariant]
    spec fn registers_valid(self) -> bool {
        self.machine.core.valid()
    }

    /// A processor at power-on with the given registers. The status byte
    /// and every register but S, X and Y are taken as given; S, X and Y are
    /// held to the mode and the index width (see [`Core::spec_normalized`]),
    /// which changes nothing in valid registers. Nothing has been put on
    /// the bus yet.
    pub fn new(core: Core) -> (cpu: Cpu65816)
        ensures
            cpu@ == Machine::power_on(core),
            cpu@.core == core.normalized(),
            cpu@.core.p == core.p,
            cpu@.core == (Core { s: cpu@.core.s, x: cpu@.core.x, y: cpu@.core.y, ..core }),
            core.valid() ==> cpu@.core == core,
    {
        proof {
            core.lemma_normalized();
        }
        Cpu65816 { machine: Machine::power_on(core) }
    }

    /// The registers as they stand.
    pub fn registers(&self) -> (r: Core)
        ensures
            r == self@.core,
            r.valid(),
    {
        proof {
            use_type_invariant(self);
        }
        self.machine.core
    }

    /// The request that the processor has on the bus.
    pub fn request(&self) -> (req: Request)
        ensures
            req == self@.req,
    {
        self.machine.req
    }

    /// One clock cycle.
    ///
    /// The processor reads from `bus` what the cycle before has brought:
    /// the data byte and the lines `RDY`, `RES`, `IRQ` and `NMI`. It takes
    /// the step [`Machine::spec_tick`] and drives its next request onto
    /// `bus`. The caller then carries the request out: on a read it puts
    /// the byte on `bus.data`, on a write it stores `bus.data`.
    ///
    /// With `RDY` deasserted the processor does not move: the same request
    /// is driven again and no register changes.
    pub fn cycle(&mut self, bus: &mut Bus)
        ensures
            final(self)@ == old(self)@.tick(old(bus).inputs()),
            *final(bus) == old(bus).drive(final(self)@.req),
            final(bus)@ == (Pins {
                addr: final(self)@.req.addr,
                bank: final(self)@.req.bank,
                data: if final(self)@.req.rw { old(bus)@.data } else { final(self)@.req.data },
                rw: final(self)@.req.rw,
                vda: final(self)@.req.vda,
                vpa: final(self)@.req.vpa,
                vp: final(self)@.req.vp,
                ml: final(self)@.req.ml,
                ..old(bus)@
            }),
            !old(bus)@.rdy ==> final(self)@ == old(self)@,
            final(self)@.core.valid(),
    {
        proof {
            use_type_invariant(&*self);
            lemma_tick_keeps_valid(self.machine, bus.inputs());
        }
        let next = self.machine.tick(bus.inputs());
        proof {
            bus.lemma_drive(next.req);
        }
        self.machine = next;
        *bus = bus.drive(next.req);
    }
}

} // verus!
