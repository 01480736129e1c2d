//! The signals that the processor and the memory system exchange each cycle.

use crate::word::linear;
use vstd::prelude::*;

verus! {

/// The bus read as named values.
pub struct Pins {
    pub addr: u16,
    pub bank: u8,
    pub data: u8,
    pub irq: bool,
    pub nmi: bool,
    pub rdy: bool,
    pub res: bool,
    pub rw: bool,
    pub vda: bool,
    pub vpa: bool,
    pub vp: bool,
    pub ml: bool,
}

/// What the processor asks of the memory system in one cycle.
///
/// `rw` is true for a read. `vda` and `vpa` together tell the kind of cycle:
/// both for an opcode fetch, `vpa` alone for an operand fetch, `vda` alone
/// for a data access, neither for an internal cycle. `vp` marks a vector
/// pull and `ml` a cycle of a read-modify-write sequence.
#[derive(Copy, Clone, Debug, PartialEq, Eq, Structural)]
pub struct Request {
    pub bank: u8,
    pub addr: u16,
    pub data: u8,
    pub rw: bool,
    pub vda: bool,
    pub vpa: bool,
    pub vp: bool,
    pub ml: bool,
}

/// What the memory system and the outside world answer.
#[derive(Copy, Clone, Debug, PartialEq, Eq, Structural)]
pub struct Inputs {
    pub data: u8,
    pub rdy: bool,
    pub res: bool,
    pub irq: bool,
    pub nmi: bool,
}

/// The bus: a 24-bit address as bank and offset, a data byte, and the
/// control lines packed into `flags`.
#[derive(Copy, Clone, Debug, PartialEq, Eq, Structural)]
pub struct Bus {
    pub addr: u16,
    pub bank: u8,
    pub data: u8,
    pub flags: u16,
}

impl View for Bus {
    type V = Pins;

    open spec fn view(&self) -> Pins {
        Pins {
            addr: self.addr,
            bank: self.bank,
            data: self.data,
            irq: self.spec_has(Bus::IRQ),
            nmi: self.spec_has(Bus::NMI),
            rdy: self.spec_has(Bus::RDY),
            res: self.spec_has(Bus::RES),
            rw: self.spec_has(Bus::RW),
            vda: self.spec_has(Bus::VDA),
            vpa: self.spec_has(Bus::VPA),
            vp: self.spec_has(Bus::VP),
            ml: self.spec_has(Bus::ML),
        }
    }
}

/// Whether `mask` is the mask of one of the nine control lines.
pub open spec fn is_line(mask: u16) -> bool {
    mask == 1 || mask == 2 || mask == 4 || mask == 8 || mask == 16 || mask == 32 || mask == 64
        || mask == 128 || mask == 256
}

proof fn lemma_line_bits(v: u16, m: u16, k: u16, to: bool)
    by (bit_vector)
    requires
        m == 1 || m == 2 || m == 4 || m == 8 || m == 16 || m == 32 || m == 64 || m == 128 || m
            == 256,
        k == 1 || k == 2 || k == 4 || k == 8 || k == 16 || k == 32 || k == 64 || k == 128 || k
            == 256,
    ensures
        (((v & !m) | (if to { m } else { 0u16 })) & k != 0) == (if k == m { to } else { v & k != 0 }),
{
}

impl Bus {
    pub const IRQ: u16 = 1;
    pub const NMI: u16 = 2;
    pub const RDY: u16 = 4;
    pub const RES: u16 = 8;
    pub const RW: u16 = 16;
    pub const VDA: u16 = 32;
    pub const VPA: u16 = 64;
    pub const VP: u16 = 128;
    pub const ML: u16 = 256;

    /// Whether the line of `mask` is asserted.
    pub open spec fn spec_has(self, mask: u16) -> bool {
        self.flags & mask != 0
    }

    /// Computes [`Self::spec_has`].
    #[verifier::when_used_as_spec(spec_has)]
    pub fn has(self, mask: u16) -> (r: bool)
        ensures
            r == self.spec_has(mask),
    {
        self.flags & mask != 0
    }

    /// The bus with the line of `mask` set to `to`.
    pub open spec fn spec_put(self, mask: u16, to: bool) -> Bus {
        Bus { flags: (self.flags & !mask) | (if to { mask } else { 0 }), ..self }
    }

    /// Computes [`Self::spec_put`].
    #[verifier::when_used_as_spec(spec_put)]
    pub fn put(self, mask: u16, to: bool) -> (r: Bus)
        ensures
            r == self.spec_put(mask, to),
    {
        Bus { flags: (self.flags & !mask) | (if to { mask } else { 0 }), ..self }
    }

    /// Interrupt request.
    pub open spec fn spec_irq(self) -> bool {
        self.has(Bus::IRQ)
    }

    /// Computes [`Self::spec_irq`].
    #[verifier::when_used_as_spec(spec_irq)]
    pub fn irq(self) -> (r: bool)
        ensures
            r == self.spec_irq(),
    {
        self.has(Bus::IRQ)
    }

    /// Non-maskable interrupt.
    pub open spec fn spec_nmi(self) -> bool {
        self.has(Bus::NMI)
    }

    /// Computes [`Self::spec_nmi`].
    #[verifier::when_used_as_spec(spec_nmi)]
    pub fn nmi(self) -> (r: bool)
        ensures
            r == self.spec_nmi(),
    {
        self.has(Bus::NMI)
    }

    /// Memory ready: deasserted, it holds the cycle open.
    pub open spec fn spec_rdy(self) -> bool {
        self.has(Bus::RDY)
    }

    /// Computes [`Self::spec_rdy`].
    #[verifier::when_used_as_spec(spec_rdy)]
    pub fn rdy(self) -> (r: bool)
        ensures
            r == self.spec_rdy(),
    {
        self.has(Bus::RDY)
    }

    /// Reset.
    pub open spec fn spec_res(self) -> bool {
        self.has(Bus::RES)
    }

    /// Computes [`Self::spec_res`].
    #[verifier::when_used_as_spec(spec_res)]
    pub fn res(self) -> (r: bool)
        ensures
            r == self.spec_res(),
    {
        self.has(Bus::RES)
    }

    /// Direction: true for a read.
    pub open spec fn spec_rw(self) -> bool {
        self.has(Bus::RW)
    }

    /// Computes [`Self::spec_rw`].
    #[verifier::when_used_as_spec(spec_rw)]
    pub fn rw(self) -> (r: bool)
        ensures
            r == self.spec_rw(),
    {
        self.has(Bus::RW)
    }

    /// Valid data address.
    pub open spec fn spec_vda(self) -> bool {
        self.has(Bus::VDA)
    }

    /// Computes [`Self::spec_vda`].
    #[verifier::when_used_as_spec(spec_vda)]
    pub fn vda(self) -> (r: bool)
        ensures
            r == self.spec_vda(),
    {
        self.has(Bus::VDA)
    }

    /// Valid program address.
    pub open spec fn spec_vpa(self) -> bool {
        self.has(Bus::VPA)
    }

    /// Computes [`Self::spec_vpa`].
    #[verifier::when_used_as_spec(spec_vpa)]
    pub fn vpa(self) -> (r: bool)
        ensures
            r == self.spec_vpa(),
    {
        self.has(Bus::VPA)
    }

    /// Vector pull.
    pub open spec fn spec_vp(self) -> bool {
        self.has(Bus::VP)
    }

    /// Computes [`Self::spec_vp`].
    #[verifier::when_used_as_spec(spec_vp)]
    pub fn vp(self) -> (r: bool)
        ensures
            r == self.spec_vp(),
    {
        self.has(Bus::VP)
    }

    /// Memory lock.
    pub open spec fn spec_ml(self) -> bool {
        self.has(Bus::ML)
    }

    /// Computes [`Self::spec_ml`].
    #[verifier::when_used_as_spec(spec_ml)]
    pub fn ml(self) -> (r: bool)
        ensures
            r == self.spec_ml(),
    {
        self.has(Bus::ML)
    }

    pub fn set_irq(&mut self, to: bool)
        ensures
            *final(self) == old(self).put(Bus::IRQ, to),
            final(self)@ == (Pins { irq: to, ..old(self)@ }),
    {
        broadcast use Bus::lemma_put_has;

        *self = self.put(Bus::IRQ, to);
    }

    pub fn set_nmi(&mut self, to: bool)
        ensures
            *final(self) == old(self).put(Bus::NMI, to),
            final(self)@ == (Pins { nmi: to, ..old(self)@ }),
    {
        broadcast use Bus::lemma_put_has;

        *self = self.put(Bus::NMI, to);
    }

    pub fn set_rdy(&mut self, to: bool)
        ensures
            *final(self) == old(self).put(Bus::RDY, to),
            final(self)@ == (Pins { rdy: to, ..old(self)@ }),
    {
        broadcast use Bus::lemma_put_has;

        *self = self.put(Bus::RDY, to);
    }

    pub fn set_res(&mut self, to: bool)
        ensures
            *final(self) == old(self).put(Bus::RES, to),
            final(self)@ == (Pins { res: to, ..old(self)@ }),
    {
        broadcast use Bus::lemma_put_has;

        *self = self.put(Bus::RES, to);
    }

    pub fn set_rw(&mut self, to: bool)
        ensures
            *final(self) == old(self).put(Bus::RW, to),
            final(self)@ == (Pins { rw: to, ..old(self)@ }),
    {
        broadcast use Bus::lemma_put_has;

        *self = self.put(Bus::RW, to);
    }

    pub fn set_vda(&mut self, to: bool)
        ensures
            *final(self) == old(self).put(Bus::VDA, to),
            final(self)@ == (Pins { vda: to, ..old(self)@ }),
    {
        broadcast use Bus::lemma_put_has;

        *self = self.put(Bus::VDA, to);
    }

    pub fn set_vpa(&mut self, to: bool)
        ensures
            *final(self) == old(self).put(Bus::VPA, to),
            final(self)@ == (Pins { vpa: to, ..old(self)@ }),
    {
        broadcast use Bus::lemma_put_has;

        *self = self.put(Bus::VPA, to);
    }

    pub fn set_vp(&mut self, to: bool)
        ensures
            *final(self) == old(self).put(Bus::VP, to),
            final(self)@ == (Pins { vp: to, ..old(self)@ }),
    {
        broadcast use Bus::lemma_put_has;

        *self = self.put(Bus::VP, to);
    }

    pub fn set_ml(&mut self, to: bool)
        ensures
            *final(self) == old(self).put(Bus::ML, to),
            final(self)@ == (Pins { ml: to, ..old(self)@ }),
    {
        broadcast use Bus::lemma_put_has;

        *self = self.put(Bus::ML, to);
    }

    /// A quiet bus: address and data zero, memory ready, direction read,
    /// no other line asserted.
    pub fn new() -> (r: Bus)
        ensures
            r == (Bus { addr: 0, bank: 0, data: 0, flags: 20 }),
            r@ == (Pins {
                addr: 0,
                bank: 0,
                data: 0,
                irq: false,
                nmi: false,
                rdy: true,
                res: false,
                rw: true,
                vda: false,
                vpa: false,
                vp: false,
                ml: false,
            }),
    {
        broadcast use Bus::lemma_put_has;

        let zero = Bus { addr: 0, bank: 0, data: 0, flags: 0 };
        assert(0u16 & 1 == 0 && 0u16 & 2 == 0 && 0u16 & 4 == 0 && 0u16 & 8 == 0 && 0u16 & 16 == 0
            && 0u16 & 32 == 0 && 0u16 & 64 == 0 && 0u16 & 128 == 0 && 0u16 & 256 == 0
            && (((0u16 & !4u16) | 4u16) & !16u16) | 16u16 == 20) by (bit_vector);
        zero.put(Bus::RDY, true).put(Bus::RW, true)
    }

    /// The 24-bit address on the bus: `bank * 65536 + addr`.
    pub open spec fn spec_linear_address(self) -> u32 {
        linear(self.bank, self.addr)
    }

    /// Computes [`Self::spec_linear_address`].
    #[verifier::when_used_as_spec(spec_linear_address)]
    pub fn linear_address(self) -> (r: u32)
        ensures
            r == self.spec_linear_address(),
    {
        linear(self.bank, self.addr)
    }

    /// What the processor reads off the bus at the start of a cycle.
    pub open spec fn spec_inputs(self) -> Inputs {
        Inputs { data: self.data, rdy: self.rdy(), res: self.res(), irq: self.irq(), nmi: self.nmi() }
    }

    /// Computes [`Self::spec_inputs`].
    #[verifier::when_used_as_spec(spec_inputs)]
    pub fn inputs(self) -> (r: Inputs)
        ensures
            r == self.spec_inputs(),
    {
        Inputs { data: self.data, rdy: self.rdy(), res: self.res(), irq: self.irq(), nmi: self.nmi() }
    }

    /// The bus after the processor has driven `req` onto it: address and
    /// the five lines that the processor owns are those of `req`; the data
    /// byte is that of `req` on a write and stays on a read; `RDY`, `RES`,
    /// `IRQ` and `NMI` stay.
    pub open spec fn spec_drive(self, req: Request) -> Bus {
        Bus {
            addr: req.addr,
            bank: req.bank,
            data: if req.rw { self.data } else { req.data },
            flags: self.flags,
        }.put(Bus::RW, req.rw).put(Bus::VDA, req.vda).put(Bus::VPA, req.vpa).put(Bus::VP, req.vp).put(
            Bus::ML,
            req.ml,
        )
    }

    /// Computes [`Self::spec_drive`].
    #[verifier::when_used_as_spec(spec_drive)]
    pub fn drive(self, req: Request) -> (r: Bus)
        ensures
            r == self.spec_drive(req),
    {
        Bus {
            addr: req.addr,
            bank: req.bank,
            data: if req.rw { self.data } else { req.data },
            flags: self.flags,
        }.put(Bus::RW, req.rw).put(Bus::VDA, req.vda).put(Bus::VPA, req.vpa).put(Bus::VP, req.vp).put(
            Bus::ML,
            req.ml,
        )
    }

    /// Writing one line changes that line and no other.
    pub broadcast proof fn lemma_put_has(self, mask: u16, to: bool, k: u16)
        requires
            is_line(mask),
            is_line(k),
        ensures
            #[trigger] self.spec_put(mask, to).spec_has(k) == (if k == mask {
                to
            } else {
                self.spec_has(k)
            }),
    {
        lemma_line_bits(self.flags, mask, k, to);
    }

    /// What a driven bus shows.
    pub proof fn lemma_drive(self, req: Request)
        ensures
            self.drive(req)@ == (Pins {
                addr: req.addr,
                bank: req.bank,
                data: if req.rw { self.data } else { req.data },
                rw: req.rw,
                vda: req.vda,
                vpa: req.vpa,
                vp: req.vp,
                ml: req.ml,
                ..self@
            }),
    {
        broadcast use Bus::lemma_put_has;

    }
}

} // verus!
