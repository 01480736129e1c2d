//! A cycle-stepped model of the WDC 65816 microprocessor.
//!
//! The processor is driven one clock cycle at a time. Each call of
//! [`Cpu65816::cycle`] reads from the [`Bus`] what the cycle before has
//! brought, completes that cycle, and drives the request of the next one;
//! the caller owns the memory and carries the request out.
//!
//! - [`registers`] holds the register file and the status byte. The status
//!   byte is stored as given, also when a processor is made from a register
//!   snapshot; in emulation mode the widths in force are 8 bits whatever it
//!   says, and the stored width flags change only when an instruction
//!   writes them.
//! - [`bus`] holds the signals of one cycle.
//! - [`instruction`] says what each of the 256 opcode bytes stands for, and
//!   [`microcode`] which bus cycles each instruction is made of.
//! - [`alu`] and [`word`] hold the arithmetic, at 8 and at 16 bits.
//! - [`machine`] is the engine as a state machine, [`cpu`] its executable
//!   form, and [`laws`] what is proved of it.
//! - [`fixture`] runs single-step conformance tests against the engine.

pub mod alu;
pub mod bus;
pub mod cpu;
pub mod fixture;
pub mod instruction;
pub mod laws;
pub mod machine;
pub mod microcode;
pub mod registers;
pub mod word;

pub use bus::Bus;
pub use cpu::Cpu65816;
