//! Instruction-execution core of a 32-bit processor emulator.
//!
//! The crate models a register file with a packed status word, an
//! instruction decoder, a condition evaluator, and the execution units
//! (ALU, branch, system/exception) that together perform one instruction
//! step against the processor state, plus the address-region map of the
//! surrounding machine.

pub mod cpu;
pub mod isa;
pub mod mapping;
pub mod register;
