//! Instruction set definitions and the decoder.
//!
//! Decoding is a total function: any 32-bit word yields a well-formed
//! descriptor, and unrecognized class bit patterns fall back to the
//! System class. Field positions (bit 31 most significant): condition in
//! bits 31..28, class in bits 27..25, opcode in bits 24..21, flag-update
//! in bit 20, source-A register in bits 19..16, destination register in
//! bits 15..12, immediate in bits 11..0, source-B register in bits 3..0.

use vstd::prelude::*;

verus! {

/// The sixteen condition codes an instruction can carry.
#[derive(Debug, Copy, Clone, Eq, PartialEq, Structural)]
pub enum Condition {
    /// Z == 1
    EQ,
    /// Z == 0
    NE,
    /// C == 1
    CS,
    /// C == 0
    CC,
    /// N == 1
    MI,
    /// N == 0
    PL,
    /// V == 1
    VS,
    /// V == 0
    VC,
    /// C == 1 && Z == 0
    HI,
    /// C == 0 || Z == 1
    LS,
    /// N == V
    GE,
    /// N != V
    LT,
    /// Z == 0 && N == V
    GT,
    /// Z == 1 || N != V
    LE,
    /// always
    AL,
    /// reserved / never
    NV,
}

impl Condition {
    /// The condition code selected by the low 4 bits of a value.
    pub open spec fn of_bits(bits: u8) -> Condition {
        let m = bits & 0xF;
        if m == 0x0 {
            Condition::EQ
        } else if m == 0x1 {
            Condition::NE
        } else if m == 0x2 {
            Condition::CS
        } else if m == 0x3 {
            Condition::CC
        } else if m == 0x4 {
            Condition::MI
        } else if m == 0x5 {
            Condition::PL
        } else if m == 0x6 {
            Condition::VS
        } else if m == 0x7 {
            Condition::VC
        } else if m == 0x8 {
            Condition::HI
        } else if m == 0x9 {
            Condition::LS
        } else if m == 0xA {
            Condition::GE
        } else if m == 0xB {
            Condition::LT
        } else if m == 0xC {
            Condition::GT
        } else if m == 0xD {
            Condition::LE
        } else if m == 0xE {
            Condition::AL
        } else {
            Condition::NV
        }
    }

    /// Selects the condition code named by the low 4 bits of a value.
    pub fn from_u8(bits: u8) -> (r: Self)
        ensures
            r == Condition::of_bits(bits),
    {
        let m = bits & 0xF;
        if m == 0x0 {
            Condition::EQ
        } else if m == 0x1 {
            Condition::NE
        } else if m == 0x2 {
            Condition::CS
        } else if m == 0x3 {
            Condition::CC
        } else if m == 0x4 {
            Condition::MI
        } else if m == 0x5 {
            Condition::PL
        } else if m == 0x6 {
            Condition::VS
        } else if m == 0x7 {
            Condition::VC
        } else if m == 0x8 {
            Condition::HI
        } else if m == 0x9 {
            Condition::LS
        } else if m == 0xA {
            Condition::GE
        } else if m == 0xB {
            Condition::LT
        } else if m == 0xC {
            Condition::GT
        } else if m == 0xD {
            Condition::LE
        } else if m == 0xE {
            Condition::AL
        } else {
            Condition::NV
        }
    }
}

/// The coarse instruction category, selecting an execution unit.
#[derive(Debug, Copy, Clone, Eq, PartialEq, Structural)]
pub enum Class {
    Alu,
    MulDiv,
    LoadStore,
    Branch,
    System,
}

impl Class {
    /// The class selected by a 3-bit pattern; unrecognized patterns fall
    /// back to the System class, so classification is total.
    pub open spec fn of_bits(bits: u8) -> Class {
        if bits == 0 {
            Class::Alu
        } else if bits == 1 {
            Class::MulDiv
        } else if bits == 2 {
            Class::LoadStore
        } else if bits == 3 {
            Class::Branch
        } else {
            Class::System
        }
    }
}

/// An immutable description of one fetched instruction word, produced
/// fresh per step and never retained.
#[derive(Debug, Copy, Clone)]
pub struct DecodedInstr {
    pub raw: u32,
    pub cond: Condition,
    pub class: Class,
    pub opcode: u8,
    pub rd: u8,
    pub rn: u8,
    pub rm: u8,
    pub imm12: u16,
    pub set_flags: bool,
}

impl DecodedInstr {
    /// The descriptor every 32-bit word decodes to; decoding never
    /// fails.
    pub open spec fn decoded(raw: u32) -> DecodedInstr {
        DecodedInstr {
            raw: raw,
            cond: Condition::of_bits(((raw >> 28) & 0xF) as u8),
            class: Class::of_bits(((raw >> 25) & 0x7) as u8),
            opcode: ((raw >> 21) & 0xF) as u8,
            rd: ((raw >> 12) & 0xF) as u8,
            rn: ((raw >> 16) & 0xF) as u8,
            rm: (raw & 0xF) as u8,
            imm12: (raw & 0xFFF) as u16,
            set_flags: (raw >> 20) & 1 == 1,
        }
    }

    /// Decodes one 32-bit word; total on every input.
    pub fn decode(raw: u32) -> (r: Self)
        ensures
            r == DecodedInstr::decoded(raw),
    {
        let cond = Condition::from_u8(((raw >> 28) & 0xF) as u8);
        let class_bits: u8 = ((raw >> 25) & 0x7) as u8;
        let class = if class_bits == 0 {
            Class::Alu
        } else if class_bits == 1 {
            Class::MulDiv
        } else if class_bits == 2 {
            Class::LoadStore
        } else if class_bits == 3 {
            Class::Branch
        } else {
            Class::System
        };
        DecodedInstr {
            raw: raw,
            cond: cond,
            class: class,
            opcode: ((raw >> 21) & 0xF) as u8,
            rd: ((raw >> 12) & 0xF) as u8,
            rn: ((raw >> 16) & 0xF) as u8,
            rm: (raw & 0xF) as u8,
            imm12: (raw & 0xFFF) as u16,
            set_flags: (raw >> 20) & 1 == 1,
        }
    }
}

} // verus!
