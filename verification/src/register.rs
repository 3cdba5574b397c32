//! Register file and packed status word.
//!
//! The status word (PSR) holds seven independent boolean fields: the four
//! arithmetic flags N/Z/C/V, the interrupt masks I/F, and the privilege
//! bit P. Its canonical packed 32-bit encoding places N at bit 31, Z at
//! bit 30, C at bit 29, V at bit 28, I at bit 7, F at bit 6 and P at
//! bit 0; every other bit encodes as zero and is ignored on decode.
//!
//! The register file holds thirteen general-purpose registers (indices
//! 0 to 12), the stack pointer (13), the link register (14) and the
//! program counter (15). Writes to the program counter are aligned down
//! to a 4-byte boundary at the point of assignment; indices above 15
//! read as zero and write as a no-op.

use vstd::prelude::*;

verus! {

/// Packed status word: condition flags, interrupt masks, privilege bit.
#[derive(Debug, Clone, Copy, PartialEq, Eq, Structural)]
pub struct PSR {
    pub z: bool,
    pub n: bool,
    pub c: bool,
    pub v: bool,
    /// IRQ mask
    pub i: bool,
    /// FIQ mask
    pub f: bool,
    /// Privilege bit (true = privileged level)
    pub p: bool,
}

/// Masks a value down to a 4-byte boundary (clears its low 2 bits).
pub open spec fn align4(x: u32) -> u32 {
    x & 0xFFFF_FFFC
}

/// An aligned-down value is a multiple of 4, and alignment is the
/// identity on values that are already multiples of 4.
pub proof fn lemma_align4(x: u32)
    ensures
        align4(x) % 4 == 0,
        x % 4 == 0 ==> align4(x) == x,
        align4(x) <= x,
{
    assert((x & 0xFFFF_FFFC) % 4 == 0 && (x % 4 == 0 ==> (x & 0xFFFF_FFFC) == x) && (x
        & 0xFFFF_FFFC) <= x) by (bit_vector);
}

impl PSR {
    /// The status word with every field false.
    pub open spec fn all_clear() -> PSR {
        PSR { z: false, n: false, c: false, v: false, i: false, f: false, p: false }
    }

    /// The canonical packed 32-bit encoding of the status word.
    pub open spec fn encoding(self) -> u32 {
        (if self.n { 0x8000_0000u32 } else { 0u32 }) | (if self.z { 0x4000_0000u32 } else { 0u32 })
            | (if self.c { 0x2000_0000u32 } else { 0u32 }) | (if self.v { 0x1000_0000u32 } else { 0u32 })
            | (if self.i { 0x80u32 } else { 0u32 }) | (if self.f { 0x40u32 } else { 0u32 })
            | (if self.p { 1u32 } else { 0u32 })
    }

    /// The status word described by a packed 32-bit value; bits outside
    /// the seven documented positions are ignored.
    pub open spec fn decoded(raw: u32) -> PSR {
        PSR {
            n: (raw >> 31) & 1 == 1,
            z: (raw >> 30) & 1 == 1,
            c: (raw >> 29) & 1 == 1,
            v: (raw >> 28) & 1 == 1,
            i: (raw >> 7) & 1 == 1,
            f: (raw >> 6) & 1 == 1,
            p: raw & 1 == 1,
        }
    }

    /// The status word after an arithmetic result overwrites the four
    /// condition flags: Z from the result being zero, N from its sign
    /// bit, C and V as supplied; the masks and privilege bit keep their
    /// values.
    pub open spec fn with_zncv(self, result: u32, carry: bool, overflow: bool) -> PSR {
        PSR {
            z: result == 0,
            n: result >= 0x8000_0000,
            c: carry,
            v: overflow,
            i: self.i,
            f: self.f,
            p: self.p,
        }
    }

    /// Packs the status word into its canonical 32-bit form.
    pub fn to_u32(&self) -> (r: u32)
        ensures
            r == self.encoding(),
    {
        (if self.n { 0x8000_0000u32 } else { 0u32 }) | (if self.z { 0x4000_0000u32 } else { 0u32 })
            | (if self.c { 0x2000_0000u32 } else { 0u32 }) | (if self.v { 0x1000_0000u32 } else { 0u32 })
            | (if self.i { 0x80u32 } else { 0u32 }) | (if self.f { 0x40u32 } else { 0u32 })
            | (if self.p { 1u32 } else { 0u32 })
    }

    /// Unpacks a 32-bit value into a status word, ignoring the bits
    /// outside the seven documented positions.
    pub fn from_u32(raw: u32) -> (r: Self)
        ensures
            r == PSR::decoded(raw),
    {
        PSR {
            n: (raw >> 31) & 1 == 1,
            z: (raw >> 30) & 1 == 1,
            c: (raw >> 29) & 1 == 1,
            v: (raw >> 28) & 1 == 1,
            i: (raw >> 7) & 1 == 1,
            f: (raw >> 6) & 1 == 1,
            p: raw & 1 == 1,
        }
    }

    /// Overwrites the four condition flags from an arithmetic result,
    /// leaving the masks and the privilege bit unchanged.
    pub fn set_zncv_from_result(&mut self, result: u32, carry: bool, overflow: bool)
        ensures
            *final(self) == old(self).with_zncv(result, carry, overflow),
    {
        proof {
            assert(((result >> 31) & 1 == 1) == (result >= 0x8000_0000)) by (bit_vector);
        }
        self.z = result == 0;
        self.n = (result >> 31) & 1 == 1;
        self.c = carry;
        self.v = overflow;
    }
}

impl Default for PSR {
    /// The all-clear status word.
    fn default() -> (r: Self)
        ensures
            r == PSR::all_clear(),
    {
        PSR { z: false, n: false, c: false, v: false, i: false, f: false, p: false }
    }
}

/// The packed encoding decodes back to the exact status word it came
/// from: no information is lost for any boolean 7-tuple.
pub proof fn lemma_psr_round_trip(p: PSR)
    ensures
        PSR::decoded(p.encoding()) == p,
{
    let w = p.encoding();
    let bn = p.n;
    let bz = p.z;
    let bc = p.c;
    let bv = p.v;
    let bi = p.i;
    let bf = p.f;
    let bp = p.p;
    assert(((w >> 31) & 1 == 1) == bn && ((w >> 30) & 1 == 1) == bz && ((w >> 29) & 1 == 1) == bc
        && ((w >> 28) & 1 == 1) == bv && ((w >> 7) & 1 == 1) == bi && ((w >> 6) & 1 == 1) == bf && (
    w & 1 == 1) == bp) by (bit_vector)
        requires
            w == (if bn { 0x8000_0000u32 } else { 0u32 }) | (if bz { 0x4000_0000u32 } else { 0u32 })
                | (if bc { 0x2000_0000u32 } else { 0u32 }) | (if bv { 0x1000_0000u32 } else { 0u32 })
                | (if bi { 0x80u32 } else { 0u32 }) | (if bf { 0x40u32 } else { 0u32 }) | (if bp {
                1u32
            } else {
                0u32
            }),
    ;
}

/// The packed encoding sets no bit outside the seven documented
/// positions: every unused bit encodes as zero.
pub proof fn lemma_psr_encoding_uses_documented_bits_only(p: PSR)
    ensures
        p.encoding() & 0x0FFF_FF3E == 0,
{
    let w = p.encoding();
    let bn = p.n;
    let bz = p.z;
    let bc = p.c;
    let bv = p.v;
    let bi = p.i;
    let bf = p.f;
    let bp = p.p;
    assert(w & 0x0FFF_FF3E == 0) by (bit_vector)
        requires
            w == (if bn { 0x8000_0000u32 } else { 0u32 }) | (if bz { 0x4000_0000u32 } else { 0u32 })
                | (if bc { 0x2000_0000u32 } else { 0u32 }) | (if bv { 0x1000_0000u32 } else { 0u32 })
                | (if bi { 0x80u32 } else { 0u32 }) | (if bf { 0x40u32 } else { 0u32 }) | (if bp {
                1u32
            } else {
                0u32
            }),
    ;
}

/// The register file: thirteen general-purpose registers, the stack
/// pointer, link register, program counter and the live status word.
#[derive(Debug, Clone)]
pub struct Registers {
    /// R0-R12
    pub gpr: [u32; 13],
    /// R13
    pub sp: u32,
    /// R14
    pub lr: u32,
    /// R15; kept 4-byte aligned at every assignment through `set`
    pub pc: u32,
    /// Live status word
    pub psr: PSR,
}

impl Registers {
    /// The value read at a register index: a general-purpose slot for
    /// 0 to 12, the dedicated registers for 13 to 15, zero elsewhere.
    pub open spec fn read(self, reg: u8) -> u32 {
        if reg <= 12 {
            self.gpr[reg as int]
        } else if reg == 13 {
            self.sp
        } else if reg == 14 {
            self.lr
        } else if reg == 15 {
            self.pc
        } else {
            0
        }
    }

    /// The register file after a write at a register index: the matching
    /// slot takes the value (aligned down for the program counter), all
    /// other state is unchanged, and an index above 15 changes nothing.
    pub open spec fn written(self, reg: u8, value: u32) -> Registers {
        if reg <= 12 {
            Registers { gpr: vstd::array::spec_array_update(self.gpr, reg as int, value), ..self }
        } else if reg == 13 {
            Registers { sp: value, ..self }
        } else if reg == 14 {
            Registers { lr: value, ..self }
        } else if reg == 15 {
            Registers { pc: align4(value), ..self }
        } else {
            self
        }
    }

    /// Reads a register; indices above 15 read as zero.
    pub fn get(&self, reg: u8) -> (r: u32)
        ensures
            r == self.read(reg),
    {
        if reg <= 12 {
            self.gpr[reg as usize]
        } else if reg == 13 {
            self.sp
        } else if reg == 14 {
            self.lr
        } else if reg == 15 {
            self.pc
        } else {
            0
        }
    }

    /// Writes a register; a program-counter write is aligned down to a
    /// 4-byte boundary, and indices above 15 are ignored.
    pub fn set(&mut self, reg: u8, value: u32)
        ensures
            *final(self) == old(self).written(reg, value),
    {
        if reg <= 12 {
            self.gpr[reg as usize] = value;
            proof {
                let expected = vstd::array::spec_array_update(old(self).gpr, reg as int, value);
                assert(self.gpr =~= expected);
            }
        } else if reg == 13 {
            self.sp = value;
        } else if reg == 14 {
            self.lr = value;
        } else if reg == 15 {
            self.pc = value & 0xFFFF_FFFC;
        }
    }
}

impl Default for Registers {
    /// The register file with every register zero and the status word
    /// all-clear.
    fn default() -> (r: Self)
        ensures
            r.gpr@ == Seq::new(13, |k: int| 0u32),
            r.sp == 0u32,
            r.lr == 0u32,
            r.pc == 0u32,
            r.psr == PSR::all_clear(),
    {
        Registers { gpr: [0u32;13], sp: 0, lr: 0, pc: 0, psr: PSR::default() }
    }
}

/// Writing the program counter through the register file always leaves
/// it 4-byte aligned, whatever 32-bit value was supplied.
pub proof fn lemma_pc_write_aligned(r: Registers, value: u32)
    ensures
        r.written(15, value).pc == align4(value),
        r.written(15, value).pc % 4 == 0,
{
    lemma_align4(value);
}

} // verus!
