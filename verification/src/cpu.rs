//! The processor core: system registers, condition evaluation and the
//! execution units that perform one instruction step.
//!
//! One step decodes the supplied word, evaluates its condition against
//! the current flags, and dispatches to exactly one execution unit. A
//! failed condition leaves every register and the status word unchanged
//! except the program counter, which advances by 4. The whole step is
//! captured by the spec function [`CPU::stepped`], so the contract of
//! [`CPU::step_with_instr`] pins the entire state transition.

use vstd::prelude::*;

use crate::isa::{Class, Condition, DecodedInstr};
use crate::register::{align4, lemma_align4, lemma_psr_round_trip, Registers, PSR};

verus! {

/// 32-bit wraparound addition.
pub open spec fn wrap_add32(a: u32, b: u32) -> u32 {
    if a + b > 0xFFFF_FFFF {
        (a + b - 0x1_0000_0000) as u32
    } else {
        (a + b) as u32
    }
}

/// 32-bit wraparound subtraction.
pub open spec fn wrap_sub32(a: u32, b: u32) -> u32 {
    if a >= b {
        (a - b) as u32
    } else {
        (a - b + 0x1_0000_0000) as u32
    }
}

/// Carry out of an addition: the unsigned sum exceeds the 32-bit range.
pub open spec fn carry_add32(a: u32, b: u32) -> bool {
    a + b > 0xFFFF_FFFF
}

/// Borrow out of a subtraction: the unsigned minuend is less than the
/// subtrahend.
pub open spec fn borrow_sub32(a: u32, b: u32) -> bool {
    a < b
}

/// The sign bit of a value, read as a two's-complement sign.
pub open spec fn sign32(x: u32) -> bool {
    x >= 0x8000_0000
}

/// Signed overflow of an addition: the operands have matching sign that
/// differs from the result's sign.
pub open spec fn ovf_add32(a: u32, b: u32) -> bool {
    sign32(a) == sign32(b) && sign32(wrap_add32(a, b)) != sign32(a)
}

/// Signed overflow of a subtraction: the operands have differing signs
/// and the result's sign differs from the minuend's.
pub open spec fn ovf_sub32(a: u32, b: u32) -> bool {
    sign32(a) != sign32(b) && sign32(wrap_sub32(a, b)) != sign32(a)
}

/// Wraparound addition, for program-counter and target arithmetic.
fn wrapping_add32(a: u32, b: u32) -> (r: u32)
    ensures
        r == wrap_add32(a, b),
{
    let s: u64 = a as u64 + b as u64;
    if s > 0xFFFF_FFFF {
        (s - 0x1_0000_0000) as u32
    } else {
        s as u32
    }
}

/// Wraparound subtraction.
fn wrapping_sub32(a: u32, b: u32) -> (r: u32)
    ensures
        r == wrap_sub32(a, b),
{
    if a >= b {
        a - b
    } else {
        ((a as u64 + 0x1_0000_0000) - b as u64) as u32
    }
}

/// Whether a condition code passes under the given flags, per the
/// standard sixteen-entry truth table.
pub open spec fn cond_holds(cond: Condition, psr: PSR) -> bool {
    match cond {
        Condition::AL => true,
        Condition::NV => false,
        Condition::EQ => psr.z,
        Condition::NE => !psr.z,
        Condition::CS => psr.c,
        Condition::CC => !psr.c,
        Condition::MI => psr.n,
        Condition::PL => !psr.n,
        Condition::VS => psr.v,
        Condition::VC => !psr.v,
        Condition::HI => psr.c && !psr.z,
        Condition::LS => !psr.c || psr.z,
        Condition::GE => psr.n == psr.v,
        Condition::LT => psr.n != psr.v,
        Condition::GT => !psr.z && (psr.n == psr.v),
        Condition::LE => psr.z || (psr.n != psr.v),
    }
}

/// The result an ALU opcode computes from source value `a`, register
/// operand `b` and immediate `imm`. Opcodes 7 (TST) and 8 (CMP) compute
/// a flags-only value.
pub open spec fn alu_value(op: u8, a: u32, b: u32, imm: u32) -> u32 {
    if op == 0 {
        wrap_add32(a, imm)
    } else if op == 1 {
        wrap_sub32(a, imm)
    } else if op == 2 {
        a & b
    } else if op == 3 {
        a | b
    } else if op == 4 {
        a ^ b
    } else if op == 5 {
        imm
    } else if op == 6 {
        b ^ 0xFFFF_FFFF
    } else if op == 7 {
        a & b
    } else {
        wrap_sub32(a, b)
    }
}

/// The carry flag an ALU opcode produces; `cur` is the current carry,
/// which TST holds in place. The subtract forms use the
/// subtract-with-borrow convention: carry is the negation of borrow.
pub open spec fn alu_carry(op: u8, a: u32, b: u32, imm: u32, cur: bool) -> bool {
    if op == 0 {
        carry_add32(a, imm)
    } else if op == 1 {
        !borrow_sub32(a, imm)
    } else if op == 7 {
        cur
    } else if op == 8 {
        !borrow_sub32(a, b)
    } else {
        false
    }
}

/// The overflow flag an ALU opcode produces; `cur` is the current
/// overflow, which TST holds in place.
pub open spec fn alu_overflow(op: u8, a: u32, b: u32, imm: u32, cur: bool) -> bool {
    if op == 0 {
        ovf_add32(a, imm)
    } else if op == 1 {
        ovf_sub32(a, imm)
    } else if op == 7 {
        cur
    } else if op == 8 {
        ovf_sub32(a, b)
    } else {
        false
    }
}

/// The register file after the ALU unit executes one decoded
/// instruction: opcodes 0 to 6 write the destination and update flags
/// only when requested, TST and CMP update flags unconditionally and
/// write nothing, undefined opcodes only advance the program counter,
/// which in every case advances by exactly 4 after any register write.
pub open spec fn alu_step_regs(r: Registers, di: DecodedInstr) -> Registers {
    if di.opcode > 8 {
        Registers { pc: wrap_add32(r.pc, 4), ..r }
    } else {
        let a = r.read(di.rn);
        let b = r.read(di.rm);
        let imm = di.imm12 as u32;
        let value = alu_value(di.opcode, a, b, imm);
        let written = if di.opcode <= 6 {
            r.written(di.rd, value)
        } else {
            r
        };
        let psr2 = if di.opcode >= 7 || di.set_flags {
            r.psr.with_zncv(
                value,
                alu_carry(di.opcode, a, b, imm, r.psr.c),
                alu_overflow(di.opcode, a, b, imm, r.psr.v),
            )
        } else {
            r.psr
        };
        Registers { psr: psr2, pc: wrap_add32(written.pc, 4), ..written }
    }
}

/// The word-granular signed displacement a branch encodes: the 12-bit
/// immediate sign-extended from bit 11 through a 16-bit intermediate,
/// then shifted left by 2.
pub open spec fn branch_disp(imm12: u16) -> u32 {
    (if imm12 & 0x800 != 0 {
        (imm12 as u32) | 0xFFFF_F000u32
    } else {
        imm12 as u32
    }) << 2u32
}

/// The register file after the branch unit executes one decoded
/// instruction: the program counter becomes the aligned target
/// (current + 4 + displacement), and a set flag-update bit is read as a
/// link request that first saves current + 4 into the link register.
pub open spec fn branch_step_regs(r: Registers, di: DecodedInstr) -> Registers {
    let ret = wrap_add32(r.pc, 4);
    let target = align4(wrap_add32(ret, branch_disp(di.imm12)));
    Registers { lr: if di.set_flags { ret } else { r.lr }, pc: target, ..r }
}

/// Privileged control state: vector table base, system control word,
/// reserved translation/fault/counter registers, and the banked
/// exception PC / status pair used by exception entry and return.
#[derive(Debug, Clone, PartialEq, Eq, Structural)]
pub struct SystemRegs {
    /// Vector Table Base Register, treated as 1 KiB aligned when used
    pub vtbr: u32,
    /// System control word (no behavior currently attached)
    pub scr: u32,
    pub ttbr0: u32,
    pub ttbr1: u32,
    pub asid: u32,
    pub far: u32,
    pub ifsr: u32,
    pub dfsr: u32,
    /// Free-running counter
    pub cnt: u64,
    /// Counter compare value
    pub cnt_cmp: u64,
    /// Banked exception PC
    pub epc: u32,
    /// Banked exception status word
    pub epsr: u32,
}

impl SystemRegs {
    /// The system-register block with every register zero.
    pub open spec fn all_zero() -> SystemRegs {
        SystemRegs {
            vtbr: 0,
            scr: 0,
            ttbr0: 0,
            ttbr1: 0,
            asid: 0,
            far: 0,
            ifsr: 0,
            dfsr: 0,
            cnt: 0,
            cnt_cmp: 0,
            epc: 0,
            epsr: 0,
        }
    }
}

impl Default for SystemRegs {
    /// The all-zero system-register block.
    fn default() -> (r: Self)
        ensures
            r == SystemRegs::all_zero(),
    {
        SystemRegs {
            vtbr: 0,
            scr: 0,
            ttbr0: 0,
            ttbr1: 0,
            asid: 0,
            far: 0,
            ifsr: 0,
            dfsr: 0,
            cnt: 0,
            cnt_cmp: 0,
            epc: 0,
            epsr: 0,
        }
    }
}

/// The processor: register file plus system-register block, mutated
/// only by its own step and reset entry points.
#[derive(Debug, Clone)]
pub struct CPU {
    pub regs: Registers,
    pub sys: SystemRegs,
}

impl CPU {
    /// The processor state after exception entry with the given vector
    /// offset: the pre-exception program counter and packed status are
    /// captured into the banked registers before the live privilege bit
    /// is forced true, and the program counter becomes the aligned
    /// handler address at (vector table base masked to 1 KiB) + offset.
    pub open spec fn exception_entered(self, vector_offset: u32) -> CPU {
        let handler = align4(wrap_add32(self.sys.vtbr & 0xFFFF_FC00, vector_offset));
        CPU {
            regs: Registers {
                psr: PSR { p: true, ..self.regs.psr },
                pc: handler,
                ..self.regs
            },
            sys: SystemRegs {
                epc: self.regs.pc,
                epsr: self.regs.psr.encoding(),
                ..self.sys
            },
        }
    }

    /// The processor state after the system unit executes one decoded
    /// instruction: opcode 0 reads the packed status into the
    /// destination, 1 replaces the live status from the source-A
    /// register, 2 enters the exception protocol at vector offset 0x08,
    /// 3 returns from an exception by restoring the banked status and
    /// PC, and any other opcode is a no-op that advances the PC by 4.
    pub open spec fn system_stepped(self, di: DecodedInstr) -> CPU {
        if di.opcode == 0 {
            let written = self.regs.written(di.rd, self.regs.psr.encoding());
            CPU { regs: Registers { pc: wrap_add32(written.pc, 4), ..written }, sys: self.sys }
        } else if di.opcode == 1 {
            CPU {
                regs: Registers {
                    psr: PSR::decoded(self.regs.read(di.rn)),
                    pc: wrap_add32(self.regs.pc, 4),
                    ..self.regs
                },
                sys: self.sys,
            }
        } else if di.opcode == 2 {
            self.exception_entered(0x08)
        } else if di.opcode == 3 {
            CPU {
                regs: Registers {
                    psr: PSR::decoded(self.sys.epsr),
                    pc: align4(self.sys.epc),
                    ..self.regs
                },
                sys: self.sys,
            }
        } else {
            CPU { regs: Registers { pc: wrap_add32(self.regs.pc, 4), ..self.regs }, sys: self.sys }
        }
    }

    /// The processor state after one full instruction step on the given
    /// word: decode, evaluate the condition, and dispatch to exactly one
    /// execution unit; a failed condition, and the Multiply/Divide and
    /// Load/Store placeholders, only advance the program counter by 4.
    pub open spec fn stepped(self, instr_word: u32) -> CPU {
        let di = DecodedInstr::decoded(instr_word);
        if !cond_holds(di.cond, self.regs.psr) {
            CPU { regs: Registers { pc: wrap_add32(self.regs.pc, 4), ..self.regs }, sys: self.sys }
        } else {
            match di.class {
                Class::Alu => CPU { regs: alu_step_regs(self.regs, di), sys: self.sys },
                Class::MulDiv => CPU {
                    regs: Registers { pc: wrap_add32(self.regs.pc, 4), ..self.regs },
                    sys: self.sys,
                },
                Class::LoadStore => CPU {
                    regs: Registers { pc: wrap_add32(self.regs.pc, 4), ..self.regs },
                    sys: self.sys,
                },
                Class::Branch => CPU { regs: branch_step_regs(self.regs, di), sys: self.sys },
                Class::System => self.system_stepped(di),
            }
        }
    }

    /// Builds a processor in the reset state.
    pub fn new() -> (r: Self)
        ensures
            r.regs.gpr@ == Seq::new(13, |k: int| 0u32),
            r.regs.sp == 0u32,
            r.regs.lr == 0u32,
            r.regs.pc == 0u32,
            r.regs.psr == (PSR { p: true, ..PSR::all_clear() }),
            r.sys == SystemRegs::all_zero(),
    {
        let mut cpu = Self { regs: Registers::default(), sys: SystemRegs::default() };
        cpu.reset();
        cpu
    }

    /// Clears every general-purpose register, the stack pointer, link
    /// register and all system registers to zero; the status word
    /// becomes all-false except privilege, and the program counter is
    /// set to the reset vector at the (zero) vector table base.
    pub fn reset(&mut self)
        ensures
            final(self).regs.gpr@ == Seq::new(13, |k: int| 0u32),
            final(self).regs.sp == 0u32,
            final(self).regs.lr == 0u32,
            final(self).regs.pc == 0u32,
            final(self).regs.psr == (PSR { p: true, ..PSR::all_clear() }),
            final(self).sys == SystemRegs::all_zero(),
    {
        self.regs = Registers::default();
        self.sys = SystemRegs::default();
        let mut psr = PSR::default();
        psr.p = true;
        self.regs.psr = psr;
        self.sys.vtbr = 0;
        self.regs.pc = self.sys.vtbr + 0x00;
    }

    /// Executes a single instruction word supplied by the caller.
    pub fn step_with_instr(&mut self, instr_word: u32)
        ensures
            *final(self) == old(self).stepped(instr_word),
    {
        let instr = DecodedInstr::decode(instr_word);
        if !self.condition_passed(instr.cond) {
            self.advance_pc();
            return;
        }
        match instr.class {
            Class::Alu => self.exec_alu(instr),
            Class::MulDiv => self.exec_muldiv(instr),
            Class::LoadStore => self.exec_loadstore(instr),
            Class::Branch => self.exec_branch(instr),
            Class::System => self.exec_system(instr),
        }
    }

    /// Advances the program counter by exactly 4, wrapping around.
    fn advance_pc(&mut self)
        ensures
            *final(self) == (CPU {
                regs: Registers { pc: wrap_add32(old(self).regs.pc, 4), ..old(self).regs },
                sys: old(self).sys,
            }),
    {
        self.regs.pc = wrapping_add32(self.regs.pc, 4);
    }

    /// Evaluates the instruction's condition code against the current
    /// flags.
    fn condition_passed(&self, cond: Condition) -> (r: bool)
        ensures
            r == cond_holds(cond, self.regs.psr),
    {
        let psr = &self.regs.psr;
        match cond {
            Condition::AL => true,
            Condition::NV => false,
            Condition::EQ => psr.z,
            Condition::NE => !psr.z,
            Condition::CS => psr.c,
            Condition::CC => !psr.c,
            Condition::MI => psr.n,
            Condition::PL => !psr.n,
            Condition::VS => psr.v,
            Condition::VC => !psr.v,
            Condition::HI => psr.c && !psr.z,
            Condition::LS => !psr.c || psr.z,
            Condition::GE => psr.n == psr.v,
            Condition::LT => psr.n != psr.v,
            Condition::GT => !psr.z && (psr.n == psr.v),
            Condition::LE => psr.z || (psr.n != psr.v),
        }
    }

    /// Executes one ALU-class instruction against the register file.
    fn exec_alu(&mut self, di: DecodedInstr)
        ensures
            *final(self) == (CPU { regs: alu_step_regs(old(self).regs, di), sys: old(self).sys }),
    {
        let opcode = di.opcode;
        if opcode > 8 {
            self.advance_pc();
            return;
        }
        let a = self.regs.get(di.rn);
        let b = self.regs.get(di.rm);
        let imm: u32 = di.imm12 as u32;
        let value: u32;
        let carry: bool;
        let overflow: bool;
        if opcode == 0 {
            value = wrapping_add32(a, imm);
            carry = a as u64 + imm as u64 > 0xFFFF_FFFF;
            overflow = (a >= 0x8000_0000) == (imm >= 0x8000_0000) && ((value >= 0x8000_0000) != (a
                >= 0x8000_0000));
        } else if opcode == 1 {
            value = wrapping_sub32(a, imm);
            carry = a >= imm;
            overflow = (a >= 0x8000_0000) != (imm >= 0x8000_0000) && ((value >= 0x8000_0000) != (a
                >= 0x8000_0000));
        } else if opcode == 2 {
            value = a & b;
            carry = false;
            overflow = false;
        } else if opcode == 3 {
            value = a | b;
            carry = false;
            overflow = false;
        } else if opcode == 4 {
            value = a ^ b;
            carry = false;
            overflow = false;
        } else if opcode == 5 {
            value = imm;
            carry = false;
            overflow = false;
        } else if opcode == 6 {
            value = b ^ 0xFFFF_FFFF;
            carry = false;
            overflow = false;
        } else if opcode == 7 {
            value = a & b;
            carry = self.regs.psr.c;
            overflow = self.regs.psr.v;
        } else {
            value = wrapping_sub32(a, b);
            carry = a >= b;
            overflow = (a >= 0x8000_0000) != (b >= 0x8000_0000) && ((value >= 0x8000_0000) != (a
                >= 0x8000_0000));
        }
        if opcode <= 6 {
            self.regs.set(di.rd, value);
            if di.set_flags {
                self.regs.psr.set_zncv_from_result(value, carry, overflow);
            }
        } else {
            self.regs.psr.set_zncv_from_result(value, carry, overflow);
        }
        self.advance_pc();
    }

    /// Multiply/Divide placeholder: no register mutation, the program
    /// counter advances by 4.
    fn exec_muldiv(&mut self, _di: DecodedInstr)
        ensures
            *final(self) == (CPU {
                regs: Registers { pc: wrap_add32(old(self).regs.pc, 4), ..old(self).regs },
                sys: old(self).sys,
            }),
    {
        self.advance_pc();
    }

    /// Load/Store placeholder awaiting a memory collaborator: no
    /// register mutation, the program counter advances by 4.
    fn exec_loadstore(&mut self, _di: DecodedInstr)
        ensures
            *final(self) == (CPU {
                regs: Registers { pc: wrap_add32(old(self).regs.pc, 4), ..old(self).regs },
                sys: old(self).sys,
            }),
    {
        self.advance_pc();
    }

    /// Executes one branch-class instruction: computes the word-aligned
    /// signed target, saves the return address on a link request, and
    /// redirects the program counter.
    fn exec_branch(&mut self, di: DecodedInstr)
        ensures
            *final(self) == (CPU {
                regs: branch_step_regs(old(self).regs, di),
                sys: old(self).sys,
            }),
    {
        let ext: u32 = if di.imm12 & 0x800 != 0 {
            (di.imm12 as u32) | 0xFFFF_F000
        } else {
            di.imm12 as u32
        };
        let disp: u32 = ext << 2u32;
        let ret = wrapping_add32(self.regs.pc, 4);
        let target = wrapping_add32(ret, disp) & 0xFFFF_FFFC;
        if di.set_flags {
            self.regs.lr = ret;
        }
        self.regs.pc = target;
    }

    /// Executes one system-class instruction: status read/write,
    /// supervisor call, return-from-exception, or a defined no-op.
    fn exec_system(&mut self, di: DecodedInstr)
        ensures
            *final(self) == old(self).system_stepped(di),
    {
        if di.opcode == 0 {
            let v = self.regs.psr.to_u32();
            self.regs.set(di.rd, v);
            self.advance_pc();
        } else if di.opcode == 1 {
            let v = self.regs.get(di.rn);
            self.regs.psr = PSR::from_u32(v);
            self.advance_pc();
        } else if di.opcode == 2 {
            self.raise_exception(0x08);
        } else if di.opcode == 3 {
            let psr = PSR::from_u32(self.sys.epsr);
            self.regs.psr = psr;
            self.regs.pc = self.sys.epc & 0xFFFF_FFFC;
        } else {
            self.advance_pc();
        }
    }

    /// Enters the exception protocol: captures the pre-exception program
    /// counter and packed status into the banked registers, forces the
    /// privilege bit, and vectors to the aligned handler address.
    fn raise_exception(&mut self, vector_offset: u32)
        requires
            vector_offset <= 0x3FF,
        ensures
            *final(self) == old(self).exception_entered(vector_offset),
    {
        self.sys.epc = self.regs.pc;
        self.sys.epsr = self.regs.psr.to_u32();
        self.regs.psr.p = true;
        let base = self.sys.vtbr & 0xFFFF_FC00;
        proof {
            let v = self.sys.vtbr;
            assert(v & 0xFFFF_FC00 <= 0xFFFF_FC00) by (bit_vector);
        }
        let handler = (base + vector_offset) & 0xFFFF_FFFC;
        self.regs.pc = handler;
    }
}

/// An instruction whose condition evaluates false leaves every
/// register, the status word and the system registers unchanged, except
/// the program counter, which advances by exactly 4.
pub proof fn lemma_condition_failure(cpu: CPU, instr_word: u32)
    requires
        !cond_holds(DecodedInstr::decoded(instr_word).cond, cpu.regs.psr),
    ensures
        cpu.stepped(instr_word).regs.gpr == cpu.regs.gpr,
        cpu.stepped(instr_word).regs.sp == cpu.regs.sp,
        cpu.stepped(instr_word).regs.lr == cpu.regs.lr,
        cpu.stepped(instr_word).regs.psr == cpu.regs.psr,
        cpu.stepped(instr_word).sys == cpu.sys,
        cpu.stepped(instr_word).regs.pc == wrap_add32(cpu.regs.pc, 4),
{
}

/// Exception entry captures the pre-exception state exactly: the banked
/// status decodes back to the pre-exception status word, the banked PC
/// is the pre-exception program counter, and the live status keeps
/// every field except the privilege bit, which is forced true.
pub proof fn lemma_exception_entry_restores(cpu: CPU, vector_offset: u32)
    requires
        cpu.regs.pc % 4 == 0,
    ensures
        PSR::decoded(cpu.exception_entered(vector_offset).sys.epsr) == cpu.regs.psr,
        cpu.exception_entered(vector_offset).sys.epc == cpu.regs.pc,
        align4(cpu.exception_entered(vector_offset).sys.epc) == cpu.regs.pc,
        cpu.exception_entered(vector_offset).regs.psr == (PSR { p: true, ..cpu.regs.psr }),
{
    lemma_psr_round_trip(cpu.regs.psr);
    lemma_align4(cpu.regs.pc);
}

/// Entering an exception and then executing a return-from-exception
/// (system opcode 3) restores the pre-exception status word exactly and
/// returns to the pre-exception program counter.
pub proof fn lemma_exception_round_trip(cpu: CPU, vector_offset: u32, di: DecodedInstr)
    requires
        cpu.regs.pc % 4 == 0,
        di.opcode == 3,
    ensures
        cpu.exception_entered(vector_offset).system_stepped(di).regs.psr == cpu.regs.psr,
        cpu.exception_entered(vector_offset).system_stepped(di).regs.pc == cpu.regs.pc,
        cpu.exception_entered(vector_offset).system_stepped(di).sys
            == cpu.exception_entered(vector_offset).sys,
{
    lemma_psr_round_trip(cpu.regs.psr);
    lemma_align4(cpu.regs.pc);
}

/// A step started with a 4-byte-aligned program counter ends with a
/// 4-byte-aligned program counter, whatever the instruction word.
pub proof fn lemma_step_preserves_pc_alignment(cpu: CPU, instr_word: u32)
    requires
        cpu.regs.pc % 4 == 0,
    ensures
        cpu.stepped(instr_word).regs.pc % 4 == 0,
{
    let di = DecodedInstr::decoded(instr_word);
    lemma_wrap_add32_keeps_alignment(cpu.regs.pc);
    if cond_holds(di.cond, cpu.regs.psr) {
        match di.class {
            Class::Alu => {
                if di.opcode <= 6 && di.rd == 15 {
                    let a = cpu.regs.read(di.rn);
                    let b = cpu.regs.read(di.rm);
                    let value = alu_value(di.opcode, a, b, di.imm12 as u32);
                    lemma_align4(value);
                    lemma_wrap_add32_keeps_alignment(align4(value));
                }
            },
            Class::Branch => {
                let ret = wrap_add32(cpu.regs.pc, 4);
                lemma_align4(wrap_add32(ret, branch_disp(di.imm12)));
            },
            Class::System => {
                if di.opcode == 0 && di.rd == 15 {
                    lemma_align4(cpu.regs.psr.encoding());
                    lemma_wrap_add32_keeps_alignment(align4(cpu.regs.psr.encoding()));
                } else if di.opcode == 2 {
                    lemma_align4(wrap_add32(cpu.sys.vtbr & 0xFFFF_FC00, 0x08));
                } else if di.opcode == 3 {
                    lemma_align4(cpu.sys.epc);
                }
            },
            _ => {},
        }
    }
}

/// Advancing a 4-byte-aligned program counter by 4 keeps it aligned,
/// also across the wraparound.
proof fn lemma_wrap_add32_keeps_alignment(pc: u32)
    requires
        pc % 4 == 0,
    ensures
        wrap_add32(pc, 4) % 4 == 0,
{
}

} // verus!
