//! The branch family, bit test, and the halt operation.

use vstd::prelude::*;
use crate::cpu::Cpu6502;
use crate::cpu::CpuError;
use crate::cpu::CpuModel;
use crate::cpu::spec_negative;
use crate::instr::spec_cur_operand;
use crate::register::CpuRegister;
use crate::util::get_bit;
use crate::util::spec_wrapping_add16;
use crate::util::spec_wrapping_sub16;

verus! {

/// A displacement byte sign-extended to 16 bits (two's complement).
pub open spec fn spec_sign_extend16(d: u8) -> u16 {
    if d >= 128 {
        (d + 0xFF00) as u16
    } else {
        d as u16
    }
}

/// Where a taken branch lands: the already-advanced program counter plus the
/// sign-extended displacement, with 16-bit wraparound.
pub open spec fn spec_branch_target(m: CpuModel) -> u16 {
    spec_wrapping_add16(m.regs.pc, spec_sign_extend16(spec_cur_operand(m)))
}

/// Whether a taken branch lands on a different page than the branch
/// instruction itself (which sits two bytes before the advanced program
/// counter).
pub open spec fn spec_branch_page_crossed(m: CpuModel) -> bool {
    spec_branch_target(m) as int / 256 != spec_wrapping_sub16(m.regs.pc, 2) as int / 256
}

/// State transition of a taken branch: the program counter moves to the
/// branch target, and the stall counter grows by one cycle, or by two when
/// the target sits on a different page than the branch instruction.
pub open spec fn spec_execute_branch(m: CpuModel) -> CpuModel {
    let add: int = if spec_branch_page_crossed(m) { 2 } else { 1 };
    CpuModel {
        regs: CpuRegister { pc: spec_branch_target(m), ..m.regs },
        clocks: ((m.clocks + add) % 256) as u8,
        ..m
    }
}

/// State transition of branch-if-carry-clear.
pub open spec fn spec_bcc(m: CpuModel) -> CpuModel {
    if !m.regs.carry { spec_execute_branch(m) } else { m }
}

/// State transition of branch-if-carry-set.
pub open spec fn spec_bcs(m: CpuModel) -> CpuModel {
    if m.regs.carry { spec_execute_branch(m) } else { m }
}

/// State transition of branch-if-equal (zero flag set).
pub open spec fn spec_beq(m: CpuModel) -> CpuModel {
    if m.regs.zero { spec_execute_branch(m) } else { m }
}

/// State transition of branch-if-minus (negative flag set).
pub open spec fn spec_bmi(m: CpuModel) -> CpuModel {
    if m.regs.negative { spec_execute_branch(m) } else { m }
}

/// State transition of branch-if-not-equal (zero flag clear).
pub open spec fn spec_bne(m: CpuModel) -> CpuModel {
    if !m.regs.zero { spec_execute_branch(m) } else { m }
}

/// State transition of branch-if-plus (negative flag clear).
pub open spec fn spec_bpl(m: CpuModel) -> CpuModel {
    if !m.regs.negative { spec_execute_branch(m) } else { m }
}

/// State transition of branch-if-overflow-clear.
pub open spec fn spec_bvc(m: CpuModel) -> CpuModel {
    if !m.regs.overflow { spec_execute_branch(m) } else { m }
}

/// State transition of branch-if-overflow-set.
pub open spec fn spec_bvs(m: CpuModel) -> CpuModel {
    if m.regs.overflow { spec_execute_branch(m) } else { m }
}

/// State transition of the bit test: the negative and overflow flags are
/// copied from bits 7 and 6 of the operand, and the zero flag reports
/// whether the operand AND the accumulator is zero.
pub open spec fn spec_bit_test(m: CpuModel) -> CpuModel {
    let v = spec_cur_operand(m);
    CpuModel {
        regs: CpuRegister {
            negative: spec_negative(v),
            overflow: v & 0x40 != 0,
            zero: v & m.regs.a == 0,
            ..m.regs
        },
        ..m
    }
}

/// State transition of the halt operation: none. The execution loop halts
/// when it fetches this operation; the handler itself changes nothing.
pub open spec fn spec_brk(m: CpuModel) -> CpuModel {
    m
}

impl Cpu6502 {
    /// Adds the relative displacement to the (already advanced) program
    /// counter. A taken branch costs one extra cycle, and one more when the
    /// target's page differs from the branch instruction's.
    pub fn execute_branch(&mut self)
        requires
            old(self)@.wf(),
            old(self)@.instr is Some,
            old(self)@.clocks <= 253,
        ensures
            final(self)@ == spec_execute_branch(old(self)@),
            final(self)@.wf(),
    {
        let instr = self.instr.unwrap();
        let d = (instr.mode_args % 256) as u8;
        let offset: u16 = if d >= 128 { d as u16 + 0xFF00 } else { d as u16 };
        let target = self.registers.pc.wrapping_add(offset);
        let instr_pc = self.registers.pc.wrapping_sub(2);
        let crossed = target / 256 != instr_pc / 256;
        self.registers.pc = target;
        self.clocks_to_pause = self.clocks_to_pause + (if crossed { 2 } else { 1 });
        proof {
            assert(self@ =~= spec_execute_branch(old(self)@));
        }
    }

    /// BCC: branches when the carry flag is clear.
    #[allow(non_snake_case)]
    pub fn BCC(&mut self) -> (r: Result<(), CpuError>)
        requires
            old(self)@.wf(),
            old(self)@.instr is Some,
            old(self)@.clocks <= 253,
        ensures
            r is Ok,
            final(self)@ == spec_bcc(old(self)@),
            final(self)@.wf(),
    {
        if !self.registers.carry {
            self.execute_branch();
        }
        Ok(())
    }

    /// BCS: branches when the carry flag is set.
    #[allow(non_snake_case)]
    pub fn BCS(&mut self) -> (r: Result<(), CpuError>)
        requires
            old(self)@.wf(),
            old(self)@.instr is Some,
            old(self)@.clocks <= 253,
        ensures
            r is Ok,
            final(self)@ == spec_bcs(old(self)@),
            final(self)@.wf(),
    {
        if self.registers.carry {
            self.execute_branch();
        }
        Ok(())
    }

    /// BEQ: branches when the zero flag is set.
    #[allow(non_snake_case)]
    pub fn BEQ(&mut self) -> (r: Result<(), CpuError>)
        requires
            old(self)@.wf(),
            old(self)@.instr is Some,
            old(self)@.clocks <= 253,
        ensures
            r is Ok,
            final(self)@ == spec_beq(old(self)@),
            final(self)@.wf(),
    {
        if self.registers.zero {
            self.execute_branch();
        }
        Ok(())
    }

    /// BIT: copies bits 7 and 6 of the operand into the negative and
    /// overflow flags; the zero flag reports whether the operand AND the
    /// accumulator is zero.
    #[allow(non_snake_case)]
    pub fn BIT(&mut self) -> (r: Result<(), CpuError>)
        requires
            old(self)@.wf(),
            old(self)@.instr is Some,
        ensures
            r is Ok,
            final(self)@ == spec_bit_test(old(self)@),
            final(self)@.wf(),
    {
        let instr = self.instr.unwrap();
        let v = (instr.mode_args % 256) as u8;
        let x = v & self.registers.a;
        proof {
            assert(((v >> 7) & 1 > 0) == (v >= 128)) by (bit_vector);
            assert(((v >> 6) & 1 > 0) == (v & 0x40 != 0)) by (bit_vector);
        }
        self.registers.negative = get_bit(v, 7) > 0;
        self.registers.overflow = get_bit(v, 6) > 0;
        self.registers.zero = x == 0;
        proof {
            assert(self@ =~= spec_bit_test(old(self)@));
        }
        Ok(())
    }

    /// BMI: branches when the negative flag is set.
    #[allow(non_snake_case)]
    pub fn BMI(&mut self) -> (r: Result<(), CpuError>)
        requires
            old(self)@.wf(),
            old(self)@.instr is Some,
            old(self)@.clocks <= 253,
        ensures
            r is Ok,
            final(self)@ == spec_bmi(old(self)@),
            final(self)@.wf(),
    {
        if self.registers.negative {
            self.execute_branch();
        }
        Ok(())
    }

    /// BNE: branches when the zero flag is clear.
    #[allow(non_snake_case)]
    pub fn BNE(&mut self) -> (r: Result<(), CpuError>)
        requires
            old(self)@.wf(),
            old(self)@.instr is Some,
            old(self)@.clocks <= 253,
        ensures
            r is Ok,
            final(self)@ == spec_bne(old(self)@),
            final(self)@.wf(),
    {
        if !self.registers.zero {
            self.execute_branch();
        }
        Ok(())
    }

    /// BPL: branches when the negative flag is clear.
    #[allow(non_snake_case)]
    pub fn BPL(&mut self) -> (r: Result<(), CpuError>)
        requires
            old(self)@.wf(),
            old(self)@.instr is Some,
            old(self)@.clocks <= 253,
        ensures
            r is Ok,
            final(self)@ == spec_bpl(old(self)@),
            final(self)@.wf(),
    {
        if !self.registers.negative {
            self.execute_branch();
        }
        Ok(())
    }

    /// BRK: the halt operation. The execution loop halts when it fetches
    /// this operation; the handler itself changes nothing.
    #[allow(non_snake_case)]
    pub fn BRK(&mut self) -> (r: Result<(), CpuError>)
        ensures
            r is Ok,
            final(self)@ == old(self)@,
    {
        Ok(())
    }

    /// BVC: branches when the overflow flag is clear.
    #[allow(non_snake_case)]
    pub fn BVC(&mut self) -> (r: Result<(), CpuError>)
        requires
            old(self)@.wf(),
            old(self)@.instr is Some,
            old(self)@.clocks <= 253,
        ensures
            r is Ok,
            final(self)@ == spec_bvc(old(self)@),
            final(self)@.wf(),
    {
        if !self.registers.overflow {
            self.execute_branch();
        }
        Ok(())
    }

    /// BVS: branches when the overflow flag is set.
    #[allow(non_snake_case)]
    pub fn BVS(&mut self) -> (r: Result<(), CpuError>)
        requires
            old(self)@.wf(),
            old(self)@.instr is Some,
            old(self)@.clocks <= 253,
        ensures
            r is Ok,
            final(self)@ == spec_bvs(old(self)@),
            final(self)@.wf(),
    {
        if self.registers.overflow {
            self.execute_branch();
        }
        Ok(())
    }
}

} // verus!

use crate::cpu::spec_execute;
use crate::cpu::spec_fetch;
use crate::cpu::spec_step;
use crate::cpu::spec_step_ok;
use crate::mem::spec_mem_read;
use crate::opcode::lemma_table_rows;
use crate::opcode::spec_opcode;
use crate::opcode::Operation;

verus! {

/// Whether a conditional branch is taken in a given state: each branch
/// operation tests one flag.
pub open spec fn spec_branch_taken(m: CpuModel, op: Operation) -> bool {
    match op {
        Operation::BCC => !m.regs.carry,
        Operation::BCS => m.regs.carry,
        Operation::BEQ => m.regs.zero,
        Operation::BNE => !m.regs.zero,
        Operation::BMI => m.regs.negative,
        Operation::BPL => !m.regs.negative,
        Operation::BVC => !m.regs.overflow,
        Operation::BVS => m.regs.overflow,
        _ => false,
    }
}

/// Where a branch instruction at the current program counter would land:
/// the address past the two-byte instruction plus the sign-extended
/// displacement byte.
pub open spec fn spec_branch_destination(m: CpuModel) -> u16 {
    let d = spec_mem_read(m, spec_wrapping_add16(m.regs.pc, 1));
    spec_wrapping_add16(spec_wrapping_add16(m.regs.pc, 2), spec_sign_extend16(d))
}

/// Whether a branch instruction's destination sits on a different page than
/// the instruction itself.
pub open spec fn spec_branch_crosses_page(m: CpuModel) -> bool {
    spec_branch_destination(m) as int / 256 != m.regs.pc as int / 256
}

/// Branch timing. For a state about to execute any relative-mode (branch)
/// opcode: the base cost is exactly 2 cycles; a branch not taken costs
/// exactly that base; a taken branch costs one cycle more, and a further
/// cycle when the destination's high byte differs from the instruction's.
/// A step's cost is what it leaves in the stall counter plus the one cycle
/// the step itself spends.
#[verifier::rlimit(100)]
#[verifier::spinoff_prover]
pub proof fn lemma_branch_timing(m: CpuModel)
    requires
        m.wf(),
        m.clocks == 0,
        spec_opcode(spec_fetch(m)).mode is Relative,
        spec_step_ok(m),
    ensures
        spec_opcode(spec_fetch(m)).cycles == 2,
        !spec_branch_taken(m, spec_opcode(spec_fetch(m)).op) ==> spec_step(m).clocks + 1 == 2,
        spec_branch_taken(m, spec_opcode(spec_fetch(m)).op) && !spec_branch_crosses_page(m)
            ==> spec_step(m).clocks + 1 == 3,
        spec_branch_taken(m, spec_opcode(spec_fetch(m)).op) && spec_branch_crosses_page(m)
            ==> spec_step(m).clocks + 1 == 4,
{
    lemma_table_rows(spec_fetch(m));
    let e = spec_opcode(spec_fetch(m));
    let ptr = spec_wrapping_add16(m.regs.pc, 1);
    let resolved = crate::address::spec_resolve(m, e.mode);
    assert(resolved.addr == Some(ptr) && resolved.value == spec_mem_read(m, ptr) as u16
        && resolved.length == 1 && !resolved.page_crossed) by {
        reveal(crate::address::spec_resolve);
    }
    let fetched = CpuModel {
        regs: CpuRegister { pc: spec_wrapping_add16(m.regs.pc, 2), ..m.regs },
        instr: Some(crate::cpu::spec_decoded_instruction(m)),
        ..m
    };
    let executed = spec_execute(fetched);
    assert(spec_step(m) == (CpuModel {
        clocks: ((executed.clocks + e.cycles + 255) % 256) as u8,
        ..executed
    })) by {
        reveal(spec_step);
    }
    assert(spec_cur_operand(fetched) == spec_mem_read(m, ptr));
    assert(spec_branch_target(fetched) == spec_branch_destination(m));
    assert(spec_wrapping_sub16(fetched.regs.pc, 2) == m.regs.pc);
    assert(spec_branch_page_crossed(fetched) == spec_branch_crosses_page(m));
    let taken = spec_branch_taken(m, e.op);
    assert(executed == (if taken { spec_execute_branch(fetched) } else { fetched })) by {
        reveal(spec_execute);
    }
}

} // verus!
