//! The rotate operations and the return instructions.

use vstd::prelude::*;
use crate::cpu::Cpu6502;
use crate::cpu::CpuError;
use crate::cpu::CpuModel;
use crate::cpu::spec_status_from_byte;
use crate::cpu::spec_with_zero_negative;
use crate::mem::spec_read_write_target;
use crate::mem::spec_store_write_target;
use crate::register::CpuRegister;
use crate::stack::spec_pop_stack;
use crate::stack::spec_pop_stack16;
use crate::stack::spec_pop_stack16_value;
use crate::stack::spec_pop_stack_value;
use crate::util::spec_wrapping_add16;

verus! {

/// State transition of rotate-left: the operand shifts left one bit, the
/// prior carry fills bit 0, the old bit 7 becomes the new carry, and the
/// zero and negative flags follow the rotated result.
pub open spec fn spec_rol(m: CpuModel) -> CpuModel {
    let i = m.instr.unwrap();
    let v = spec_read_write_target(m, i.write_target);
    let r = ((2 * v + (if m.regs.carry { 1int } else { 0 })) % 256) as u8;
    let stored = spec_store_write_target(m, r, i.write_target);
    CpuModel {
        regs: spec_with_zero_negative(CpuRegister { carry: v >= 128, ..stored.regs }, r),
        ..stored
    }
}

/// State transition of rotate-right: the operand shifts right one bit, the
/// prior carry fills bit 7, the old bit 0 becomes the new carry, and the
/// zero and negative flags follow the rotated result.
pub open spec fn spec_ror(m: CpuModel) -> CpuModel {
    let i = m.instr.unwrap();
    let v = spec_read_write_target(m, i.write_target);
    let r = (v / 2 + (if m.regs.carry { 128int } else { 0 })) as u8;
    let stored = spec_store_write_target(m, r, i.write_target);
    CpuModel {
        regs: spec_with_zero_negative(CpuRegister { carry: v % 2 == 1, ..stored.regs }, r),
        ..stored
    }
}

/// State transition of return-from-interrupt: the six flags are reloaded
/// from the first popped byte, then the program counter is popped.
pub open spec fn spec_rti(m: CpuModel) -> CpuModel {
    let flags = spec_pop_stack_value(m);
    let popped = spec_pop_stack(m);
    let restored = CpuModel { regs: spec_status_from_byte(popped.regs, flags), ..popped };
    let pc = spec_pop_stack16_value(restored);
    let done = spec_pop_stack16(restored);
    CpuModel { regs: CpuRegister { pc: pc, ..done.regs }, ..done }
}

/// State transition of return-from-subroutine: the program counter becomes
/// the popped address plus one.
pub open spec fn spec_rts(m: CpuModel) -> CpuModel {
    let pc = spec_pop_stack16_value(m);
    let done = spec_pop_stack16(m);
    CpuModel { regs: CpuRegister { pc: spec_wrapping_add16(pc, 1), ..done.regs }, ..done }
}

impl Cpu6502 {
    /// ROL: rotates the operand (memory or accumulator) one bit left
    /// through the carry flag: the prior carry fills bit 0 and the old bit
    /// 7 becomes the new carry.
    #[allow(non_snake_case)]
    pub fn ROL(&mut self) -> (r: Result<(), CpuError>)
        requires
            old(self)@.wf(),
            old(self)@.instr is Some,
        ensures
            r is Ok,
            final(self)@ == spec_rol(old(self)@),
            final(self)@.wf(),
    {
        let instr = self.instr.unwrap();
        let old_carry: u8 = if self.registers.carry { 1 } else { 0 };
        let v = match self.read_write_target(instr.write_target) {
            Ok(b) => b,
            Err(e) => { return Err(e); },
        };
        let result = v.wrapping_mul(2).wrapping_add(old_carry);
        proof {
            assert(self@ == old(self)@);
        }
        self.registers.carry = v >= 0x80;
        let r = self.store_write_target(result, instr.write_target);
        if r.is_err() {
            return r;
        }
        self.update_zero_and_negative_flags(result);
        proof {
            assert(self@ =~= spec_rol(old(self)@));
        }
        Ok(())
    }

    /// ROR: rotates the operand (memory or accumulator) one bit right
    /// through the carry flag: the prior carry fills bit 7 and the old bit
    /// 0 becomes the new carry.
    #[allow(non_snake_case)]
    pub fn ROR(&mut self) -> (r: Result<(), CpuError>)
        requires
            old(self)@.wf(),
            old(self)@.instr is Some,
        ensures
            r is Ok,
            final(self)@ == spec_ror(old(self)@),
            final(self)@.wf(),
    {
        let instr = self.instr.unwrap();
        let old_carry: u8 = if self.registers.carry { 128 } else { 0 };
        let v = match self.read_write_target(instr.write_target) {
            Ok(b) => b,
            Err(e) => { return Err(e); },
        };
        let result = v / 2 + old_carry;
        self.registers.carry = v % 2 == 1;
        let r = self.store_write_target(result, instr.write_target);
        if r.is_err() {
            return r;
        }
        self.update_zero_and_negative_flags(result);
        proof {
            assert(self@ =~= spec_ror(old(self)@));
        }
        Ok(())
    }

    /// RTI: pops the packed status byte and reloads the flags from it, then
    /// pops the program counter.
    #[allow(non_snake_case)]
    pub fn RTI(&mut self) -> (r: Result<(), CpuError>)
        requires
            old(self)@.wf(),
        ensures
            r is Ok,
            final(self)@ == spec_rti(old(self)@),
            final(self)@.wf(),
    {
        let flags = match self.pop_stack() {
            Ok(b) => b,
            Err(e) => { return Err(e); },
        };
        self.set_status_register_from_byte(flags);
        let pc = match self.pop_stack16() {
            Ok(v) => v,
            Err(e) => { return Err(e); },
        };
        self.registers.pc = pc;
        proof {
            assert(self@ =~= spec_rti(old(self)@));
        }
        Ok(())
    }

    /// RTS: pops the return address and resumes one byte past it, which is
    /// the instruction following the original call.
    #[allow(non_snake_case)]
    pub fn RTS(&mut self) -> (r: Result<(), CpuError>)
        requires
            old(self)@.wf(),
        ensures
            r is Ok,
            final(self)@ == spec_rts(old(self)@),
            final(self)@.wf(),
    {
        let sv = match self.pop_stack16() {
            Ok(v) => v,
            Err(e) => { return Err(e); },
        };
        self.registers.pc = sv.wrapping_add(1);
        proof {
            assert(self@ =~= spec_rts(old(self)@));
        }
        Ok(())
    }
}

} // verus!
