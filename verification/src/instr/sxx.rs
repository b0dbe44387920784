//! The store family, subtract-with-carry, and the flag-set operations.

use vstd::prelude::*;
use crate::cpu::Cpu6502;
use crate::cpu::CpuError;
use crate::cpu::CpuModel;
use crate::cpu::spec_with_zero_negative;
use crate::instr::spec_cur_operand;
use crate::instr::spec_signed;
use crate::mem::spec_mem_write;
use crate::register::CpuRegister;

verus! {

/// The 8-bit wrapping difference of a subtract-with-carry, where carry-in
/// set means "no borrow".
pub open spec fn spec_sbc_result(a: u8, v: u8, carry_in: bool) -> u8 {
    ((a - v - (if carry_in { 0int } else { 1 }) + 512) % 256) as u8
}

/// Carry-out of a subtract-with-carry: set when no borrow occurred, that
/// is, the subtraction did not go below zero.
pub open spec fn spec_sbc_carry(a: u8, v: u8, carry_in: bool) -> bool {
    a - v - (if carry_in { 0int } else { 1 }) >= 0
}

/// Overflow flag of a subtract-with-carry: the signed 8-bit difference,
/// computed in a wider signed representation, falls outside -128..127.
pub open spec fn spec_sbc_overflow(a: u8, v: u8, carry_in: bool) -> bool {
    let s = spec_signed(a) - spec_signed(v) - (if carry_in { 0int } else { 1 });
    s < -128 || s > 127
}

/// State transition of subtract-with-carry.
pub open spec fn spec_sbc(m: CpuModel) -> CpuModel {
    let v = spec_cur_operand(m);
    let a = m.regs.a;
    let c = m.regs.carry;
    let r = spec_sbc_result(a, v, c);
    CpuModel {
        regs: spec_with_zero_negative(
            CpuRegister {
                a: r,
                carry: spec_sbc_carry(a, v, c),
                overflow: spec_sbc_overflow(a, v, c),
                ..m.regs
            },
            r,
        ),
        ..m
    }
}

/// State transition of store-accumulator.
pub open spec fn spec_sta(m: CpuModel) -> CpuModel {
    spec_mem_write(m, m.instr.unwrap().write_target.unwrap(), m.regs.a)
}

/// State transition of store-X.
pub open spec fn spec_stx(m: CpuModel) -> CpuModel {
    spec_mem_write(m, m.instr.unwrap().write_target.unwrap(), m.regs.x)
}

/// State transition of store-Y.
pub open spec fn spec_sty(m: CpuModel) -> CpuModel {
    spec_mem_write(m, m.instr.unwrap().write_target.unwrap(), m.regs.y)
}

/// State transition of set-carry.
pub open spec fn spec_sec(m: CpuModel) -> CpuModel {
    CpuModel { regs: CpuRegister { carry: true, ..m.regs }, ..m }
}

/// State transition of set-decimal.
pub open spec fn spec_sed(m: CpuModel) -> CpuModel {
    CpuModel { regs: CpuRegister { decimal: true, ..m.regs }, ..m }
}

/// State transition of set-interrupt-disable.
pub open spec fn spec_sei(m: CpuModel) -> CpuModel {
    CpuModel { regs: CpuRegister { interrupt_disabled: true, ..m.regs }, ..m }
}

impl Cpu6502 {
    /// STA: stores the accumulator at the resolved target address.
    #[allow(non_snake_case)]
    pub fn STA(&mut self) -> (r: Result<(), CpuError>)
        requires
            old(self)@.wf(),
            old(self)@.instr is Some,
            old(self)@.instr.unwrap().write_target is Some,
        ensures
            r is Ok,
            final(self)@ == spec_sta(old(self)@),
            final(self)@.wf(),
    {
        let instr = self.instr.unwrap();
        let addr = instr.write_target.unwrap();
        let a = self.registers.a;
        self.mem_write(addr, a)
    }

    /// STX: stores index X at the resolved target address.
    #[allow(non_snake_case)]
    pub fn STX(&mut self) -> (r: Result<(), CpuError>)
        requires
            old(self)@.wf(),
            old(self)@.instr is Some,
            old(self)@.instr.unwrap().write_target is Some,
        ensures
            r is Ok,
            final(self)@ == spec_stx(old(self)@),
            final(self)@.wf(),
    {
        let instr = self.instr.unwrap();
        let addr = instr.write_target.unwrap();
        let x = self.registers.x;
        self.mem_write(addr, x)
    }

    /// STY: stores index Y at the resolved target address.
    #[allow(non_snake_case)]
    pub fn STY(&mut self) -> (r: Result<(), CpuError>)
        requires
            old(self)@.wf(),
            old(self)@.instr is Some,
            old(self)@.instr.unwrap().write_target is Some,
        ensures
            r is Ok,
            final(self)@ == spec_sty(old(self)@),
            final(self)@.wf(),
    {
        let instr = self.instr.unwrap();
        let addr = instr.write_target.unwrap();
        let y = self.registers.y;
        self.mem_write(addr, y)
    }

    /// SBC: subtracts the operand and the borrow (the complement of the
    /// carry flag) from the accumulator. Carry-out reports that no borrow
    /// occurred; the overflow flag reports signed 8-bit overflow of the
    /// difference.
    #[allow(non_snake_case)]
    pub fn SBC(&mut self) -> (r: Result<(), CpuError>)
        requires
            old(self)@.wf(),
            old(self)@.instr is Some,
        ensures
            r is Ok,
            final(self)@ == spec_sbc(old(self)@),
            final(self)@.wf(),
    {
        let instr = self.instr.unwrap();
        let v = (instr.mode_args % 256) as u8;
        let a = self.registers.a;
        let borrow: i32 = if self.registers.carry { 0 } else { 1 };
        let t: i32 = a as i32 - v as i32 - borrow;
        self.registers.carry = t >= 0;
        let signed_diff: i32 = (if a >= 128 { a as i32 - 256 } else { a as i32 })
            - (if v >= 128 { v as i32 - 256 } else { v as i32 }) - borrow;
        self.registers.overflow = signed_diff < -128 || signed_diff > 127;
        self.registers.a = ((t + 512) % 256) as u8;
        self.update_accumulator_flags();
        proof {
            assert(self@ =~= spec_sbc(old(self)@));
        }
        Ok(())
    }

    /// SEC: sets the carry flag.
    #[allow(non_snake_case)]
    pub fn SEC(&mut self) -> (r: Result<(), CpuError>)
        ensures
            r is Ok,
            final(self)@ == spec_sec(old(self)@),
    {
        self.registers.carry = true;
        proof {
            assert(self@ =~= spec_sec(old(self)@));
        }
        Ok(())
    }

    /// SED: sets the decimal flag.
    #[allow(non_snake_case)]
    pub fn SED(&mut self) -> (r: Result<(), CpuError>)
        ensures
            r is Ok,
            final(self)@ == spec_sed(old(self)@),
    {
        self.registers.decimal = true;
        proof {
            assert(self@ =~= spec_sed(old(self)@));
        }
        Ok(())
    }

    /// SEI: sets the interrupt-disable flag.
    #[allow(non_snake_case)]
    pub fn SEI(&mut self) -> (r: Result<(), CpuError>)
        ensures
            r is Ok,
            final(self)@ == spec_sei(old(self)@),
    {
        self.registers.interrupt_disabled = true;
        proof {
            assert(self@ =~= spec_sei(old(self)@));
        }
        Ok(())
    }
}

} // verus!
