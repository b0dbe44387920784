//! Flag-clear operations and the compare family.

use vstd::prelude::*;
use crate::cpu::Cpu6502;
use crate::cpu::CpuError;
use crate::cpu::CpuModel;
use crate::cpu::spec_with_zero_negative;
use crate::register::CpuRegister;
use crate::util::spec_wrapping_sub16;

verus! {

/// State transition of clear-carry.
pub open spec fn spec_clc(m: CpuModel) -> CpuModel {
    CpuModel { regs: CpuRegister { carry: false, ..m.regs }, ..m }
}

/// State transition of clear-decimal.
pub open spec fn spec_cld(m: CpuModel) -> CpuModel {
    CpuModel { regs: CpuRegister { decimal: false, ..m.regs }, ..m }
}

/// State transition of clear-interrupt-disable.
pub open spec fn spec_cli(m: CpuModel) -> CpuModel {
    CpuModel { regs: CpuRegister { interrupt_disabled: false, ..m.regs }, ..m }
}

/// State transition of clear-overflow.
pub open spec fn spec_clv(m: CpuModel) -> CpuModel {
    CpuModel { regs: CpuRegister { overflow: false, ..m.regs }, ..m }
}

/// State transition of a compare: an unsigned subtraction whose result is
/// not stored. Carry reports register >= operand; the zero and negative
/// flags follow the low byte of the subtraction.
pub open spec fn spec_execute_cmp(m: CpuModel, a: u16, b: u16) -> CpuModel {
    let r = (spec_wrapping_sub16(a, b) as int % 256) as u8;
    CpuModel { regs: spec_with_zero_negative(CpuRegister { carry: a >= b, ..m.regs }, r), ..m }
}

/// State transition of compare-with-accumulator.
pub open spec fn spec_cmp(m: CpuModel) -> CpuModel {
    spec_execute_cmp(m, m.regs.a as u16, m.instr.unwrap().mode_args)
}

/// State transition of compare-with-X.
pub open spec fn spec_cpx(m: CpuModel) -> CpuModel {
    spec_execute_cmp(m, m.regs.x as u16, m.instr.unwrap().mode_args)
}

/// State transition of compare-with-Y.
pub open spec fn spec_cpy(m: CpuModel) -> CpuModel {
    spec_execute_cmp(m, m.regs.y as u16, m.instr.unwrap().mode_args)
}

impl Cpu6502 {
    /// CLC: clears the carry flag.
    #[allow(non_snake_case)]
    pub fn CLC(&mut self) -> (r: Result<(), CpuError>)
        ensures
            r is Ok,
            final(self)@ == spec_clc(old(self)@),
    {
        self.registers.carry = false;
        proof {
            assert(self@ =~= spec_clc(old(self)@));
        }
        Ok(())
    }

    /// CLD: clears the decimal flag.
    #[allow(non_snake_case)]
    pub fn CLD(&mut self) -> (r: Result<(), CpuError>)
        ensures
            r is Ok,
            final(self)@ == spec_cld(old(self)@),
    {
        self.registers.decimal = false;
        proof {
            assert(self@ =~= spec_cld(old(self)@));
        }
        Ok(())
    }

    /// CLI: clears the interrupt-disable flag, allowing normal interrupt
    /// requests to be serviced.
    #[allow(non_snake_case)]
    pub fn CLI(&mut self) -> (r: Result<(), CpuError>)
        ensures
            r is Ok,
            final(self)@ == spec_cli(old(self)@),
    {
        self.registers.interrupt_disabled = false;
        proof {
            assert(self@ =~= spec_cli(old(self)@));
        }
        Ok(())
    }

    /// CLV: clears the overflow flag.
    #[allow(non_snake_case)]
    pub fn CLV(&mut self) -> (r: Result<(), CpuError>)
        ensures
            r is Ok,
            final(self)@ == spec_clv(old(self)@),
    {
        self.registers.overflow = false;
        proof {
            assert(self@ =~= spec_clv(old(self)@));
        }
        Ok(())
    }

    /// Shared compare: an unsigned subtraction without storing the result.
    /// Carry reports `a >= b`; the zero and negative flags follow the low
    /// byte of the subtraction.
    pub fn execute_cmp(&mut self, a: u16, b: u16)
        ensures
            final(self)@ == spec_execute_cmp(old(self)@, a, b),
    {
        let result = a.wrapping_sub(b);
        self.registers.carry = a >= b;
        self.update_zero_and_negative_flags((result % 256) as u8);
        proof {
            assert(self@ =~= spec_execute_cmp(old(self)@, a, b));
        }
    }

    /// CMP: compares the accumulator with the operand and sets the carry,
    /// zero and negative flags accordingly.
    #[allow(non_snake_case)]
    pub fn CMP(&mut self) -> (r: Result<(), CpuError>)
        requires
            old(self)@.instr is Some,
        ensures
            r is Ok,
            final(self)@ == spec_cmp(old(self)@),
    {
        let instr = self.instr.unwrap();
        let a = self.registers.a;
        self.execute_cmp(a as u16, instr.mode_args);
        Ok(())
    }

    /// CPX: compares index X with the operand and sets the carry, zero and
    /// negative flags accordingly.
    #[allow(non_snake_case)]
    pub fn CPX(&mut self) -> (r: Result<(), CpuError>)
        requires
            old(self)@.instr is Some,
        ensures
            r is Ok,
            final(self)@ == spec_cpx(old(self)@),
    {
        let instr = self.instr.unwrap();
        let x = self.registers.x;
        self.execute_cmp(x as u16, instr.mode_args);
        Ok(())
    }

    /// CPY: compares index Y with the operand and sets the carry, zero and
    /// negative flags accordingly.
    #[allow(non_snake_case)]
    pub fn CPY(&mut self) -> (r: Result<(), CpuError>)
        requires
            old(self)@.instr is Some,
        ensures
            r is Ok,
            final(self)@ == spec_cpy(old(self)@),
    {
        let instr = self.instr.unwrap();
        let y = self.registers.y;
        self.execute_cmp(y as u16, instr.mode_args);
        Ok(())
    }
}

} // verus!
