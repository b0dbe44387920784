//! The register transfer family.

use vstd::prelude::*;
use crate::cpu::Cpu6502;
use crate::cpu::CpuError;
use crate::cpu::CpuModel;
use crate::cpu::spec_with_zero_negative;
use crate::register::CpuRegister;

verus! {

/// State transition of transfer-accumulator-to-X.
pub open spec fn spec_tax(m: CpuModel) -> CpuModel {
    CpuModel {
        regs: spec_with_zero_negative(CpuRegister { x: m.regs.a, ..m.regs }, m.regs.a),
        ..m
    }
}

/// State transition of transfer-X-to-accumulator.
pub open spec fn spec_txa(m: CpuModel) -> CpuModel {
    CpuModel {
        regs: spec_with_zero_negative(CpuRegister { a: m.regs.x, ..m.regs }, m.regs.x),
        ..m
    }
}

/// State transition of transfer-accumulator-to-Y.
pub open spec fn spec_tay(m: CpuModel) -> CpuModel {
    CpuModel {
        regs: spec_with_zero_negative(CpuRegister { y: m.regs.a, ..m.regs }, m.regs.a),
        ..m
    }
}

/// State transition of transfer-Y-to-accumulator.
pub open spec fn spec_tya(m: CpuModel) -> CpuModel {
    CpuModel {
        regs: spec_with_zero_negative(CpuRegister { a: m.regs.y, ..m.regs }, m.regs.y),
        ..m
    }
}

/// State transition of transfer-X-to-stack-pointer: no flags change.
pub open spec fn spec_txs(m: CpuModel) -> CpuModel {
    CpuModel { regs: CpuRegister { sp: m.regs.x, ..m.regs }, ..m }
}

/// State transition of transfer-stack-pointer-to-X.
pub open spec fn spec_tsx(m: CpuModel) -> CpuModel {
    CpuModel {
        regs: spec_with_zero_negative(CpuRegister { x: m.regs.sp, ..m.regs }, m.regs.sp),
        ..m
    }
}

impl Cpu6502 {
    /// TAX: copies the accumulator into index X; the zero and negative
    /// flags follow the copied byte.
    #[allow(non_snake_case)]
    pub fn TAX(&mut self) -> (r: Result<(), CpuError>)
        ensures
            r is Ok,
            final(self)@ == spec_tax(old(self)@),
    {
        self.registers.x = self.registers.a;
        let x = self.registers.x;
        self.update_zero_and_negative_flags(x);
        proof {
            assert(self@ =~= spec_tax(old(self)@));
        }
        Ok(())
    }

    /// TXA: copies index X into the accumulator; the zero and negative
    /// flags follow the copied byte.
    #[allow(non_snake_case)]
    pub fn TXA(&mut self) -> (r: Result<(), CpuError>)
        ensures
            r is Ok,
            final(self)@ == spec_txa(old(self)@),
    {
        self.registers.a = self.registers.x;
        let a = self.registers.a;
        self.update_zero_and_negative_flags(a);
        proof {
            assert(self@ =~= spec_txa(old(self)@));
        }
        Ok(())
    }

    /// TAY: copies the accumulator into index Y; the zero and negative
    /// flags follow the copied byte.
    #[allow(non_snake_case)]
    pub fn TAY(&mut self) -> (r: Result<(), CpuError>)
        ensures
            r is Ok,
            final(self)@ == spec_tay(old(self)@),
    {
        self.registers.y = self.registers.a;
        let y = self.registers.y;
        self.update_zero_and_negative_flags(y);
        proof {
            assert(self@ =~= spec_tay(old(self)@));
        }
        Ok(())
    }

    /// TYA: copies index Y into the accumulator; the zero and negative
    /// flags follow the copied byte.
    #[allow(non_snake_case)]
    pub fn TYA(&mut self) -> (r: Result<(), CpuError>)
        ensures
            r is Ok,
            final(self)@ == spec_tya(old(self)@),
    {
        self.registers.a = self.registers.y;
        let a = self.registers.a;
        self.update_zero_and_negative_flags(a);
        proof {
            assert(self@ =~= spec_tya(old(self)@));
        }
        Ok(())
    }

    /// TXS: copies index X into the stack pointer; no flags change.
    #[allow(non_snake_case)]
    pub fn TXS(&mut self) -> (r: Result<(), CpuError>)
        ensures
            r is Ok,
            final(self)@ == spec_txs(old(self)@),
    {
        self.registers.sp = self.registers.x;
        proof {
            assert(self@ =~= spec_txs(old(self)@));
        }
        Ok(())
    }

    /// TSX: copies the stack pointer into index X; the zero and negative
    /// flags follow the copied byte.
    #[allow(non_snake_case)]
    pub fn TSX(&mut self) -> (r: Result<(), CpuError>)
        ensures
            r is Ok,
            final(self)@ == spec_tsx(old(self)@),
    {
        self.registers.x = self.registers.sp;
        let x = self.registers.x;
        self.update_zero_and_negative_flags(x);
        proof {
            assert(self@ =~= spec_tsx(old(self)@));
        }
        Ok(())
    }
}

} // verus!
