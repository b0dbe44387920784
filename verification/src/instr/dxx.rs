//! The decrement family.

use vstd::prelude::*;
use crate::cpu::Cpu6502;
use crate::cpu::CpuError;
use crate::cpu::CpuModel;
use crate::cpu::spec_with_zero_negative;
use crate::mem::spec_store_write_target;
use crate::register::CpuRegister;
use crate::util::spec_wrapping_sub16;
use crate::util::spec_wrapping_sub8;

verus! {

/// State transition of decrement-memory: the operand minus one (low byte)
/// is stored back through the write target, and the zero and negative flags
/// follow the stored byte.
pub open spec fn spec_dec(m: CpuModel) -> CpuModel {
    let i = m.instr.unwrap();
    let value = (spec_wrapping_sub16(i.mode_args, 1) as int % 256) as u8;
    let stored = spec_store_write_target(m, value, i.write_target);
    CpuModel { regs: spec_with_zero_negative(stored.regs, value), ..stored }
}

/// State transition of decrement-X.
pub open spec fn spec_dex(m: CpuModel) -> CpuModel {
    let value = spec_wrapping_sub8(m.regs.x, 1);
    CpuModel { regs: spec_with_zero_negative(CpuRegister { x: value, ..m.regs }, value), ..m }
}

/// State transition of decrement-Y.
pub open spec fn spec_dey(m: CpuModel) -> CpuModel {
    let value = spec_wrapping_sub8(m.regs.y, 1);
    CpuModel { regs: spec_with_zero_negative(CpuRegister { y: value, ..m.regs }, value), ..m }
}

impl Cpu6502 {
    /// DEC: subtracts one from the operand, with 8-bit wraparound, and
    /// stores it back; the zero and negative flags follow the result.
    #[allow(non_snake_case)]
    pub fn DEC(&mut self) -> (r: Result<(), CpuError>)
        requires
            old(self)@.wf(),
            old(self)@.instr is Some,
        ensures
            r is Ok,
            final(self)@ == spec_dec(old(self)@),
            final(self)@.wf(),
    {
        let instr = self.instr.unwrap();
        let value = (instr.mode_args.wrapping_sub(1) % 256) as u8;
        let addr = instr.write_target;
        let r = self.store_write_target(value, addr);
        if r.is_err() {
            return r;
        }
        let reread = match self.read_write_target(addr) {
            Ok(b) => b,
            Err(e) => { return Err(e); },
        };
        self.update_zero_and_negative_flags(reread);
        proof {
            assert(self@ =~= spec_dec(old(self)@));
        }
        Ok(())
    }

    /// DEX: subtracts one from index X, with 8-bit wraparound; the zero and
    /// negative flags follow the result.
    #[allow(non_snake_case)]
    pub fn DEX(&mut self) -> (r: Result<(), CpuError>)
        ensures
            r is Ok,
            final(self)@ == spec_dex(old(self)@),
    {
        self.registers.x = self.registers.x.wrapping_sub(1);
        let x = self.registers.x;
        self.update_zero_and_negative_flags(x);
        proof {
            assert(self@ =~= spec_dex(old(self)@));
        }
        Ok(())
    }

    /// DEY: subtracts one from index Y, with 8-bit wraparound; the zero and
    /// negative flags follow the result.
    #[allow(non_snake_case)]
    pub fn DEY(&mut self) -> (r: Result<(), CpuError>)
        ensures
            r is Ok,
            final(self)@ == spec_dey(old(self)@),
    {
        self.registers.y = self.registers.y.wrapping_sub(1);
        let y = self.registers.y;
        self.update_zero_and_negative_flags(y);
        proof {
            assert(self@ =~= spec_dey(old(self)@));
        }
        Ok(())
    }
}

} // verus!
