//! The increment family.

use vstd::prelude::*;
use crate::cpu::Cpu6502;
use crate::cpu::CpuError;
use crate::cpu::CpuModel;
use crate::cpu::spec_with_zero_negative;
use crate::mem::spec_store_write_target;
use crate::register::CpuRegister;
use crate::util::spec_wrapping_add16;
use crate::util::spec_wrapping_add8;

verus! {

/// State transition of increment-X.
pub open spec fn spec_inx(m: CpuModel) -> CpuModel {
    let value = spec_wrapping_add8(m.regs.x, 1);
    CpuModel { regs: spec_with_zero_negative(CpuRegister { x: value, ..m.regs }, value), ..m }
}

/// State transition of increment-Y.
pub open spec fn spec_iny(m: CpuModel) -> CpuModel {
    let value = spec_wrapping_add8(m.regs.y, 1);
    CpuModel { regs: spec_with_zero_negative(CpuRegister { y: value, ..m.regs }, value), ..m }
}

/// State transition of increment-memory: the operand plus one (low byte) is
/// stored back through the write target, and the zero and negative flags
/// follow the stored byte.
pub open spec fn spec_inc(m: CpuModel) -> CpuModel {
    let i = m.instr.unwrap();
    let value = (spec_wrapping_add16(i.mode_args, 1) as int % 256) as u8;
    let stored = spec_store_write_target(m, value, i.write_target);
    CpuModel { regs: spec_with_zero_negative(stored.regs, value), ..stored }
}

impl Cpu6502 {
    /// INX: adds one to index X, with 8-bit wraparound; the zero and
    /// negative flags follow the result.
    #[allow(non_snake_case)]
    pub fn INX(&mut self) -> (r: Result<(), CpuError>)
        ensures
            r is Ok,
            final(self)@ == spec_inx(old(self)@),
    {
        self.registers.x = self.registers.x.wrapping_add(1);
        let x = self.registers.x;
        self.update_zero_and_negative_flags(x);
        proof {
            assert(self@ =~= spec_inx(old(self)@));
        }
        Ok(())
    }

    /// INY: adds one to index Y, with 8-bit wraparound; the zero and
    /// negative flags follow the result.
    #[allow(non_snake_case)]
    pub fn INY(&mut self) -> (r: Result<(), CpuError>)
        ensures
            r is Ok,
            final(self)@ == spec_iny(old(self)@),
    {
        self.registers.y = self.registers.y.wrapping_add(1);
        let y = self.registers.y;
        self.update_zero_and_negative_flags(y);
        proof {
            assert(self@ =~= spec_iny(old(self)@));
        }
        Ok(())
    }

    /// INC: adds one to the operand, with 8-bit wraparound, and stores it
    /// back; the zero and negative flags follow the result.
    #[allow(non_snake_case)]
    pub fn INC(&mut self) -> (r: Result<(), CpuError>)
        requires
            old(self)@.wf(),
            old(self)@.instr is Some,
        ensures
            r is Ok,
            final(self)@ == spec_inc(old(self)@),
            final(self)@.wf(),
    {
        let instr = self.instr.unwrap();
        let value = (instr.mode_args.wrapping_add(1) % 256) as u8;
        let addr = instr.write_target;
        let r = self.store_write_target(value, addr);
        if r.is_err() {
            return r;
        }
        let reread = match self.read_write_target(addr) {
            Ok(b) => b,
            Err(e) => { return Err(e); },
        };
        self.update_zero_and_negative_flags(reread);
        proof {
            assert(self@ =~= spec_inc(old(self)@));
        }
        Ok(())
    }
}

} // verus!
