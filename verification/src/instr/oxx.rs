//! Inclusive OR.

use vstd::prelude::*;
use crate::cpu::Cpu6502;
use crate::cpu::CpuError;
use crate::cpu::CpuModel;
use crate::cpu::spec_with_zero_negative;
use crate::instr::spec_cur_operand;
use crate::register::CpuRegister;

verus! {

/// State transition of inclusive-OR: the accumulator becomes its bitwise OR
/// with the operand byte, and the zero and negative flags follow.
pub open spec fn spec_ora(m: CpuModel) -> CpuModel {
    let r = m.regs.a | spec_cur_operand(m);
    CpuModel { regs: spec_with_zero_negative(CpuRegister { a: r, ..m.regs }, r), ..m }
}

impl Cpu6502 {
    /// ORA: an inclusive OR, bit by bit, of the accumulator with the
    /// operand byte; the zero and negative flags follow the result.
    #[allow(non_snake_case)]
    pub fn ORA(&mut self) -> (r: Result<(), CpuError>)
        requires
            old(self)@.instr is Some,
        ensures
            r is Ok,
            final(self)@ == spec_ora(old(self)@),
    {
        let instr = self.instr.unwrap();
        let v = (instr.mode_args % 256) as u8;
        self.registers.a = self.registers.a | v;
        self.update_accumulator_flags();
        proof {
            assert(self@ =~= spec_ora(old(self)@));
        }
        Ok(())
    }
}

} // verus!
