//! Jump and call-subroutine.

use vstd::prelude::*;
use crate::cpu::Cpu6502;
use crate::cpu::CpuError;
use crate::cpu::CpuModel;
use crate::register::CpuRegister;
use crate::stack::spec_push_stack16;
use crate::util::spec_wrapping_sub16;

verus! {

/// State transition of jump: the program counter moves to the resolved
/// target address.
pub open spec fn spec_jmp(m: CpuModel) -> CpuModel {
    CpuModel { regs: CpuRegister { pc: m.instr.unwrap().write_target.unwrap(), ..m.regs }, ..m }
}

/// State transition of call-subroutine: the address of the last byte of the
/// call instruction (the already-advanced program counter minus one) is
/// pushed, high byte first, and the program counter moves to the target.
pub open spec fn spec_jsr(m: CpuModel) -> CpuModel {
    let pushed = spec_push_stack16(m, spec_wrapping_sub16(m.regs.pc, 1));
    CpuModel {
        regs: CpuRegister { pc: m.instr.unwrap().write_target.unwrap(), ..pushed.regs },
        ..pushed
    }
}

impl Cpu6502 {
    /// JMP: sets the program counter to the resolved target address.
    #[allow(non_snake_case)]
    pub fn JMP(&mut self) -> (r: Result<(), CpuError>)
        requires
            old(self)@.instr is Some,
            old(self)@.instr.unwrap().write_target is Some,
        ensures
            r is Ok,
            final(self)@ == spec_jmp(old(self)@),
    {
        let instr = self.instr.unwrap();
        self.registers.pc = instr.write_target.unwrap();
        proof {
            assert(self@ =~= spec_jmp(old(self)@));
        }
        Ok(())
    }

    /// JSR: pushes the return address minus one onto the stack, then sets
    /// the program counter to the resolved target address.
    #[allow(non_snake_case)]
    pub fn JSR(&mut self) -> (r: Result<(), CpuError>)
        requires
            old(self)@.wf(),
            old(self)@.instr is Some,
            old(self)@.instr.unwrap().write_target is Some,
        ensures
            r is Ok,
            final(self)@ == spec_jsr(old(self)@),
            final(self)@.wf(),
    {
        let instr = self.instr.unwrap();
        let ret = self.registers.pc.wrapping_sub(1);
        let r = self.push_stack16(ret);
        if r.is_err() {
            return r;
        }
        self.registers.pc = instr.write_target.unwrap();
        proof {
            assert(self@ =~= spec_jsr(old(self)@));
        }
        Ok(())
    }
}

} // verus!
