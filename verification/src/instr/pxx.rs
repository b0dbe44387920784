//! The stack push/pull operations.

use vstd::prelude::*;
use crate::cpu::Cpu6502;
use crate::cpu::CpuError;
use crate::cpu::CpuModel;
use crate::cpu::spec_status_byte;
use crate::cpu::spec_status_from_byte;
use crate::cpu::spec_with_zero_negative;
use crate::register::CpuRegister;
use crate::stack::spec_pop_stack;
use crate::stack::spec_pop_stack_value;
use crate::stack::spec_push_stack;

verus! {

/// State transition of push-accumulator.
pub open spec fn spec_pha(m: CpuModel) -> CpuModel {
    spec_push_stack(m, m.regs.a)
}

/// State transition of push-processor-status: the packed status byte, with
/// bit 5 marking an instruction-pushed status, lands on the stack.
pub open spec fn spec_php(m: CpuModel) -> CpuModel {
    spec_push_stack(m, spec_status_byte(m.regs, true))
}

/// State transition of pull-accumulator: the accumulator takes the popped
/// byte, and the zero and negative flags follow it.
pub open spec fn spec_pla(m: CpuModel) -> CpuModel {
    let v = spec_pop_stack_value(m);
    let popped = spec_pop_stack(m);
    CpuModel { regs: spec_with_zero_negative(CpuRegister { a: v, ..popped.regs }, v), ..popped }
}

/// State transition of pull-processor-status: the six flags are reloaded
/// from the popped byte.
pub open spec fn spec_plp(m: CpuModel) -> CpuModel {
    let v = spec_pop_stack_value(m);
    let popped = spec_pop_stack(m);
    CpuModel { regs: spec_status_from_byte(popped.regs, v), ..popped }
}

impl Cpu6502 {
    /// PHA: pushes the accumulator onto the stack.
    #[allow(non_snake_case)]
    pub fn PHA(&mut self) -> (r: Result<(), CpuError>)
        requires
            old(self)@.wf(),
        ensures
            r is Ok,
            final(self)@ == spec_pha(old(self)@),
            final(self)@.wf(),
    {
        let a = self.registers.a;
        self.push_stack(a)
    }

    /// PHP: pushes the packed processor status onto the stack, with bit 5
    /// marking an instruction-pushed status.
    #[allow(non_snake_case)]
    pub fn PHP(&mut self) -> (r: Result<(), CpuError>)
        requires
            old(self)@.wf(),
        ensures
            r is Ok,
            final(self)@ == spec_php(old(self)@),
            final(self)@.wf(),
    {
        let status = self.status_register_byte(true);
        self.push_stack(status)
    }

    /// PLA: pulls a byte from the stack into the accumulator; the zero and
    /// negative flags follow the pulled byte.
    #[allow(non_snake_case)]
    pub fn PLA(&mut self) -> (r: Result<(), CpuError>)
        requires
            old(self)@.wf(),
        ensures
            r is Ok,
            final(self)@ == spec_pla(old(self)@),
            final(self)@.wf(),
    {
        let v = match self.pop_stack() {
            Ok(b) => b,
            Err(e) => { return Err(e); },
        };
        self.registers.a = v;
        self.update_accumulator_flags();
        proof {
            assert(self@ =~= spec_pla(old(self)@));
        }
        Ok(())
    }

    /// PLP: pulls a byte from the stack and reloads the six flags from it.
    #[allow(non_snake_case)]
    pub fn PLP(&mut self) -> (r: Result<(), CpuError>)
        requires
            old(self)@.wf(),
        ensures
            r is Ok,
            final(self)@ == spec_plp(old(self)@),
            final(self)@.wf(),
    {
        let val = match self.pop_stack() {
            Ok(b) => b,
            Err(e) => { return Err(e); },
        };
        self.set_status_register_from_byte(val);
        proof {
            assert(self@ =~= spec_plp(old(self)@));
        }
        Ok(())
    }
}

} // verus!
