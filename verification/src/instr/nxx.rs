//! No operation.

use vstd::prelude::*;
use crate::cpu::Cpu6502;
use crate::cpu::CpuError;
use crate::cpu::CpuModel;

verus! {

/// State transition of no-operation: none.
pub open spec fn spec_nop(m: CpuModel) -> CpuModel {
    m
}

impl Cpu6502 {
    /// NOP: changes nothing besides the normal advance of the program
    /// counter performed by the execution loop.
    #[allow(non_snake_case)]
    pub fn NOP(&mut self) -> (r: Result<(), CpuError>)
        ensures
            r is Ok,
            final(self)@ == spec_nop(old(self)@),
    {
        Ok(())
    }
}

} // verus!
