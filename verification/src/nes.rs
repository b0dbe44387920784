//! The console: a processor and a video chip, each owning its own address
//! space.

use vstd::prelude::*;
use crate::cpu::Cpu6502;
use crate::ppu::Ppu;
use crate::register::CpuRegister;

verus! {

/// The whole console: the processor and the video chip.
#[derive(Debug)]
pub struct NesEmulator {
    /// the central processor
    pub cpu: Cpu6502,
    /// the video chip
    pub ppu: Ppu,
}

impl Default for NesEmulator {
    /// A powered-on console: both components in their power-on state.
    fn default() -> (r: NesEmulator)
        ensures
            r.cpu@.wf(),
            r.cpu@.regs == CpuRegister::power_on(),
            r.cpu@.clocks == 0,
            r.cpu@.instr is None,
            r.ppu.wf(),
    {
        NesEmulator { cpu: Cpu6502::default(), ppu: Ppu::default() }
    }
}

} // verus!
