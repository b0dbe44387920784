//! The decoded-instruction value assembled once per fetch cycle from the
//! opcode table and the addressing-mode resolver.

use vstd::prelude::*;
use crate::address::AddressingMode;
use crate::opcode::Operation;

verus! {

/// Number of clock cycles an instruction costs.
pub type CycleCount = u8;

/// One decoded instruction. Ephemeral: it is rebuilt by every fetch step and
/// must not persist stale state across steps.
#[derive(Clone, Copy, Debug, PartialEq, Eq)]
pub struct CpuInstruction {
    /// operation selected by the opcode byte
    pub opcode: Operation,
    /// base cycle cost from the opcode table
    pub cycle: CycleCount,
    /// addressing mode selected by the opcode byte
    pub address_mode: AddressingMode,
    /// 1 when the opcode is eligible for the page-crossing extra cycle
    pub extra_cycle: CycleCount,
    /// resolved operand value, widened to 16 bits
    pub mode_args: u16,
    /// resolved effective address; `None` for implicit and accumulator modes
    pub write_target: Option<u16>,
}

} // verus!
