//! The instruction executor: one handler per operation tag. Each handler
//! reads the current decoded instruction's resolved operand and address,
//! mutates registers and memory, and updates exactly the flags defined for
//! that operation.

use vstd::prelude::*;
use crate::cpu::CpuModel;
use crate::instruction::CpuInstruction;

pub mod axx;
pub mod bxx;
pub mod cxx;
pub mod dxx;
pub mod exx;
pub mod ixx;
pub mod jxx;
pub mod lxx;
pub mod nxx;
pub mod oxx;
pub mod pxx;
pub mod rxx;
pub mod sxx;
pub mod txx;

verus! {

/// The current instruction's operand, narrowed back to the byte most
/// handlers consume.
pub open spec fn spec_operand_byte(i: CpuInstruction) -> u8 {
    (i.mode_args as int % 256) as u8
}

/// The value of a byte read as a signed 8-bit quantity (two's complement).
pub open spec fn spec_signed(v: u8) -> int {
    if v >= 128 {
        v - 256
    } else {
        v as int
    }
}

/// The operand byte of the instruction a processor state is executing.
pub open spec fn spec_cur_operand(m: CpuModel) -> u8 {
    spec_operand_byte(m.instr.unwrap())
}

} // verus!
