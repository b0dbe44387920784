//! The processor's register file: accumulator, two index registers, program
//! counter, stack pointer, and the six condition flags.

use vstd::prelude::*;
use crate::constant::ADDRESS_TEST_PROGRAM;
use crate::constant::SP_ADDRESS_RESET;

verus! {

/// All processor registers. Flags are held unpacked; the packed status-byte
/// encoding is produced on demand by `Cpu6502::status_register_byte`.
#[derive(Clone, Copy, Debug, PartialEq, Eq)]
pub struct CpuRegister {
    /// accumulator (8-bit)
    pub a: u8,
    /// index X (8-bit)
    pub x: u8,
    /// index Y (8-bit)
    pub y: u8,
    /// program counter (16-bit)
    pub pc: u16,
    /// stack pointer (8-bit offset into the stack page)
    pub sp: u8,
    /// carry flag (status bit 0)
    pub carry: bool,
    /// zero flag (status bit 1)
    pub zero: bool,
    /// interrupt-disable flag (status bit 2)
    pub interrupt_disabled: bool,
    /// decimal flag (status bit 3)
    pub decimal: bool,
    /// overflow flag (status bit 6)
    pub overflow: bool,
    /// negative flag (status bit 7)
    pub negative: bool,
}

impl Default for CpuRegister {
    /// Power-on register values: everything cleared, the program counter at
    /// the test-program load address and the stack pointer at its reset value.
    fn default() -> (r: CpuRegister)
        ensures
            r == CpuRegister::power_on(),
    {
        CpuRegister {
            a: 0,
            x: 0,
            y: 0,
            pc: ADDRESS_TEST_PROGRAM,
            sp: SP_ADDRESS_RESET,
            carry: false,
            zero: false,
            interrupt_disabled: false,
            decimal: false,
            overflow: false,
            negative: false,
        }
    }
}

impl CpuRegister {
    /// The register values a freshly constructed processor holds.
    pub open spec fn power_on() -> CpuRegister {
        CpuRegister {
            a: 0,
            x: 0,
            y: 0,
            pc: ADDRESS_TEST_PROGRAM,
            sp: SP_ADDRESS_RESET,
            carry: false,
            zero: false,
            interrupt_disabled: false,
            decimal: false,
            overflow: false,
            negative: false,
        }
    }
}

} // verus!
