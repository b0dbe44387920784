//! The stack manager: push/pop primitives over the fixed stack page at
//! $0100-$01FF, addressed by the 8-bit stack pointer, which silently wraps
//! on overflow and underflow exactly as the hardware does.
//!
//! The 16-bit operations are composed of two 8-bit operations in a fixed
//! order: a push writes the high byte then the low byte; a pop reads the low
//! byte then the high byte. This order is load-bearing for subroutine and
//! interrupt return-address reconstruction.

use vstd::prelude::*;
use crate::constant::SP_BASE_ADDRESS;
use crate::cpu::Cpu6502;
use crate::cpu::CpuError;
use crate::cpu::CpuModel;
use crate::mem::spec_mem_read;
use crate::mem::spec_mem_write;
use crate::register::CpuRegister;
use crate::util::spec_wrapping_add8;
use crate::util::spec_wrapping_sub8;

verus! {

/// The stack page address the 8-bit stack pointer `sp` designates.
pub open spec fn spec_sp_offset(sp: u8) -> u16 {
    (0x0100 + sp) as u16
}

/// The state after one byte is pushed: the byte lands at the address the
/// stack pointer designates, then the pointer decrements with wraparound.
pub open spec fn spec_push_stack(m: CpuModel, val: u8) -> CpuModel {
    let written = spec_mem_write(m, spec_sp_offset(m.regs.sp), val);
    CpuModel {
        regs: CpuRegister { sp: spec_wrapping_sub8(m.regs.sp, 1), ..written.regs },
        ..written
    }
}

/// The state after one byte is popped: the pointer increments with
/// wraparound, then the byte at the address it designates is read.
pub open spec fn spec_pop_stack(m: CpuModel) -> CpuModel {
    CpuModel { regs: CpuRegister { sp: spec_wrapping_add8(m.regs.sp, 1), ..m.regs }, ..m }
}

/// The byte a pop returns.
pub open spec fn spec_pop_stack_value(m: CpuModel) -> u8 {
    spec_mem_read(m, spec_sp_offset(spec_wrapping_add8(m.regs.sp, 1)))
}

/// The state after a 16-bit push: high byte first, then low byte.
pub open spec fn spec_push_stack16(m: CpuModel, val: u16) -> CpuModel {
    spec_push_stack(spec_push_stack(m, (val as int / 256) as u8), (val as int % 256) as u8)
}

/// The state after a 16-bit pop: low byte first, then high byte.
pub open spec fn spec_pop_stack16(m: CpuModel) -> CpuModel {
    spec_pop_stack(spec_pop_stack(m))
}

/// The value a 16-bit pop returns: low byte first, then high byte.
pub open spec fn spec_pop_stack16_value(m: CpuModel) -> u16 {
    (spec_pop_stack_value(m) + 256 * spec_pop_stack_value(spec_pop_stack(m))) as u16
}

/// The stack page address the stack pointer offset designates.
pub fn get_sp_offset(sp: u8) -> (r: u16)
    ensures
        r == spec_sp_offset(sp),
{
    proof {
        assert(0x0100u16 | (sp as u16) == 0x0100 + (sp as u16)) by (bit_vector);
    }
    SP_BASE_ADDRESS | (sp as u16)
}

impl Cpu6502 {
    /// Pushes a byte onto the stack: writes at the current pointer, then
    /// decrements the pointer with wraparound.
    pub fn push_stack(&mut self, val: u8) -> (r: Result<(), CpuError>)
        requires
            old(self)@.wf(),
        ensures
            r is Ok,
            final(self)@ == spec_push_stack(old(self)@, val),
            final(self)@.wf(),
    {
        let addr = get_sp_offset(self.registers.sp);
        let r = self.mem_write(addr, val);
        if r.is_err() {
            return r;
        }
        self.registers.sp = self.registers.sp.wrapping_sub(1);
        proof {
            assert(self@ =~= spec_push_stack(old(self)@, val));
        }
        Ok(())
    }

    /// Pops a byte from the stack: increments the pointer with wraparound,
    /// then reads at the new pointer.
    pub fn pop_stack(&mut self) -> (r: Result<u8, CpuError>)
        requires
            old(self)@.wf(),
        ensures
            r == Ok::<u8, CpuError>(spec_pop_stack_value(old(self)@)),
            final(self)@ == spec_pop_stack(old(self)@),
            final(self)@.wf(),
    {
        self.registers.sp = self.registers.sp.wrapping_add(1);
        let addr = get_sp_offset(self.registers.sp);
        let v = match self.mem_read(addr) {
            Ok(b) => b,
            Err(e) => { return Err(e); },
        };
        proof {
            assert(self@ =~= spec_pop_stack(old(self)@));
        }
        Ok(v)
    }

    /// Pushes a 16-bit value: high byte first, then low byte.
    pub fn push_stack16(&mut self, val: u16) -> (r: Result<(), CpuError>)
        requires
            old(self)@.wf(),
        ensures
            r is Ok,
            final(self)@ == spec_push_stack16(old(self)@, val),
            final(self)@.wf(),
    {
        let hi = (val / 256) as u8;
        let lo = (val % 256) as u8;
        let r = self.push_stack(hi);
        if r.is_err() {
            return r;
        }
        self.push_stack(lo)
    }

    /// Pops a 16-bit value: low byte first, then high byte.
    pub fn pop_stack16(&mut self) -> (r: Result<u16, CpuError>)
        requires
            old(self)@.wf(),
        ensures
            r == Ok::<u16, CpuError>(spec_pop_stack16_value(old(self)@)),
            final(self)@ == spec_pop_stack16(old(self)@),
            final(self)@.wf(),
    {
        let lo = match self.pop_stack() {
            Ok(b) => b,
            Err(e) => { return Err(e); },
        };
        let hi = match self.pop_stack() {
            Ok(b) => b,
            Err(e) => { return Err(e); },
        };
        Ok(lo as u16 + 256 * hi as u16)
    }
}

} // verus!

verus! {

/// Stack round trip for one byte: a push followed by a pop returns the
/// pushed byte and restores every register, the stack pointer included.
pub proof fn lemma_stack_byte_round_trip(m: CpuModel, b: u8)
    requires
        m.wf(),
    ensures
        spec_pop_stack_value(spec_push_stack(m, b)) == b,
        spec_pop_stack(spec_push_stack(m, b)).regs == m.regs,
{
}

/// Stack round trip for 16-bit values: a 16-bit push followed by a 16-bit
/// pop returns the pushed value, for every value, and restores every
/// register, the stack pointer included.
pub proof fn lemma_stack16_round_trip(m: CpuModel, v: u16)
    requires
        m.wf(),
    ensures
        spec_pop_stack16_value(spec_push_stack16(m, v)) == v,
        spec_pop_stack16(spec_push_stack16(m, v)).regs == m.regs,
{
}

/// Pushing the accumulator and pulling it back preserves the accumulator.
pub proof fn lemma_pha_pla_round_trip(m: CpuModel)
    requires
        m.wf(),
    ensures
        crate::instr::pxx::spec_pla(crate::instr::pxx::spec_pha(m)).regs.a == m.regs.a,
        crate::instr::pxx::spec_pla(crate::instr::pxx::spec_pha(m)).regs.sp == m.regs.sp,
{
}

} // verus!

verus! {

/// The stack manager as a trait: push/pop primitives over the fixed stack
/// page, specified against the mathematical model of the implementing
/// device.
pub trait Stacked {
    /// The mathematical model of the implementing device.
    spec fn model(&self) -> CpuModel;

    /// Pushes a byte onto the stack.
    fn push_stack(&mut self, val: u8) -> (r: Result<(), CpuError>)
        requires
            old(self).model().wf(),
        ensures
            r is Ok,
            final(self).model() == spec_push_stack(old(self).model(), val),
    ;

    /// Pops a byte from the stack.
    fn pop_stack(&mut self) -> (r: Result<u8, CpuError>)
        requires
            old(self).model().wf(),
        ensures
            r == Ok::<u8, CpuError>(spec_pop_stack_value(old(self).model())),
            final(self).model() == spec_pop_stack(old(self).model()),
    ;

    /// Pushes a 16-bit value: high byte first, then low byte.
    fn push_stack16(&mut self, val: u16) -> (r: Result<(), CpuError>)
        requires
            old(self).model().wf(),
        ensures
            r is Ok,
            final(self).model() == spec_push_stack16(old(self).model(), val),
    ;

    /// Pops a 16-bit value: low byte first, then high byte.
    fn pop_stack16(&mut self) -> (r: Result<u16, CpuError>)
        requires
            old(self).model().wf(),
        ensures
            r == Ok::<u16, CpuError>(spec_pop_stack16_value(old(self).model())),
            final(self).model() == spec_pop_stack16(old(self).model()),
    ;
}

impl Stacked for Cpu6502 {
    open spec fn model(&self) -> CpuModel {
        self@
    }

    fn push_stack(&mut self, val: u8) -> (r: Result<(), CpuError>) {
        Cpu6502::push_stack(self, val)
    }

    fn pop_stack(&mut self) -> (r: Result<u8, CpuError>) {
        Cpu6502::pop_stack(self)
    }

    fn push_stack16(&mut self, val: u16) -> (r: Result<(), CpuError>) {
        Cpu6502::push_stack16(self, val)
    }

    fn pop_stack16(&mut self) -> (r: Result<u16, CpuError>) {
        Cpu6502::pop_stack16(self)
    }
}

} // verus!
