//! The memory contract the core consumes: 8-bit reads and writes over the
//! flat 16-bit address space, with the console's mirroring conventions, and
//! the little-endian 16-bit accesses built from them.
//!
//! Working RAM occupies a 2 KiB window mirrored every 0x800 bytes below
//! 0x2000; the video-chip register window at 0x2000-0x3FFF is mirrored every
//! 8 bytes. All 16-bit addresses are valid, so reads and writes always
//! succeed; they keep a `Result` shape because the execution loop is
//! specified to halt cleanly on a memory failure from any collaborator.

use vstd::prelude::*;
use crate::constant::PPU_MIRROR_END;
use crate::constant::RAM_MIRROR_END;
use crate::cpu::Cpu6502;
use crate::cpu::CpuError;
use crate::cpu::CpuModel;

verus! {

/// The physical cell a 16-bit address decodes to: working RAM mirrors every
/// 0x800 bytes below 0x2000, the video-chip registers mirror every 8 bytes
/// up to 0x4000, and everything above decodes to itself.
pub open spec fn spec_mirror(addr: u16) -> u16 {
    if addr < RAM_MIRROR_END {
        (addr as int % 0x800) as u16
    } else if addr < PPU_MIRROR_END {
        (0x2000 + addr as int % 8) as u16
    } else {
        addr
    }
}

/// The byte a read of `addr` returns.
pub open spec fn spec_mem_read(m: CpuModel, addr: u16) -> u8 {
    m.mem[spec_mirror(addr) as int]
}

/// The state after a write of `data` to `addr`.
pub open spec fn spec_mem_write(m: CpuModel, addr: u16, data: u8) -> CpuModel {
    CpuModel { mem: m.mem.update(spec_mirror(addr) as int, data), ..m }
}

/// The 16-bit little-endian value read from `pos` (low byte) and `pos + 1`
/// (high byte, the address wrapping at the top of the space).
pub open spec fn spec_mem_read16(m: CpuModel, pos: u16) -> u16 {
    (spec_mem_read(m, pos) + 256 * spec_mem_read(m, crate::util::spec_wrapping_add16(pos, 1))) as u16
}

/// The state after a 16-bit little-endian write of `data` at `pos`.
pub open spec fn spec_mem_write16(m: CpuModel, pos: u16, data: u16) -> CpuModel {
    spec_mem_write(
        spec_mem_write(m, pos, (data as int % 256) as u8),
        crate::util::spec_wrapping_add16(pos, 1),
        (data as int / 256) as u8,
    )
}

/// The operand a handler reads through a resolved write target: the byte at
/// the target address, or the accumulator when the mode had no address.
pub open spec fn spec_read_write_target(m: CpuModel, write_target: Option<u16>) -> u8 {
    match write_target {
        None => m.regs.a,
        Some(ptr) => spec_mem_read(m, ptr),
    }
}

/// The state after a handler stores through a resolved write target: the
/// byte at the target address, or the accumulator when the mode had no
/// address.
pub open spec fn spec_store_write_target(m: CpuModel, v: u8, write_target: Option<u16>) -> CpuModel {
    match write_target {
        None => CpuModel { regs: crate::register::CpuRegister { a: v, ..m.regs }, ..m },
        Some(ptr) => spec_mem_write(m, ptr, v),
    }
}

/// Decodes a 16-bit address down to the physical cell it mirrors.
fn mirrored_address(addr: u16) -> (r: u16)
    ensures
        r == spec_mirror(addr),
        r < 0x10000,
{
    if addr < RAM_MIRROR_END {
        addr % 0x800
    } else if addr < PPU_MIRROR_END {
        0x2000 + addr % 8
    } else {
        addr
    }
}

impl Cpu6502 {
    /// Reads one byte. Every 16-bit address is valid, so this always
    /// returns `Ok`.
    pub fn mem_read(&self, addr: u16) -> (r: Result<u8, CpuError>)
        requires
            self@.wf(),
        ensures
            r == Ok::<u8, CpuError>(spec_mem_read(self@, addr)),
    {
        let i = mirrored_address(addr);
        Ok(self.memory[i as usize])
    }

    /// Writes one byte. Every 16-bit address is valid, so this always
    /// returns `Ok`.
    pub fn mem_write(&mut self, addr: u16, data: u8) -> (r: Result<(), CpuError>)
        requires
            old(self)@.wf(),
        ensures
            r is Ok,
            final(self)@ == spec_mem_write(old(self)@, addr, data),
            final(self)@.wf(),
    {
        let i = mirrored_address(addr);
        self.memory.set(i as usize, data);
        proof {
            assert(self@ =~= spec_mem_write(old(self)@, addr, data));
        }
        Ok(())
    }

    /// Reads a 16-bit little-endian value: low byte at `pos`, high byte at
    /// `pos + 1`, the address wrapping at the top of the space.
    pub fn mem_read_u16(&self, pos: u16) -> (r: Result<u16, CpuError>)
        requires
            self@.wf(),
        ensures
            r == Ok::<u16, CpuError>(spec_mem_read16(self@, pos)),
    {
        let lo = match self.mem_read(pos) {
            Ok(b) => b,
            Err(e) => { return Err(e); },
        };
        let hi = match self.mem_read(pos.wrapping_add(1)) {
            Ok(b) => b,
            Err(e) => { return Err(e); },
        };
        Ok(lo as u16 + 256 * hi as u16)
    }

    /// Writes a 16-bit little-endian value: low byte at `pos`, high byte at
    /// `pos + 1`, the address wrapping at the top of the space.
    pub fn mem_write_u16(&mut self, pos: u16, data: u16) -> (r: Result<(), CpuError>)
        requires
            old(self)@.wf(),
        ensures
            r is Ok,
            final(self)@ == spec_mem_write16(old(self)@, pos, data),
            final(self)@.wf(),
    {
        let hi = (data / 256) as u8;
        let lo = (data % 256) as u8;
        let r = self.mem_write(pos, lo);
        if r.is_err() {
            return r;
        }
        self.mem_write(pos.wrapping_add(1), hi)
    }

    /// Reads the operand a handler works on: the byte at the resolved write
    /// target, or the accumulator when the mode had no address.
    pub fn read_write_target(&self, write_target: Option<u16>) -> (r: Result<u8, CpuError>)
        requires
            self@.wf(),
        ensures
            r == Ok::<u8, CpuError>(spec_read_write_target(self@, write_target)),
    {
        match write_target {
            None => Ok(self.registers.a),
            Some(ptr) => self.mem_read(ptr),
        }
    }

    /// Stores a handler's result: to the resolved write target, or to the
    /// accumulator when the mode had no address.
    pub fn store_write_target(&mut self, v: u8, write_target: Option<u16>) -> (r: Result<(), CpuError>)
        requires
            old(self)@.wf(),
        ensures
            r is Ok,
            final(self)@ == spec_store_write_target(old(self)@, v, write_target),
            final(self)@.wf(),
    {
        match write_target {
            None => {
                self.registers.a = v;
                proof {
                    assert(self@ =~= spec_store_write_target(old(self)@, v, write_target));
                }
                Ok(())
            },
            Some(ptr) => self.mem_write(ptr, v),
        }
    }
}

} // verus!

verus! {

/// The memory contract the core consumes, as a trait a system bus or other
/// collaborator can implement. `model` is the mathematical model of the
/// implementing device's processor-visible state; every operation is
/// specified against it.
pub trait MemoryManage {
    /// The mathematical model of the implementing device.
    spec fn model(&self) -> CpuModel;

    /// Reads one byte.
    fn mem_read(&self, addr: u16) -> (r: Result<u8, CpuError>)
        requires
            self.model().wf(),
        ensures
            r == Ok::<u8, CpuError>(spec_mem_read(self.model(), addr)),
    ;

    /// Writes one byte.
    fn mem_write(&mut self, addr: u16, data: u8) -> (r: Result<(), CpuError>)
        requires
            old(self).model().wf(),
        ensures
            r is Ok,
            final(self).model() == spec_mem_write(old(self).model(), addr, data),
    ;

    /// Reads a 16-bit little-endian value: low byte at `pos`, high byte at
    /// `pos + 1`.
    fn mem_read_u16(&self, pos: u16) -> (r: Result<u16, CpuError>)
        requires
            self.model().wf(),
        ensures
            r == Ok::<u16, CpuError>(spec_mem_read16(self.model(), pos)),
    ;

    /// Writes a 16-bit little-endian value: low byte at `pos`, high byte at
    /// `pos + 1`.
    fn mem_write_u16(&mut self, pos: u16, data: u16) -> (r: Result<(), CpuError>)
        requires
            old(self).model().wf(),
        ensures
            r is Ok,
            final(self).model() == spec_mem_write16(old(self).model(), pos, data),
    ;
}

impl MemoryManage for Cpu6502 {
    open spec fn model(&self) -> CpuModel {
        self@
    }

    fn mem_read(&self, addr: u16) -> (r: Result<u8, CpuError>) {
        Cpu6502::mem_read(self, addr)
    }

    fn mem_write(&mut self, addr: u16, data: u8) -> (r: Result<(), CpuError>) {
        Cpu6502::mem_write(self, addr, data)
    }

    fn mem_read_u16(&self, pos: u16) -> (r: Result<u16, CpuError>) {
        Cpu6502::mem_read_u16(self, pos)
    }

    fn mem_write_u16(&mut self, pos: u16, data: u16) -> (r: Result<(), CpuError>) {
        Cpu6502::mem_write_u16(self, pos, data)
    }
}

} // verus!
