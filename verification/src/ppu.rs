//! The video chip's register file and address space. The chip itself is an
//! external collaborator; what lives here is the register state the
//! processor-visible window exposes and its mirroring conventions.

use vstd::prelude::*;
use crate::constant::MEMORY_MAX;

pub mod ppuaddr;
pub mod ppuctrl;
pub mod ppumask;

use ppuaddr::PpuAddrRegister;
use ppuctrl::PpuControlRegister;
use ppumask::PpuMaskRegister;

verus! {

/// The eight memory-mapped registers the video chip exposes to the
/// processor at $2000-$2007, mirrored every 8 bytes up to $3FFF.
#[derive(Debug, Clone, Copy)]
pub struct PpuRegister {
    /// $2000 - control register
    pub ppuctrl: PpuControlRegister,
    /// $2001 - mask register
    pub ppumask: PpuMaskRegister,
    /// $2002 - status register
    pub ppustatus: u8,
    /// $2003 - sprite memory address
    pub odmadata: u8,
    /// $2004 - sprite memory data
    pub oamdata: u8,
    /// $2005 - fine scroll position
    pub ppuscroll: u8,
    /// $2006 - video memory address (written one byte at a time)
    pub ppuaddr: PpuAddrRegister,
    /// $2007 - video memory data
    pub ppudata: u8,
}

impl Default for PpuRegister {
    /// Power-on register state: everything zeroed, the address latch
    /// expecting a high byte.
    fn default() -> (r: PpuRegister)
        ensures
            r.ppuctrl.bits == 0,
            r.ppumask.bits == 0,
            r.ppustatus == 0,
            r.odmadata == 0,
            r.oamdata == 0,
            r.ppuscroll == 0,
            r.ppuaddr.value == (0u8, 0u8),
            r.ppuaddr.hi_ptr,
            r.ppudata == 0,
    {
        PpuRegister {
            ppuctrl: PpuControlRegister::new(),
            ppumask: PpuMaskRegister::new(),
            ppustatus: 0,
            odmadata: 0,
            oamdata: 0,
            ppuscroll: 0,
            ppuaddr: PpuAddrRegister::new(),
            ppudata: 0,
        }
    }
}

/// The video chip: its registers and its own, separately mirrored address
/// space. Neither bus aliases the processor's memory.
#[derive(Debug)]
pub struct Ppu {
    /// the memory-mapped registers
    pub registers: PpuRegister,
    /// the chip's own 64 KiB address space
    pub mapper: Vec<u8>,
}

impl Ppu {
    /// A well-formed video chip holds exactly 2^16 bytes of address space.
    pub open spec fn wf(&self) -> bool {
        self.mapper@.len() == MEMORY_MAX
    }

    /// Forwards a processor write to the video memory address register.
    pub fn write_to_ppuaddr(&mut self, value: u8)
        ensures
            final(self).registers.ppuaddr == ppuaddr::spec_ppuaddr_write(
                old(self).registers.ppuaddr,
                value,
            ),
            final(self).registers.ppuctrl == old(self).registers.ppuctrl,
            final(self).registers.ppumask == old(self).registers.ppumask,
            final(self).mapper@ == old(self).mapper@,
    {
        self.registers.ppuaddr.write(value);
    }

    /// Forwards a processor write to the control register.
    pub fn write_to_ppuctrl(&mut self, value: u8)
        ensures
            final(self).registers.ppuctrl.bits == value,
            final(self).registers.ppuaddr == old(self).registers.ppuaddr,
            final(self).registers.ppumask == old(self).registers.ppumask,
            final(self).mapper@ == old(self).mapper@,
    {
        self.registers.ppuctrl.write(value);
    }

    /// Forwards a processor write to the mask register.
    pub fn write_to_ppumask(&mut self, value: u8)
        ensures
            final(self).registers.ppumask.bits == value,
            final(self).registers.ppuaddr == old(self).registers.ppuaddr,
            final(self).registers.ppuctrl == old(self).registers.ppuctrl,
            final(self).mapper@ == old(self).mapper@,
    {
        self.registers.ppumask.write(value);
    }

    /// Reads a byte of the chip's address space; addresses up to $3FFF are
    /// mirrored down into the low 2 KiB window.
    pub fn mem_read(&self, addr: u16) -> (r: u8)
        requires
            self.wf(),
        ensures
            addr <= 0x3FFF ==> r == self.mapper@[addr as int % 0x800],
            addr > 0x3FFF ==> r == self.mapper@[addr as int],
    {
        if addr <= 0x3FFF {
            proof {
                assert((addr & 0b00000111_11111111) == addr as u16 % 0x800) by (bit_vector);
            }
            let mirror_down_addr = addr & 0b00000111_11111111;
            self.mapper[mirror_down_addr as usize]
        } else {
            self.mapper[addr as usize]
        }
    }

    /// Writes a byte of the chip's address space, unmirrored.
    pub fn mem_write(&mut self, addr: u16, data: u8)
        requires
            old(self).wf(),
        ensures
            final(self).wf(),
            final(self).mapper@ == old(self).mapper@.update(addr as int, data),
            final(self).registers == old(self).registers,
    {
        self.mapper.set(addr as usize, data);
    }
}

impl Default for Ppu {
    /// A powered-on video chip: zeroed registers and zeroed address space.
    fn default() -> (r: Ppu)
        ensures
            r.wf(),
            r.mapper@ =~= Seq::new(MEMORY_MAX as nat, |i: int| 0u8),
            r.registers.ppuctrl.bits == 0,
            r.registers.ppumask.bits == 0,
            r.registers.ppuaddr.value == (0u8, 0u8),
            r.registers.ppuaddr.hi_ptr,
    {
        let mut mapper: Vec<u8> = Vec::new();
        let mut i: usize = 0;
        while i < MEMORY_MAX
            invariant
                i <= MEMORY_MAX,
                mapper@.len() == i,
                forall|j: int| 0 <= j < i ==> mapper@[j] == 0u8,
            decreases MEMORY_MAX - i,
        {
            mapper.push(0u8);
            i += 1;
        }
        proof {
            assert(mapper@ =~= Seq::new(MEMORY_MAX as nat, |j: int| 0u8));
        }
        Ppu { registers: PpuRegister::default(), mapper }
    }
}

} // verus!
