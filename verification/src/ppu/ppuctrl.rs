//! The video chip's control register: eight independent bit fields packed
//! into one byte.
//!
//! Bit layout, least significant first: two base-nametable-address bits, the
//! video-memory increment select, the sprite pattern table select, the
//! background pattern table select, the sprite size select, the master/slave
//! select, and the vertical-blank interrupt enable.

use vstd::prelude::*;

verus! {

/// Bits 0-1: base nametable address select.
pub const PPUCTRL_NAMETABLE: u8 = 0b0000_0011;

/// Bit 2: video memory address increment per data access (0: add 1, going
/// across; 1: add 32, going down).
pub const PPUCTRL_VRAM_ADD_INCREMENT: u8 = 0b0000_0100;

/// Bit 3: sprite pattern table address for 8x8 sprites (0: $0000, 1: $1000).
pub const PPUCTRL_SPRITE_PATTERN_ADDR: u8 = 0b0000_1000;

/// Bit 4: background pattern table address (0: $0000, 1: $1000).
pub const PPUCTRL_BACKGROUND_PATTERN_ADDR: u8 = 0b0001_0000;

/// Bit 5: sprite size (0: 8x8 pixels, 1: 8x16 pixels).
pub const PPUCTRL_SPRITE_SIZE: u8 = 0b0010_0000;

/// Bit 6: master/slave select.
pub const PPUCTRL_MASTER_SLAVE_SELECT: u8 = 0b0100_0000;

/// Bit 7: generate an interrupt at the start of vertical blanking.
pub const PPUCTRL_GENERATE_NMI: u8 = 0b1000_0000;

/// The control register: one byte of packed bit fields.
#[derive(Debug, Clone, Copy, PartialEq, Eq)]
pub struct PpuControlRegister {
    /// the packed bits
    pub bits: u8,
}

impl PpuControlRegister {
    /// A fresh control register with every field clear.
    pub fn new() -> (r: PpuControlRegister)
        ensures
            r.bits == 0,
    {
        PpuControlRegister { bits: 0 }
    }

    /// One processor write replaces the whole byte.
    pub fn write(&mut self, val: u8)
        ensures
            final(self).bits == val,
    {
        self.bits = val;
    }

    /// Base nametable address: $2000, $2400, $2800 or $2C00, selected by
    /// the low two bits.
    pub fn nametable_addr(&self) -> (r: u16)
        ensures
            self.bits & PPUCTRL_NAMETABLE == 0 ==> r == 0x2000,
            self.bits & PPUCTRL_NAMETABLE == 1 ==> r == 0x2400,
            self.bits & PPUCTRL_NAMETABLE == 2 ==> r == 0x2800,
            self.bits & PPUCTRL_NAMETABLE == 3 ==> r == 0x2C00,
    {
        proof {
            let b = self.bits;
            assert(b & 0b0000_0011 < 4) by (bit_vector);
        }
        match self.bits & PPUCTRL_NAMETABLE {
            0b00 => 0x2000,
            0b01 => 0x2400,
            0b10 => 0x2800,
            _ => 0x2C00,
        }
    }

    /// Video memory address increment per data access: 32 when the select
    /// bit is set (going down a column), otherwise 1 (going across a row).
    pub fn vram_increment(&self) -> (r: u16)
        ensures
            r == (if self.bits & PPUCTRL_VRAM_ADD_INCREMENT != 0 { 32int } else { 1 }),
    {
        if self.bits & PPUCTRL_VRAM_ADD_INCREMENT != 0 {
            32
        } else {
            1
        }
    }

    /// Sprite pattern table base for 8x8 sprites: $1000 when the select bit
    /// is set, otherwise $0000.
    pub fn spr_select(&self) -> (r: u16)
        ensures
            r == (if self.bits & PPUCTRL_SPRITE_PATTERN_ADDR != 0 { 0x1000int } else { 0 }),
    {
        if self.bits & PPUCTRL_SPRITE_PATTERN_ADDR != 0 {
            0x1000
        } else {
            0x0000
        }
    }

    /// Background pattern table base: $1000 when the select bit is set,
    /// otherwise $0000.
    pub fn bg_select(&self) -> (r: u16)
        ensures
            r == (if self.bits & PPUCTRL_BACKGROUND_PATTERN_ADDR != 0 { 0x1000int } else { 0 }),
    {
        if self.bits & PPUCTRL_BACKGROUND_PATTERN_ADDR != 0 {
            0x1000
        } else {
            0x0000
        }
    }

    /// Sprite height in pixels: 16 when the size bit is set, otherwise 8.
    pub fn spr_height(&self) -> (r: u32)
        ensures
            r == (if self.bits & PPUCTRL_SPRITE_SIZE != 0 { 16int } else { 8 }),
    {
        if self.bits & PPUCTRL_SPRITE_SIZE != 0 {
            16
        } else {
            8
        }
    }

    /// Master/slave select, as 0 or 1.
    pub fn master_slave(&self) -> (r: u8)
        ensures
            r == (if self.bits & PPUCTRL_MASTER_SLAVE_SELECT != 0 { 1int } else { 0 }),
    {
        if self.bits & PPUCTRL_MASTER_SLAVE_SELECT != 0 {
            1
        } else {
            0
        }
    }

    /// Whether a vertical-blank interrupt is generated.
    pub fn nmi_enabled(&self) -> (r: bool)
        ensures
            r == (self.bits & PPUCTRL_GENERATE_NMI != 0),
    {
        self.bits & PPUCTRL_GENERATE_NMI != 0
    }
}

} // verus!
