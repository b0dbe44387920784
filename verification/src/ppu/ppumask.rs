//! The video chip's mask register: greyscale, left-edge clipping, rendering
//! enables and colour emphasis, packed into one byte.

use vstd::prelude::*;

verus! {

/// Bit 0: greyscale display.
pub const PPUMASK_GREYSCALE: u8 = 0b0000_0001;

/// Bit 1: show the background in the leftmost 8 pixels.
pub const PPUMASK_SHOW_BG_LEFTMOST: u8 = 0b0000_0010;

/// Bit 2: show sprites in the leftmost 8 pixels.
pub const PPUMASK_SHOW_SPRITE_LEFTMOST: u8 = 0b0000_0100;

/// Bit 3: show the background.
pub const PPUMASK_SHOW_BG: u8 = 0b0000_1000;

/// Bit 4: show sprites.
pub const PPUMASK_SHOW_SPRITES: u8 = 0b0001_0000;

/// Bit 5: emphasize red.
pub const PPUMASK_EMPHASIZE_RED: u8 = 0b0010_0000;

/// Bit 6: emphasize green.
pub const PPUMASK_EMPHASIZE_GREEN: u8 = 0b0100_0000;

/// Bit 7: emphasize blue.
pub const PPUMASK_EMPHASIZE_BLUE: u8 = 0b1000_0000;

/// The mask register: one byte of packed bit fields.
#[derive(Debug, Clone, Copy, PartialEq, Eq)]
pub struct PpuMaskRegister {
    /// the packed bits
    pub bits: u8,
}

impl PpuMaskRegister {
    /// A fresh mask register with every field clear.
    pub fn new() -> (r: PpuMaskRegister)
        ensures
            r.bits == 0,
    {
        PpuMaskRegister { bits: 0 }
    }

    /// One processor write replaces the whole byte.
    pub fn write(&mut self, val: u8)
        ensures
            final(self).bits == val,
    {
        self.bits = val;
    }
}

} // verus!
