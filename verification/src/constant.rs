//! Fixed addresses and sizes of the console's memory map.

use vstd::prelude::*;

verus! {

/// The processor addresses exactly 2^16 bytes.
pub const MEMORY_MAX: usize = 0x10000;

/// Vector holding the 16-bit little-endian address loaded into the program
/// counter on reset.
pub const PC_ADDRESS_RESET: u16 = 0xFFFC;

/// Address at which a program image is loaded by `load_program`.
pub const PRG_ROM_ADDRESS: u16 = 0x8000;

/// Break/interrupt vector address; the execution loop treats reaching this
/// address as a halt.
pub const ADDRESS_BRK: u16 = 0xFFFE;

/// Address at which test programs are loaded by `load_test_program`.
pub const ADDRESS_TEST_PROGRAM: u16 = 0xC000;

/// Bit 7 mask: the negative flag is a copy of this bit of a result.
pub const NEGATIVE_FLAG: u8 = 0x80;

/// Base of the hardware stack page: the stack lives at $0100-$01FF.
pub const SP_BASE_ADDRESS: u16 = 0x0100;

/// Stack pointer value established by a reset.
pub const SP_ADDRESS_RESET: u8 = 0xFD;

/// Top of the mirrored working-RAM window: addresses below this mirror the
/// bottom 2 KiB every 0x800 bytes.
pub const RAM_MIRROR_END: u16 = 0x2000;

/// Top of the video-chip register window: addresses in
/// `RAM_MIRROR_END..PPU_MIRROR_END` mirror eight registers every 8 bytes.
pub const PPU_MIRROR_END: u16 = 0x4000;

} // verus!
