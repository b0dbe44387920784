//! Cycle-counting emulator core for the 6502 family microprocessor, as used
//! in a retro game console: registers, flat 64 KiB memory with the console's
//! mirroring conventions, addressing-mode resolution, the 256-entry opcode
//! table, per-operation execution handlers, the hardware stack, and the
//! fetch-decode-execute loop.

pub mod address;
pub mod cli;
pub mod constant;
pub mod cpu;
pub mod instr;
pub mod instruction;
pub mod mem;
pub mod nes;
pub mod opcode;
pub mod ppu;
pub mod register;
pub mod stack;
pub mod util;
