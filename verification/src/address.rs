//! Addressing modes and the addressing-mode resolver.
//!
//! The console's processor is little-endian: 16-bit values are stored low
//! byte first.

use vstd::prelude::*;
use crate::cpu::Cpu6502;
use crate::cpu::CpuError;
use crate::cpu::CpuModel;
use crate::mem::spec_mem_read;
use crate::mem::spec_mem_read16;
use crate::util::spec_wrapping_add16;
use crate::util::spec_wrapping_add8;

verus! {

/// The rule for locating an instruction's operand.
#[derive(Clone, Copy, Debug, PartialEq, Eq)]
pub enum AddressingMode {
    /// operand is the byte following the opcode
    Immediate,
    /// address is the next byte, zero-extended
    ZeroPage,
    /// address is the next byte plus index X, with 8-bit wraparound
    ZeroPageX,
    /// address is the next byte plus index Y, with 8-bit wraparound
    ZeroPageY,
    /// 16-bit little-endian address from the next two bytes
    Absolute,
    /// absolute base plus index X (16-bit); page crossing may cost a cycle
    AbsoluteX,
    /// absolute base plus index Y (16-bit); page crossing may cost a cycle
    AbsoluteY,
    /// jump through a 16-bit pointer, with the hardware page-boundary quirk
    Indirect,
    /// zero-page pointer plus X (8-bit wrap), then dereference
    IndirectX,
    /// zero-page pointer dereferenced, then plus Y; page crossing may cost
    IndirectY,
    /// 8-bit signed displacement relative to the program counter
    Relative,
    /// operand is the accumulator register itself
    Accumulator,
    /// no operand, no address
    Implicit,
}

/// Filler operand value for modes that produce none.
pub const NO_OPERAND: u16 = 0xDEAD;

/// What the addressing-mode resolver produces: the effective address (absent
/// for implicit and accumulator modes), the operand value widened to 16
/// bits, the number of operand bytes consumed, and whether an indexed mode
/// crossed a page boundary.
pub ghost struct ResolvedOperand {
    /// effective address, if the mode has one
    pub addr: Option<u16>,
    /// operand value, widened to 16 bits
    pub value: u16,
    /// operand bytes consumed, beyond the opcode byte itself
    pub length: u16,
    /// whether indexing moved the effective address onto another page
    pub page_crossed: bool,
}

/// The target of an indirect jump through pointer `p`, reproducing the
/// hardware bug: when the pointer's low byte is 0xFF, the target's high byte
/// is fetched from the start of the same page, not from the next page.
pub open spec fn spec_indirect_target(m: CpuModel, p: u16) -> u16 {
    let hi_addr: u16 = if p as int % 256 == 255 {
        (p as int / 256 * 256) as u16
    } else {
        (p + 1) as u16
    };
    (spec_mem_read(m, p) + 256 * spec_mem_read(m, hi_addr)) as u16
}

/// The addressing-mode resolver: given the processor state (with the program
/// counter still at the opcode byte), the effective address, operand value,
/// operand byte count, and page-crossing indicator for `mode`.
#[verifier::opaque]
pub open spec fn spec_resolve(m: CpuModel, mode: AddressingMode) -> ResolvedOperand {
    let ptr = spec_wrapping_add16(m.regs.pc, 1);
    match mode {
        AddressingMode::Immediate | AddressingMode::Relative => ResolvedOperand {
            addr: Some(ptr),
            value: spec_mem_read(m, ptr) as u16,
            length: 1,
            page_crossed: false,
        },
        AddressingMode::ZeroPage => {
            let addr = spec_mem_read(m, ptr) as u16;
            ResolvedOperand {
                addr: Some(addr),
                value: spec_mem_read(m, addr) as u16,
                length: 1,
                page_crossed: false,
            }
        },
        AddressingMode::ZeroPageX => {
            let addr = spec_wrapping_add8(spec_mem_read(m, ptr), m.regs.x) as u16;
            ResolvedOperand {
                addr: Some(addr),
                value: spec_mem_read(m, addr) as u16,
                length: 1,
                page_crossed: false,
            }
        },
        AddressingMode::ZeroPageY => {
            let addr = spec_wrapping_add8(spec_mem_read(m, ptr), m.regs.y) as u16;
            ResolvedOperand {
                addr: Some(addr),
                value: spec_mem_read(m, addr) as u16,
                length: 1,
                page_crossed: false,
            }
        },
        AddressingMode::Absolute => {
            let addr = spec_mem_read16(m, ptr);
            ResolvedOperand {
                addr: Some(addr),
                value: spec_mem_read(m, addr) as u16,
                length: 2,
                page_crossed: false,
            }
        },
        AddressingMode::AbsoluteX => {
            let base = spec_mem_read16(m, ptr);
            let addr = spec_wrapping_add16(base, m.regs.x as u16);
            ResolvedOperand {
                addr: Some(addr),
                value: spec_mem_read(m, addr) as u16,
                length: 2,
                page_crossed: addr as int / 256 != base as int / 256,
            }
        },
        AddressingMode::AbsoluteY => {
            let base = spec_mem_read16(m, ptr);
            let addr = spec_wrapping_add16(base, m.regs.y as u16);
            ResolvedOperand {
                addr: Some(addr),
                value: spec_mem_read(m, addr) as u16,
                length: 2,
                page_crossed: addr as int / 256 != base as int / 256,
            }
        },
        AddressingMode::Indirect => {
            let p = spec_mem_read16(m, ptr);
            ResolvedOperand {
                addr: Some(spec_indirect_target(m, p)),
                value: NO_OPERAND,
                length: 2,
                page_crossed: false,
            }
        },
        AddressingMode::IndirectX => {
            let zp = spec_wrapping_add8(spec_mem_read(m, ptr), m.regs.x);
            let addr = spec_mem_read16(m, zp as u16);
            ResolvedOperand {
                addr: Some(addr),
                value: spec_mem_read(m, addr) as u16,
                length: 1,
                page_crossed: false,
            }
        },
        AddressingMode::IndirectY => {
            let base = spec_mem_read16(m, spec_mem_read(m, ptr) as u16);
            let addr = spec_wrapping_add16(base, m.regs.y as u16);
            ResolvedOperand {
                addr: Some(addr),
                value: spec_mem_read(m, addr) as u16,
                length: 1,
                page_crossed: addr as int / 256 != base as int / 256,
            }
        },
        AddressingMode::Accumulator => ResolvedOperand {
            addr: None,
            value: m.regs.a as u16,
            length: 0,
            page_crossed: false,
        },
        AddressingMode::Implicit => ResolvedOperand {
            addr: None,
            value: NO_OPERAND,
            length: 0,
            page_crossed: false,
        },
    }
}

impl Cpu6502 {
    /// Resolves an addressing mode against the current program counter:
    /// effective address, operand value, operand byte count, and whether an
    /// indexed mode crossed a page boundary.
    pub fn resolve_operand(&self, mode: AddressingMode) -> (r: Result<(Option<u16>, u16, u16, bool), CpuError>)
        requires
            self@.wf(),
        ensures
            (r matches Ok(t) && {
                let resolved = spec_resolve(self@, mode);
                t.0 == resolved.addr && t.1 == resolved.value && t.2 == resolved.length
                    && t.3 == resolved.page_crossed && t.2 <= 2
                    && (t.0 is Some <==> !(mode is Accumulator || mode is Implicit))
            }),
    {
        proof {
            reveal(spec_resolve);
        }
        let ptr = self.registers.pc.wrapping_add(1);
        match mode {
            AddressingMode::Immediate | AddressingMode::Relative => {
                let v = self.mem_read(ptr)?;
                Ok((Some(ptr), v as u16, 1, false))
            },
            AddressingMode::ZeroPage => {
                let addr = self.mem_read(ptr)? as u16;
                let v = self.mem_read(addr)?;
                Ok((Some(addr), v as u16, 1, false))
            },
            AddressingMode::ZeroPageX => {
                let pos = self.mem_read(ptr)?;
                let addr = pos.wrapping_add(self.registers.x) as u16;
                let v = self.mem_read(addr)?;
                Ok((Some(addr), v as u16, 1, false))
            },
            AddressingMode::ZeroPageY => {
                let pos = self.mem_read(ptr)?;
                let addr = pos.wrapping_add(self.registers.y) as u16;
                let v = self.mem_read(addr)?;
                Ok((Some(addr), v as u16, 1, false))
            },
            AddressingMode::Absolute => {
                let addr = self.mem_read_u16(ptr)?;
                let v = self.mem_read(addr)?;
                Ok((Some(addr), v as u16, 2, false))
            },
            AddressingMode::AbsoluteX => {
                let base = self.mem_read_u16(ptr)?;
                let addr = base.wrapping_add(self.registers.x as u16);
                let v = self.mem_read(addr)?;
                Ok((Some(addr), v as u16, 2, addr / 256 != base / 256))
            },
            AddressingMode::AbsoluteY => {
                let base = self.mem_read_u16(ptr)?;
                let addr = base.wrapping_add(self.registers.y as u16);
                let v = self.mem_read(addr)?;
                Ok((Some(addr), v as u16, 2, addr / 256 != base / 256))
            },
            AddressingMode::Indirect => {
                let p = self.mem_read_u16(ptr)?;
                let lo = self.mem_read(p)?;
                let hi_addr: u16 = if p % 256 == 255 {
                    p / 256 * 256
                } else {
                    p + 1
                };
                let hi = self.mem_read(hi_addr)?;
                Ok((Some(lo as u16 + 256 * hi as u16), NO_OPERAND, 2, false))
            },
            AddressingMode::IndirectX => {
                let pos = self.mem_read(ptr)?;
                let zp = pos.wrapping_add(self.registers.x);
                let addr = self.mem_read_u16(zp as u16)?;
                let v = self.mem_read(addr)?;
                Ok((Some(addr), v as u16, 1, false))
            },
            AddressingMode::IndirectY => {
                let base_ptr = self.mem_read(ptr)? as u16;
                let base = self.mem_read_u16(base_ptr)?;
                let addr = base.wrapping_add(self.registers.y as u16);
                let v = self.mem_read(addr)?;
                Ok((Some(addr), v as u16, 1, addr / 256 != base / 256))
            },
            AddressingMode::Accumulator => Ok((None, self.registers.a as u16, 0, false)),
            AddressingMode::Implicit => Ok((None, NO_OPERAND, 0, false)),
        }
    }

    /// Resolves an addressing mode, returning the effective address (if
    /// any), the operand value, and the operand byte count.
    pub fn decode_addressing_mode(&self, mode: AddressingMode) -> (r: Result<(Option<u16>, u16, u16), CpuError>)
        requires
            self@.wf(),
        ensures
            (r matches Ok(t) && {
                let resolved = spec_resolve(self@, mode);
                t.0 == resolved.addr && t.1 == resolved.value && t.2 == resolved.length
            }),
    {
        let (addr, value, length, _) = self.resolve_operand(mode)?;
        Ok((addr, value, length))
    }
}

} // verus!

verus! {

/// The indirect-jump page-boundary quirk: a jump pointer stored at an
/// address whose low byte is 0xFF takes the target's high byte from the
/// start of that same page, not from the next page.
pub proof fn lemma_indirect_jump_quirk(m: CpuModel, p: u16)
    requires
        p == spec_mem_read16(m, spec_wrapping_add16(m.regs.pc, 1)),
        p as int % 256 == 255,
    ensures
        spec_resolve(m, AddressingMode::Indirect).addr == Some(
            (spec_mem_read(m, p) + 256 * spec_mem_read(
                m,
                (p as int / 256 * 256) as u16,
            )) as u16,
        ),
{
    reveal(spec_resolve);
}

} // verus!
