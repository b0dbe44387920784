//! The fixed 256-entry opcode table: decode is a single lookup by opcode
//! byte, and the table is the complete statement of which operation, mode,
//! and timing apply to each byte value.

use vstd::prelude::*;
use crate::address::AddressingMode;

verus! {

/// Every operation the decode table can name. The tail of the enumeration
/// lists the undocumented operations: they decode, but executing one reports
/// an unimplemented-operation failure instead of running a handler.
#[derive(Clone, Copy, Debug, PartialEq, Eq)]
#[allow(clippy::upper_case_acronyms)]
pub enum Operation {
    ADC,
    AND,
    ASL,
    BCC,
    BCS,
    BEQ,
    BIT,
    BMI,
    BNE,
    BPL,
    BRK,
    BVC,
    BVS,
    CLC,
    CLD,
    CLI,
    CLV,
    CMP,
    CPX,
    CPY,
    DEC,
    DEX,
    DEY,
    EOR,
    INC,
    INX,
    INY,
    JMP,
    JSR,
    LDA,
    LDX,
    LDY,
    LSR,
    NOP,
    ORA,
    PHA,
    PHP,
    PLA,
    PLP,
    ROL,
    ROR,
    RTI,
    RTS,
    SBC,
    SEC,
    SED,
    SEI,
    STA,
    STX,
    STY,
    TAX,
    TAY,
    TSX,
    TXA,
    TXS,
    TYA,
    KIL,
    ISC,
    DCP,
    AXS,
    LAS,
    LAX,
    AHX,
    SAX,
    XAA,
    SHX,
    RRA,
    TAS,
    SHY,
    ARR,
    SRE,
    ALR,
    RLA,
    ANC,
    SLO,
}

/// One row of the opcode table: operation, addressing mode, base cycle cost,
/// and whether the opcode is eligible for the page-crossing extra cycle
/// (1 when eligible, 0 otherwise).
#[derive(Clone, Copy, Debug, PartialEq, Eq)]
pub struct OpcodeEntry {
    /// operation tag
    pub op: Operation,
    /// addressing mode
    pub mode: AddressingMode,
    /// base clock cycles
    pub cycles: u8,
    /// 1 when a crossed page boundary costs one extra cycle
    pub extra: u8,
}

impl Operation {
    /// Whether this operation has a working execution handler. The
    /// undocumented opcodes decode but deliberately report an
    /// unimplemented-operation failure when executed.
    pub open spec fn spec_implemented(self) -> bool {
        match self {
            Operation::KIL => false,
            Operation::ISC => false,
            Operation::DCP => false,
            Operation::AXS => false,
            Operation::LAS => false,
            Operation::LAX => false,
            Operation::AHX => false,
            Operation::SAX => false,
            Operation::XAA => false,
            Operation::SHX => false,
            Operation::RRA => false,
            Operation::TAS => false,
            Operation::SHY => false,
            Operation::ARR => false,
            Operation::SRE => false,
            Operation::ALR => false,
            Operation::RLA => false,
            Operation::ANC => false,
            Operation::SLO => false,
            _ => true,
        }
    }

    /// Executable twin of `spec_implemented`.
    pub fn implemented(self) -> (r: bool)
        ensures
            r == self.spec_implemented(),
    {
        match self {
            Operation::KIL => false,
            Operation::ISC => false,
            Operation::DCP => false,
            Operation::AXS => false,
            Operation::LAS => false,
            Operation::LAX => false,
            Operation::AHX => false,
            Operation::SAX => false,
            Operation::XAA => false,
            Operation::SHX => false,
            Operation::RRA => false,
            Operation::TAS => false,
            Operation::SHY => false,
            Operation::ARR => false,
            Operation::SRE => false,
            Operation::ALR => false,
            Operation::RLA => false,
            Operation::ANC => false,
            Operation::SLO => false,
            _ => true,
        }
    }
}

/// The opcode table as a function from opcode byte to row.
#[verifier::opaque]
pub open spec fn spec_opcode(byte: u8) -> OpcodeEntry {
    match byte {
        0x00 => OpcodeEntry { op: Operation::BRK, mode: AddressingMode::Implicit, cycles: 7, extra: 0 },
        0x01 => OpcodeEntry { op: Operation::ORA, mode: AddressingMode::IndirectX, cycles: 6, extra: 0 },
        0x02 => OpcodeEntry { op: Operation::KIL, mode: AddressingMode::Implicit, cycles: 0, extra: 0 },
        0x03 => OpcodeEntry { op: Operation::SLO, mode: AddressingMode::IndirectX, cycles: 8, extra: 0 },
        0x04 => OpcodeEntry { op: Operation::NOP, mode: AddressingMode::ZeroPage, cycles: 3, extra: 0 },
        0x05 => OpcodeEntry { op: Operation::ORA, mode: AddressingMode::ZeroPage, cycles: 3, extra: 0 },
        0x06 => OpcodeEntry { op: Operation::ASL, mode: AddressingMode::ZeroPage, cycles: 5, extra: 0 },
        0x07 => OpcodeEntry { op: Operation::SLO, mode: AddressingMode::ZeroPage, cycles: 5, extra: 0 },
        0x08 => OpcodeEntry { op: Operation::PHP, mode: AddressingMode::Implicit, cycles: 3, extra: 0 },
        0x09 => OpcodeEntry { op: Operation::ORA, mode: AddressingMode::Immediate, cycles: 2, extra: 0 },
        0x0A => OpcodeEntry { op: Operation::ASL, mode: AddressingMode::Accumulator, cycles: 2, extra: 0 },
        0x0B => OpcodeEntry { op: Operation::ANC, mode: AddressingMode::Immediate, cycles: 2, extra: 0 },
        0x0C => OpcodeEntry { op: Operation::NOP, mode: AddressingMode::Absolute, cycles: 4, extra: 0 },
        0x0D => OpcodeEntry { op: Operation::ORA, mode: AddressingMode::Absolute, cycles: 4, extra: 0 },
        0x0E => OpcodeEntry { op: Operation::ASL, mode: AddressingMode::Absolute, cycles: 6, extra: 0 },
        0x0F => OpcodeEntry { op: Operation::SLO, mode: AddressingMode::Absolute, cycles: 6, extra: 0 },
        0x10 => OpcodeEntry { op: Operation::BPL, mode: AddressingMode::Relative, cycles: 2, extra: 1 },
        0x11 => OpcodeEntry { op: Operation::ORA, mode: AddressingMode::IndirectY, cycles: 5, extra: 1 },
        0x12 => OpcodeEntry { op: Operation::KIL, mode: AddressingMode::Implicit, cycles: 0, extra: 0 },
        0x13 => OpcodeEntry { op: Operation::SLO, mode: AddressingMode::IndirectY, cycles: 8, extra: 0 },
        0x14 => OpcodeEntry { op: Operation::NOP, mode: AddressingMode::ZeroPageX, cycles: 4, extra: 0 },
        0x15 => OpcodeEntry { op: Operation::ORA, mode: AddressingMode::ZeroPageX, cycles: 4, extra: 0 },
        0x16 => OpcodeEntry { op: Operation::ASL, mode: AddressingMode::ZeroPageX, cycles: 6, extra: 0 },
        0x17 => OpcodeEntry { op: Operation::SLO, mode: AddressingMode::ZeroPageX, cycles: 6, extra: 0 },
        0x18 => OpcodeEntry { op: Operation::CLC, mode: AddressingMode::Implicit, cycles: 2, extra: 0 },
        0x19 => OpcodeEntry { op: Operation::ORA, mode: AddressingMode::AbsoluteY, cycles: 4, extra: 1 },
        0x1A => OpcodeEntry { op: Operation::NOP, mode: AddressingMode::Implicit, cycles: 2, extra: 0 },
        0x1B => OpcodeEntry { op: Operation::SLO, mode: AddressingMode::AbsoluteY, cycles: 7, extra: 0 },
        0x1C => OpcodeEntry { op: Operation::NOP, mode: AddressingMode::AbsoluteX, cycles: 4, extra: 1 },
        0x1D => OpcodeEntry { op: Operation::ORA, mode: AddressingMode::AbsoluteX, cycles: 4, extra: 1 },
        0x1E => OpcodeEntry { op: Operation::ASL, mode: AddressingMode::AbsoluteX, cycles: 7, extra: 0 },
        0x1F => OpcodeEntry { op: Operation::SLO, mode: AddressingMode::AbsoluteX, cycles: 7, extra: 0 },
        0x20 => OpcodeEntry { op: Operation::JSR, mode: AddressingMode::Absolute, cycles: 6, extra: 0 },
        0x21 => OpcodeEntry { op: Operation::AND, mode: AddressingMode::IndirectX, cycles: 6, extra: 0 },
        0x22 => OpcodeEntry { op: Operation::KIL, mode: AddressingMode::Implicit, cycles: 0, extra: 0 },
        0x23 => OpcodeEntry { op: Operation::RLA, mode: AddressingMode::IndirectX, cycles: 8, extra: 0 },
        0x24 => OpcodeEntry { op: Operation::BIT, mode: AddressingMode::ZeroPage, cycles: 3, extra: 0 },
        0x25 => OpcodeEntry { op: Operation::AND, mode: AddressingMode::ZeroPage, cycles: 3, extra: 0 },
        0x26 => OpcodeEntry { op: Operation::ROL, mode: AddressingMode::ZeroPage, cycles: 5, extra: 0 },
        0x27 => OpcodeEntry { op: Operation::RLA, mode: AddressingMode::ZeroPage, cycles: 5, extra: 0 },
        0x28 => OpcodeEntry { op: Operation::PLP, mode: AddressingMode::Implicit, cycles: 4, extra: 0 },
        0x29 => OpcodeEntry { op: Operation::AND, mode: AddressingMode::Immediate, cycles: 2, extra: 0 },
        0x2A => OpcodeEntry { op: Operation::ROL, mode: AddressingMode::Accumulator, cycles: 2, extra: 0 },
        0x2B => OpcodeEntry { op: Operation::ANC, mode: AddressingMode::Immediate, cycles: 2, extra: 0 },
        0x2C => OpcodeEntry { op: Operation::BIT, mode: AddressingMode::Absolute, cycles: 4, extra: 0 },
        0x2D => OpcodeEntry { op: Operation::AND, mode: AddressingMode::Absolute, cycles: 4, extra: 0 },
        0x2E => OpcodeEntry { op: Operation::ROL, mode: AddressingMode::Absolute, cycles: 6, extra: 0 },
        0x2F => OpcodeEntry { op: Operation::RLA, mode: AddressingMode::Absolute, cycles: 6, extra: 0 },
        0x30 => OpcodeEntry { op: Operation::BMI, mode: AddressingMode::Relative, cycles: 2, extra: 1 },
        0x31 => OpcodeEntry { op: Operation::AND, mode: AddressingMode::IndirectY, cycles: 5, extra: 1 },
        0x32 => OpcodeEntry { op: Operation::KIL, mode: AddressingMode::Implicit, cycles: 0, extra: 0 },
        0x33 => OpcodeEntry { op: Operation::RLA, mode: AddressingMode::IndirectY, cycles: 8, extra: 0 },
        0x34 => OpcodeEntry { op: Operation::NOP, mode: AddressingMode::ZeroPageX, cycles: 4, extra: 0 },
        0x35 => OpcodeEntry { op: Operation::AND, mode: AddressingMode::ZeroPageX, cycles: 4, extra: 0 },
        0x36 => OpcodeEntry { op: Operation::ROL, mode: AddressingMode::ZeroPageX, cycles: 6, extra: 0 },
        0x37 => OpcodeEntry { op: Operation::RLA, mode: AddressingMode::ZeroPageX, cycles: 6, extra: 0 },
        0x38 => OpcodeEntry { op: Operation::SEC, mode: AddressingMode::Implicit, cycles: 2, extra: 0 },
        0x39 => OpcodeEntry { op: Operation::AND, mode: AddressingMode::AbsoluteY, cycles: 4, extra: 1 },
        0x3A => OpcodeEntry { op: Operation::NOP, mode: AddressingMode::Implicit, cycles: 2, extra: 0 },
        0x3B => OpcodeEntry { op: Operation::RLA, mode: AddressingMode::AbsoluteY, cycles: 7, extra: 0 },
        0x3C => OpcodeEntry { op: Operation::NOP, mode: AddressingMode::AbsoluteX, cycles: 4, extra: 1 },
        0x3D => OpcodeEntry { op: Operation::AND, mode: AddressingMode::AbsoluteX, cycles: 4, extra: 1 },
        0x3E => OpcodeEntry { op: Operation::ROL, mode: AddressingMode::AbsoluteX, cycles: 7, extra: 0 },
        0x3F => OpcodeEntry { op: Operation::RLA, mode: AddressingMode::AbsoluteX, cycles: 7, extra: 0 },
        0x40 => OpcodeEntry { op: Operation::RTI, mode: AddressingMode::Implicit, cycles: 6, extra: 0 },
        0x41 => OpcodeEntry { op: Operation::EOR, mode: AddressingMode::IndirectX, cycles: 6, extra: 0 },
        0x42 => OpcodeEntry { op: Operation::KIL, mode: AddressingMode::Implicit, cycles: 0, extra: 0 },
        0x43 => OpcodeEntry { op: Operation::SRE, mode: AddressingMode::IndirectX, cycles: 8, extra: 0 },
        0x44 => OpcodeEntry { op: Operation::NOP, mode: AddressingMode::ZeroPage, cycles: 3, extra: 0 },
        0x45 => OpcodeEntry { op: Operation::EOR, mode: AddressingMode::ZeroPage, cycles: 3, extra: 0 },
        0x46 => OpcodeEntry { op: Operation::LSR, mode: AddressingMode::ZeroPage, cycles: 5, extra: 0 },
        0x47 => OpcodeEntry { op: Operation::SRE, mode: AddressingMode::ZeroPage, cycles: 5, extra: 0 },
        0x48 => OpcodeEntry { op: Operation::PHA, mode: AddressingMode::Implicit, cycles: 3, extra: 0 },
        0x49 => OpcodeEntry { op: Operation::EOR, mode: AddressingMode::Immediate, cycles: 2, extra: 0 },
        0x4A => OpcodeEntry { op: Operation::LSR, mode: AddressingMode::Implicit, cycles: 2, extra: 0 },
        0x4B => OpcodeEntry { op: Operation::ALR, mode: AddressingMode::Immediate, cycles: 2, extra: 0 },
        0x4C => OpcodeEntry { op: Operation::JMP, mode: AddressingMode::Absolute, cycles: 3, extra: 0 },
        0x4D => OpcodeEntry { op: Operation::EOR, mode: AddressingMode::Absolute, cycles: 4, extra: 0 },
        0x4E => OpcodeEntry { op: Operation::LSR, mode: AddressingMode::Absolute, cycles: 6, extra: 0 },
        0x4F => OpcodeEntry { op: Operation::SRE, mode: AddressingMode::Absolute, cycles: 6, extra: 0 },
        0x50 => OpcodeEntry { op: Operation::BVC, mode: AddressingMode::Relative, cycles: 2, extra: 1 },
        0x51 => OpcodeEntry { op: Operation::EOR, mode: AddressingMode::IndirectY, cycles: 5, extra: 1 },
        0x52 => OpcodeEntry { op: Operation::KIL, mode: AddressingMode::Implicit, cycles: 0, extra: 0 },
        0x53 => OpcodeEntry { op: Operation::SRE, mode: AddressingMode::IndirectY, cycles: 8, extra: 0 },
        0x54 => OpcodeEntry { op: Operation::NOP, mode: AddressingMode::ZeroPageX, cycles: 4, extra: 0 },
        0x55 => OpcodeEntry { op: Operation::EOR, mode: AddressingMode::ZeroPageX, cycles: 4, extra: 0 },
        0x56 => OpcodeEntry { op: Operation::LSR, mode: AddressingMode::ZeroPageX, cycles: 6, extra: 0 },
        0x57 => OpcodeEntry { op: Operation::SRE, mode: AddressingMode::ZeroPageX, cycles: 6, extra: 0 },
        0x58 => OpcodeEntry { op: Operation::CLI, mode: AddressingMode::Implicit, cycles: 2, extra: 0 },
        0x59 => OpcodeEntry { op: Operation::EOR, mode: AddressingMode::AbsoluteY, cycles: 4, extra: 1 },
        0x5A => OpcodeEntry { op: Operation::NOP, mode: AddressingMode::Implicit, cycles: 2, extra: 0 },
        0x5B => OpcodeEntry { op: Operation::SRE, mode: AddressingMode::AbsoluteY, cycles: 7, extra: 0 },
        0x5C => OpcodeEntry { op: Operation::NOP, mode: AddressingMode::AbsoluteX, cycles: 4, extra: 1 },
        0x5D => OpcodeEntry { op: Operation::EOR, mode: AddressingMode::AbsoluteX, cycles: 4, extra: 1 },
        0x5E => OpcodeEntry { op: Operation::LSR, mode: AddressingMode::AbsoluteX, cycles: 7, extra: 0 },
        0x5F => OpcodeEntry { op: Operation::SRE, mode: AddressingMode::AbsoluteX, cycles: 7, extra: 0 },
        0x60 => OpcodeEntry { op: Operation::RTS, mode: AddressingMode::Implicit, cycles: 6, extra: 0 },
        0x61 => OpcodeEntry { op: Operation::ADC, mode: AddressingMode::IndirectX, cycles: 6, extra: 0 },
        0x62 => OpcodeEntry { op: Operation::KIL, mode: AddressingMode::Implicit, cycles: 0, extra: 0 },
        0x63 => OpcodeEntry { op: Operation::RRA, mode: AddressingMode::IndirectX, cycles: 8, extra: 0 },
        0x64 => OpcodeEntry { op: Operation::NOP, mode: AddressingMode::ZeroPage, cycles: 3, extra: 0 },
        0x65 => OpcodeEntry { op: Operation::ADC, mode: AddressingMode::ZeroPage, cycles: 3, extra: 0 },
        0x66 => OpcodeEntry { op: Operation::ROR, mode: AddressingMode::ZeroPage, cycles: 5, extra: 0 },
        0x67 => OpcodeEntry { op: Operation::RRA, mode: AddressingMode::ZeroPage, cycles: 5, extra: 0 },
        0x68 => OpcodeEntry { op: Operation::PLA, mode: AddressingMode::Implicit, cycles: 4, extra: 0 },
        0x69 => OpcodeEntry { op: Operation::ADC, mode: AddressingMode::Immediate, cycles: 2, extra: 0 },
        0x6A => OpcodeEntry { op: Operation::ROR, mode: AddressingMode::Implicit, cycles: 2, extra: 0 },
        0x6B => OpcodeEntry { op: Operation::ARR, mode: AddressingMode::Immediate, cycles: 2, extra: 0 },
        0x6C => OpcodeEntry { op: Operation::JMP, mode: AddressingMode::Indirect, cycles: 5, extra: 0 },
        0x6D => OpcodeEntry { op: Operation::ADC, mode: AddressingMode::Absolute, cycles: 4, extra: 0 },
        0x6E => OpcodeEntry { op: Operation::ROR, mode: AddressingMode::Absolute, cycles: 6, extra: 0 },
        0x6F => OpcodeEntry { op: Operation::RRA, mode: AddressingMode::Absolute, cycles: 6, extra: 0 },
        0x70 => OpcodeEntry { op: Operation::BVS, mode: AddressingMode::Relative, cycles: 2, extra: 1 },
        0x71 => OpcodeEntry { op: Operation::ADC, mode: AddressingMode::IndirectY, cycles: 5, extra: 1 },
        0x72 => OpcodeEntry { op: Operation::KIL, mode: AddressingMode::Implicit, cycles: 0, extra: 0 },
        0x73 => OpcodeEntry { op: Operation::RRA, mode: AddressingMode::IndirectY, cycles: 8, extra: 0 },
        0x74 => OpcodeEntry { op: Operation::NOP, mode: AddressingMode::ZeroPageX, cycles: 4, extra: 0 },
        0x75 => OpcodeEntry { op: Operation::ADC, mode: AddressingMode::ZeroPageX, cycles: 4, extra: 0 },
        0x76 => OpcodeEntry { op: Operation::ROR, mode: AddressingMode::ZeroPageX, cycles: 6, extra: 0 },
        0x77 => OpcodeEntry { op: Operation::RRA, mode: AddressingMode::ZeroPageX, cycles: 6, extra: 0 },
        0x78 => OpcodeEntry { op: Operation::SEI, mode: AddressingMode::Implicit, cycles: 2, extra: 0 },
        0x79 => OpcodeEntry { op: Operation::ADC, mode: AddressingMode::AbsoluteY, cycles: 4, extra: 1 },
        0x7A => OpcodeEntry { op: Operation::NOP, mode: AddressingMode::Implicit, cycles: 2, extra: 0 },
        0x7B => OpcodeEntry { op: Operation::RRA, mode: AddressingMode::AbsoluteY, cycles: 7, extra: 0 },
        0x7C => OpcodeEntry { op: Operation::NOP, mode: AddressingMode::AbsoluteX, cycles: 4, extra: 1 },
        0x7D => OpcodeEntry { op: Operation::ADC, mode: AddressingMode::AbsoluteX, cycles: 4, extra: 1 },
        0x7E => OpcodeEntry { op: Operation::ROR, mode: AddressingMode::AbsoluteX, cycles: 7, extra: 0 },
        0x7F => OpcodeEntry { op: Operation::RRA, mode: AddressingMode::AbsoluteX, cycles: 7, extra: 0 },
        0x80 => OpcodeEntry { op: Operation::NOP, mode: AddressingMode::Immediate, cycles: 2, extra: 0 },
        0x81 => OpcodeEntry { op: Operation::STA, mode: AddressingMode::IndirectX, cycles: 6, extra: 0 },
        0x82 => OpcodeEntry { op: Operation::NOP, mode: AddressingMode::Immediate, cycles: 2, extra: 0 },
        0x83 => OpcodeEntry { op: Operation::SAX, mode: AddressingMode::IndirectX, cycles: 6, extra: 0 },
        0x84 => OpcodeEntry { op: Operation::STY, mode: AddressingMode::ZeroPage, cycles: 3, extra: 0 },
        0x85 => OpcodeEntry { op: Operation::STA, mode: AddressingMode::ZeroPage, cycles: 3, extra: 0 },
        0x86 => OpcodeEntry { op: Operation::STX, mode: AddressingMode::ZeroPage, cycles: 3, extra: 0 },
        0x87 => OpcodeEntry { op: Operation::SAX, mode: AddressingMode::ZeroPage, cycles: 3, extra: 0 },
        0x88 => OpcodeEntry { op: Operation::DEY, mode: AddressingMode::Implicit, cycles: 2, extra: 0 },
        0x89 => OpcodeEntry { op: Operation::NOP, mode: AddressingMode::Immediate, cycles: 2, extra: 0 },
        0x8A => OpcodeEntry { op: Operation::TXA, mode: AddressingMode::Implicit, cycles: 2, extra: 0 },
        0x8B => OpcodeEntry { op: Operation::XAA, mode: AddressingMode::Immediate, cycles: 2, extra: 1 },
        0x8C => OpcodeEntry { op: Operation::STY, mode: AddressingMode::Absolute, cycles: 4, extra: 0 },
        0x8D => OpcodeEntry { op: Operation::STA, mode: AddressingMode::Absolute, cycles: 4, extra: 0 },
        0x8E => OpcodeEntry { op: Operation::STX, mode: AddressingMode::Absolute, cycles: 4, extra: 0 },
        0x8F => OpcodeEntry { op: Operation::SAX, mode: AddressingMode::Absolute, cycles: 4, extra: 0 },
        0x90 => OpcodeEntry { op: Operation::BCC, mode: AddressingMode::Relative, cycles: 2, extra: 1 },
        0x91 => OpcodeEntry { op: Operation::STA, mode: AddressingMode::IndirectY, cycles: 6, extra: 0 },
        0x92 => OpcodeEntry { op: Operation::KIL, mode: AddressingMode::Implicit, cycles: 0, extra: 0 },
        0x93 => OpcodeEntry { op: Operation::AHX, mode: AddressingMode::IndirectY, cycles: 6, extra: 0 },
        0x94 => OpcodeEntry { op: Operation::STY, mode: AddressingMode::ZeroPageX, cycles: 4, extra: 0 },
        0x95 => OpcodeEntry { op: Operation::STA, mode: AddressingMode::ZeroPageX, cycles: 4, extra: 0 },
        0x96 => OpcodeEntry { op: Operation::STX, mode: AddressingMode::ZeroPageY, cycles: 4, extra: 0 },
        0x97 => OpcodeEntry { op: Operation::SAX, mode: AddressingMode::ZeroPageY, cycles: 4, extra: 0 },
        0x98 => OpcodeEntry { op: Operation::TYA, mode: AddressingMode::Implicit, cycles: 2, extra: 0 },
        0x99 => OpcodeEntry { op: Operation::STA, mode: AddressingMode::AbsoluteY, cycles: 5, extra: 0 },
        0x9A => OpcodeEntry { op: Operation::TXS, mode: AddressingMode::Implicit, cycles: 2, extra: 0 },
        0x9B => OpcodeEntry { op: Operation::TAS, mode: AddressingMode::AbsoluteY, cycles: 5, extra: 0 },
        0x9C => OpcodeEntry { op: Operation::SHY, mode: AddressingMode::AbsoluteX, cycles: 5, extra: 0 },
        0x9D => OpcodeEntry { op: Operation::STA, mode: AddressingMode::AbsoluteX, cycles: 5, extra: 0 },
        0x9E => OpcodeEntry { op: Operation::SHX, mode: AddressingMode::AbsoluteY, cycles: 5, extra: 0 },
        0x9F => OpcodeEntry { op: Operation::AHX, mode: AddressingMode::AbsoluteY, cycles: 5, extra: 0 },
        0xA0 => OpcodeEntry { op: Operation::LDY, mode: AddressingMode::Immediate, cycles: 2, extra: 0 },
        0xA1 => OpcodeEntry { op: Operation::LDA, mode: AddressingMode::IndirectX, cycles: 6, extra: 0 },
        0xA2 => OpcodeEntry { op: Operation::LDX, mode: AddressingMode::Immediate, cycles: 2, extra: 0 },
        0xA3 => OpcodeEntry { op: Operation::LAX, mode: AddressingMode::IndirectX, cycles: 6, extra: 0 },
        0xA4 => OpcodeEntry { op: Operation::LDY, mode: AddressingMode::ZeroPage, cycles: 3, extra: 0 },
        0xA5 => OpcodeEntry { op: Operation::LDA, mode: AddressingMode::ZeroPage, cycles: 3, extra: 0 },
        0xA6 => OpcodeEntry { op: Operation::LDX, mode: AddressingMode::ZeroPage, cycles: 3, extra: 0 },
        0xA7 => OpcodeEntry { op: Operation::LAX, mode: AddressingMode::ZeroPage, cycles: 3, extra: 0 },
        0xA8 => OpcodeEntry { op: Operation::TAY, mode: AddressingMode::Implicit, cycles: 2, extra: 0 },
        0xA9 => OpcodeEntry { op: Operation::LDA, mode: AddressingMode::Immediate, cycles: 2, extra: 0 },
        0xAA => OpcodeEntry { op: Operation::TAX, mode: AddressingMode::Implicit, cycles: 2, extra: 0 },
        0xAB => OpcodeEntry { op: Operation::LAX, mode: AddressingMode::Immediate, cycles: 2, extra: 0 },
        0xAC => OpcodeEntry { op: Operation::LDY, mode: AddressingMode::Absolute, cycles: 4, extra: 0 },
        0xAD => OpcodeEntry { op: Operation::LDA, mode: AddressingMode::Absolute, cycles: 4, extra: 0 },
        0xAE => OpcodeEntry { op: Operation::LDX, mode: AddressingMode::Absolute, cycles: 4, extra: 0 },
        0xAF => OpcodeEntry { op: Operation::LAX, mode: AddressingMode::Absolute, cycles: 4, extra: 0 },
        0xB0 => OpcodeEntry { op: Operation::BCS, mode: AddressingMode::Relative, cycles: 2, extra: 1 },
        0xB1 => OpcodeEntry { op: Operation::LDA, mode: AddressingMode::IndirectY, cycles: 5, extra: 1 },
        0xB2 => OpcodeEntry { op: Operation::KIL, mode: AddressingMode::Implicit, cycles: 0, extra: 0 },
        0xB3 => OpcodeEntry { op: Operation::LAX, mode: AddressingMode::IndirectY, cycles: 5, extra: 1 },
        0xB4 => OpcodeEntry { op: Operation::LDY, mode: AddressingMode::ZeroPageX, cycles: 4, extra: 0 },
        0xB5 => OpcodeEntry { op: Operation::LDA, mode: AddressingMode::ZeroPageX, cycles: 4, extra: 0 },
        0xB6 => OpcodeEntry { op: Operation::LDX, mode: AddressingMode::ZeroPageY, cycles: 4, extra: 0 },
        0xB7 => OpcodeEntry { op: Operation::LAX, mode: AddressingMode::ZeroPageY, cycles: 4, extra: 0 },
        0xB8 => OpcodeEntry { op: Operation::CLV, mode: AddressingMode::Implicit, cycles: 2, extra: 0 },
        0xB9 => OpcodeEntry { op: Operation::LDA, mode: AddressingMode::AbsoluteY, cycles: 4, extra: 1 },
        0xBA => OpcodeEntry { op: Operation::TSX, mode: AddressingMode::Implicit, cycles: 2, extra: 0 },
        0xBB => OpcodeEntry { op: Operation::LAS, mode: AddressingMode::AbsoluteY, cycles: 4, extra: 1 },
        0xBC => OpcodeEntry { op: Operation::LDY, mode: AddressingMode::AbsoluteX, cycles: 4, extra: 1 },
        0xBD => OpcodeEntry { op: Operation::LDA, mode: AddressingMode::AbsoluteX, cycles: 4, extra: 1 },
        0xBE => OpcodeEntry { op: Operation::LDX, mode: AddressingMode::AbsoluteY, cycles: 4, extra: 1 },
        0xBF => OpcodeEntry { op: Operation::LAX, mode: AddressingMode::AbsoluteY, cycles: 4, extra: 1 },
        0xC0 => OpcodeEntry { op: Operation::CPY, mode: AddressingMode::Immediate, cycles: 2, extra: 0 },
        0xC1 => OpcodeEntry { op: Operation::CMP, mode: AddressingMode::IndirectX, cycles: 6, extra: 0 },
        0xC2 => OpcodeEntry { op: Operation::NOP, mode: AddressingMode::Immediate, cycles: 2, extra: 0 },
        0xC3 => OpcodeEntry { op: Operation::DCP, mode: AddressingMode::IndirectX, cycles: 8, extra: 0 },
        0xC4 => OpcodeEntry { op: Operation::CPY, mode: AddressingMode::ZeroPage, cycles: 3, extra: 0 },
        0xC5 => OpcodeEntry { op: Operation::CMP, mode: AddressingMode::ZeroPage, cycles: 3, extra: 0 },
        0xC6 => OpcodeEntry { op: Operation::DEC, mode: AddressingMode::ZeroPage, cycles: 5, extra: 0 },
        0xC7 => OpcodeEntry { op: Operation::DCP, mode: AddressingMode::ZeroPage, cycles: 5, extra: 0 },
        0xC8 => OpcodeEntry { op: Operation::INY, mode: AddressingMode::Implicit, cycles: 2, extra: 0 },
        0xC9 => OpcodeEntry { op: Operation::CMP, mode: AddressingMode::Immediate, cycles: 2, extra: 0 },
        0xCA => OpcodeEntry { op: Operation::DEX, mode: AddressingMode::Implicit, cycles: 2, extra: 0 },
        0xCB => OpcodeEntry { op: Operation::AXS, mode: AddressingMode::Immediate, cycles: 2, extra: 0 },
        0xCC => OpcodeEntry { op: Operation::CPY, mode: AddressingMode::Absolute, cycles: 4, extra: 0 },
        0xCD => OpcodeEntry { op: Operation::CMP, mode: AddressingMode::Absolute, cycles: 4, extra: 0 },
        0xCE => OpcodeEntry { op: Operation::DEC, mode: AddressingMode::Absolute, cycles: 6, extra: 0 },
        0xCF => OpcodeEntry { op: Operation::DCP, mode: AddressingMode::Absolute, cycles: 6, extra: 0 },
        0xD0 => OpcodeEntry { op: Operation::BNE, mode: AddressingMode::Relative, cycles: 2, extra: 1 },
        0xD1 => OpcodeEntry { op: Operation::CMP, mode: AddressingMode::IndirectY, cycles: 5, extra: 1 },
        0xD2 => OpcodeEntry { op: Operation::KIL, mode: AddressingMode::Implicit, cycles: 0, extra: 0 },
        0xD3 => OpcodeEntry { op: Operation::DCP, mode: AddressingMode::IndirectY, cycles: 8, extra: 0 },
        0xD4 => OpcodeEntry { op: Operation::NOP, mode: AddressingMode::ZeroPageX, cycles: 4, extra: 0 },
        0xD5 => OpcodeEntry { op: Operation::CMP, mode: AddressingMode::ZeroPageX, cycles: 4, extra: 0 },
        0xD6 => OpcodeEntry { op: Operation::DEC, mode: AddressingMode::ZeroPageX, cycles: 6, extra: 0 },
        0xD7 => OpcodeEntry { op: Operation::DCP, mode: AddressingMode::ZeroPageX, cycles: 6, extra: 0 },
        0xD8 => OpcodeEntry { op: Operation::CLD, mode: AddressingMode::Implicit, cycles: 2, extra: 0 },
        0xD9 => OpcodeEntry { op: Operation::CMP, mode: AddressingMode::AbsoluteY, cycles: 4, extra: 1 },
        0xDA => OpcodeEntry { op: Operation::NOP, mode: AddressingMode::Implicit, cycles: 2, extra: 0 },
        0xDB => OpcodeEntry { op: Operation::DCP, mode: AddressingMode::AbsoluteY, cycles: 7, extra: 0 },
        0xDC => OpcodeEntry { op: Operation::NOP, mode: AddressingMode::AbsoluteX, cycles: 4, extra: 1 },
        0xDD => OpcodeEntry { op: Operation::CMP, mode: AddressingMode::AbsoluteX, cycles: 4, extra: 1 },
        0xDE => OpcodeEntry { op: Operation::DEC, mode: AddressingMode::AbsoluteX, cycles: 7, extra: 0 },
        0xDF => OpcodeEntry { op: Operation::DCP, mode: AddressingMode::AbsoluteX, cycles: 7, extra: 0 },
        0xE0 => OpcodeEntry { op: Operation::CPX, mode: AddressingMode::Immediate, cycles: 2, extra: 0 },
        0xE1 => OpcodeEntry { op: Operation::SBC, mode: AddressingMode::IndirectX, cycles: 6, extra: 0 },
        0xE2 => OpcodeEntry { op: Operation::NOP, mode: AddressingMode::Immediate, cycles: 2, extra: 0 },
        0xE3 => OpcodeEntry { op: Operation::ISC, mode: AddressingMode::IndirectX, cycles: 8, extra: 0 },
        0xE4 => OpcodeEntry { op: Operation::CPX, mode: AddressingMode::ZeroPage, cycles: 3, extra: 0 },
        0xE5 => OpcodeEntry { op: Operation::SBC, mode: AddressingMode::ZeroPage, cycles: 3, extra: 0 },
        0xE6 => OpcodeEntry { op: Operation::INC, mode: AddressingMode::ZeroPage, cycles: 5, extra: 0 },
        0xE7 => OpcodeEntry { op: Operation::ISC, mode: AddressingMode::ZeroPage, cycles: 5, extra: 0 },
        0xE8 => OpcodeEntry { op: Operation::INX, mode: AddressingMode::Implicit, cycles: 2, extra: 0 },
        0xE9 => OpcodeEntry { op: Operation::SBC, mode: AddressingMode::Immediate, cycles: 2, extra: 0 },
        0xEA => OpcodeEntry { op: Operation::NOP, mode: AddressingMode::Implicit, cycles: 2, extra: 0 },
        0xEB => OpcodeEntry { op: Operation::SBC, mode: AddressingMode::Immediate, cycles: 2, extra: 0 },
        0xEC => OpcodeEntry { op: Operation::CPX, mode: AddressingMode::Absolute, cycles: 4, extra: 0 },
        0xED => OpcodeEntry { op: Operation::SBC, mode: AddressingMode::Absolute, cycles: 4, extra: 0 },
        0xEE => OpcodeEntry { op: Operation::INC, mode: AddressingMode::Absolute, cycles: 6, extra: 0 },
        0xEF => OpcodeEntry { op: Operation::ISC, mode: AddressingMode::Absolute, cycles: 6, extra: 0 },
        0xF0 => OpcodeEntry { op: Operation::BEQ, mode: AddressingMode::Relative, cycles: 2, extra: 1 },
        0xF1 => OpcodeEntry { op: Operation::SBC, mode: AddressingMode::IndirectY, cycles: 5, extra: 1 },
        0xF2 => OpcodeEntry { op: Operation::KIL, mode: AddressingMode::Implicit, cycles: 0, extra: 0 },
        0xF3 => OpcodeEntry { op: Operation::ISC, mode: AddressingMode::IndirectY, cycles: 8, extra: 0 },
        0xF4 => OpcodeEntry { op: Operation::NOP, mode: AddressingMode::ZeroPageX, cycles: 4, extra: 0 },
        0xF5 => OpcodeEntry { op: Operation::SBC, mode: AddressingMode::ZeroPageX, cycles: 4, extra: 0 },
        0xF6 => OpcodeEntry { op: Operation::INC, mode: AddressingMode::ZeroPageX, cycles: 6, extra: 0 },
        0xF7 => OpcodeEntry { op: Operation::ISC, mode: AddressingMode::ZeroPageX, cycles: 6, extra: 0 },
        0xF8 => OpcodeEntry { op: Operation::SED, mode: AddressingMode::Implicit, cycles: 2, extra: 0 },
        0xF9 => OpcodeEntry { op: Operation::SBC, mode: AddressingMode::AbsoluteY, cycles: 4, extra: 1 },
        0xFA => OpcodeEntry { op: Operation::NOP, mode: AddressingMode::Implicit, cycles: 2, extra: 0 },
        0xFB => OpcodeEntry { op: Operation::ISC, mode: AddressingMode::AbsoluteY, cycles: 7, extra: 0 },
        0xFC => OpcodeEntry { op: Operation::NOP, mode: AddressingMode::AbsoluteX, cycles: 4, extra: 1 },
        0xFD => OpcodeEntry { op: Operation::SBC, mode: AddressingMode::AbsoluteX, cycles: 4, extra: 1 },
        0xFE => OpcodeEntry { op: Operation::INC, mode: AddressingMode::AbsoluteX, cycles: 7, extra: 0 },
        _ => OpcodeEntry { op: Operation::ISC, mode: AddressingMode::AbsoluteX, cycles: 7, extra: 0 },
    }
}

/// Looks an opcode byte up in the table.
#[verifier::rlimit(60)]
pub fn opcode_entry(byte: u8) -> (e: OpcodeEntry)
    ensures
        e == spec_opcode(byte),
{
    proof {
        reveal(spec_opcode);
    }
    match byte {
        0x00 => OpcodeEntry { op: Operation::BRK, mode: AddressingMode::Implicit, cycles: 7, extra: 0 },
        0x01 => OpcodeEntry { op: Operation::ORA, mode: AddressingMode::IndirectX, cycles: 6, extra: 0 },
        0x02 => OpcodeEntry { op: Operation::KIL, mode: AddressingMode::Implicit, cycles: 0, extra: 0 },
        0x03 => OpcodeEntry { op: Operation::SLO, mode: AddressingMode::IndirectX, cycles: 8, extra: 0 },
        0x04 => OpcodeEntry { op: Operation::NOP, mode: AddressingMode::ZeroPage, cycles: 3, extra: 0 },
        0x05 => OpcodeEntry { op: Operation::ORA, mode: AddressingMode::ZeroPage, cycles: 3, extra: 0 },
        0x06 => OpcodeEntry { op: Operation::ASL, mode: AddressingMode::ZeroPage, cycles: 5, extra: 0 },
        0x07 => OpcodeEntry { op: Operation::SLO, mode: AddressingMode::ZeroPage, cycles: 5, extra: 0 },
        0x08 => OpcodeEntry { op: Operation::PHP, mode: AddressingMode::Implicit, cycles: 3, extra: 0 },
        0x09 => OpcodeEntry { op: Operation::ORA, mode: AddressingMode::Immediate, cycles: 2, extra: 0 },
        0x0A => OpcodeEntry { op: Operation::ASL, mode: AddressingMode::Accumulator, cycles: 2, extra: 0 },
        0x0B => OpcodeEntry { op: Operation::ANC, mode: AddressingMode::Immediate, cycles: 2, extra: 0 },
        0x0C => OpcodeEntry { op: Operation::NOP, mode: AddressingMode::Absolute, cycles: 4, extra: 0 },
        0x0D => OpcodeEntry { op: Operation::ORA, mode: AddressingMode::Absolute, cycles: 4, extra: 0 },
        0x0E => OpcodeEntry { op: Operation::ASL, mode: AddressingMode::Absolute, cycles: 6, extra: 0 },
        0x0F => OpcodeEntry { op: Operation::SLO, mode: AddressingMode::Absolute, cycles: 6, extra: 0 },
        0x10 => OpcodeEntry { op: Operation::BPL, mode: AddressingMode::Relative, cycles: 2, extra: 1 },
        0x11 => OpcodeEntry { op: Operation::ORA, mode: AddressingMode::IndirectY, cycles: 5, extra: 1 },
        0x12 => OpcodeEntry { op: Operation::KIL, mode: AddressingMode::Implicit, cycles: 0, extra: 0 },
        0x13 => OpcodeEntry { op: Operation::SLO, mode: AddressingMode::IndirectY, cycles: 8, extra: 0 },
        0x14 => OpcodeEntry { op: Operation::NOP, mode: AddressingMode::ZeroPageX, cycles: 4, extra: 0 },
        0x15 => OpcodeEntry { op: Operation::ORA, mode: AddressingMode::ZeroPageX, cycles: 4, extra: 0 },
        0x16 => OpcodeEntry { op: Operation::ASL, mode: AddressingMode::ZeroPageX, cycles: 6, extra: 0 },
        0x17 => OpcodeEntry { op: Operation::SLO, mode: AddressingMode::ZeroPageX, cycles: 6, extra: 0 },
        0x18 => OpcodeEntry { op: Operation::CLC, mode: AddressingMode::Implicit, cycles: 2, extra: 0 },
        0x19 => OpcodeEntry { op: Operation::ORA, mode: AddressingMode::AbsoluteY, cycles: 4, extra: 1 },
        0x1A => OpcodeEntry { op: Operation::NOP, mode: AddressingMode::Implicit, cycles: 2, extra: 0 },
        0x1B => OpcodeEntry { op: Operation::SLO, mode: AddressingMode::AbsoluteY, cycles: 7, extra: 0 },
        0x1C => OpcodeEntry { op: Operation::NOP, mode: AddressingMode::AbsoluteX, cycles: 4, extra: 1 },
        0x1D => OpcodeEntry { op: Operation::ORA, mode: AddressingMode::AbsoluteX, cycles: 4, extra: 1 },
        0x1E => OpcodeEntry { op: Operation::ASL, mode: AddressingMode::AbsoluteX, cycles: 7, extra: 0 },
        0x1F => OpcodeEntry { op: Operation::SLO, mode: AddressingMode::AbsoluteX, cycles: 7, extra: 0 },
        0x20 => OpcodeEntry { op: Operation::JSR, mode: AddressingMode::Absolute, cycles: 6, extra: 0 },
        0x21 => OpcodeEntry { op: Operation::AND, mode: AddressingMode::IndirectX, cycles: 6, extra: 0 },
        0x22 => OpcodeEntry { op: Operation::KIL, mode: AddressingMode::Implicit, cycles: 0, extra: 0 },
        0x23 => OpcodeEntry { op: Operation::RLA, mode: AddressingMode::IndirectX, cycles: 8, extra: 0 },
        0x24 => OpcodeEntry { op: Operation::BIT, mode: AddressingMode::ZeroPage, cycles: 3, extra: 0 },
        0x25 => OpcodeEntry { op: Operation::AND, mode: AddressingMode::ZeroPage, cycles: 3, extra: 0 },
        0x26 => OpcodeEntry { op: Operation::ROL, mode: AddressingMode::ZeroPage, cycles: 5, extra: 0 },
        0x27 => OpcodeEntry { op: Operation::RLA, mode: AddressingMode::ZeroPage, cycles: 5, extra: 0 },
        0x28 => OpcodeEntry { op: Operation::PLP, mode: AddressingMode::Implicit, cycles: 4, extra: 0 },
        0x29 => OpcodeEntry { op: Operation::AND, mode: AddressingMode::Immediate, cycles: 2, extra: 0 },
        0x2A => OpcodeEntry { op: Operation::ROL, mode: AddressingMode::Accumulator, cycles: 2, extra: 0 },
        0x2B => OpcodeEntry { op: Operation::ANC, mode: AddressingMode::Immediate, cycles: 2, extra: 0 },
        0x2C => OpcodeEntry { op: Operation::BIT, mode: AddressingMode::Absolute, cycles: 4, extra: 0 },
        0x2D => OpcodeEntry { op: Operation::AND, mode: AddressingMode::Absolute, cycles: 4, extra: 0 },
        0x2E => OpcodeEntry { op: Operation::ROL, mode: AddressingMode::Absolute, cycles: 6, extra: 0 },
        0x2F => OpcodeEntry { op: Operation::RLA, mode: AddressingMode::Absolute, cycles: 6, extra: 0 },
        0x30 => OpcodeEntry { op: Operation::BMI, mode: AddressingMode::Relative, cycles: 2, extra: 1 },
        0x31 => OpcodeEntry { op: Operation::AND, mode: AddressingMode::IndirectY, cycles: 5, extra: 1 },
        0x32 => OpcodeEntry { op: Operation::KIL, mode: AddressingMode::Implicit, cycles: 0, extra: 0 },
        0x33 => OpcodeEntry { op: Operation::RLA, mode: AddressingMode::IndirectY, cycles: 8, extra: 0 },
        0x34 => OpcodeEntry { op: Operation::NOP, mode: AddressingMode::ZeroPageX, cycles: 4, extra: 0 },
        0x35 => OpcodeEntry { op: Operation::AND, mode: AddressingMode::ZeroPageX, cycles: 4, extra: 0 },
        0x36 => OpcodeEntry { op: Operation::ROL, mode: AddressingMode::ZeroPageX, cycles: 6, extra: 0 },
        0x37 => OpcodeEntry { op: Operation::RLA, mode: AddressingMode::ZeroPageX, cycles: 6, extra: 0 },
        0x38 => OpcodeEntry { op: Operation::SEC, mode: AddressingMode::Implicit, cycles: 2, extra: 0 },
        0x39 => OpcodeEntry { op: Operation::AND, mode: AddressingMode::AbsoluteY, cycles: 4, extra: 1 },
        0x3A => OpcodeEntry { op: Operation::NOP, mode: AddressingMode::Implicit, cycles: 2, extra: 0 },
        0x3B => OpcodeEntry { op: Operation::RLA, mode: AddressingMode::AbsoluteY, cycles: 7, extra: 0 },
        0x3C => OpcodeEntry { op: Operation::NOP, mode: AddressingMode::AbsoluteX, cycles: 4, extra: 1 },
        0x3D => OpcodeEntry { op: Operation::AND, mode: AddressingMode::AbsoluteX, cycles: 4, extra: 1 },
        0x3E => OpcodeEntry { op: Operation::ROL, mode: AddressingMode::AbsoluteX, cycles: 7, extra: 0 },
        0x3F => OpcodeEntry { op: Operation::RLA, mode: AddressingMode::AbsoluteX, cycles: 7, extra: 0 },
        0x40 => OpcodeEntry { op: Operation::RTI, mode: AddressingMode::Implicit, cycles: 6, extra: 0 },
        0x41 => OpcodeEntry { op: Operation::EOR, mode: AddressingMode::IndirectX, cycles: 6, extra: 0 },
        0x42 => OpcodeEntry { op: Operation::KIL, mode: AddressingMode::Implicit, cycles: 0, extra: 0 },
        0x43 => OpcodeEntry { op: Operation::SRE, mode: AddressingMode::IndirectX, cycles: 8, extra: 0 },
        0x44 => OpcodeEntry { op: Operation::NOP, mode: AddressingMode::ZeroPage, cycles: 3, extra: 0 },
        0x45 => OpcodeEntry { op: Operation::EOR, mode: AddressingMode::ZeroPage, cycles: 3, extra: 0 },
        0x46 => OpcodeEntry { op: Operation::LSR, mode: AddressingMode::ZeroPage, cycles: 5, extra: 0 },
        0x47 => OpcodeEntry { op: Operation::SRE, mode: AddressingMode::ZeroPage, cycles: 5, extra: 0 },
        0x48 => OpcodeEntry { op: Operation::PHA, mode: AddressingMode::Implicit, cycles: 3, extra: 0 },
        0x49 => OpcodeEntry { op: Operation::EOR, mode: AddressingMode::Immediate, cycles: 2, extra: 0 },
        0x4A => OpcodeEntry { op: Operation::LSR, mode: AddressingMode::Implicit, cycles: 2, extra: 0 },
        0x4B => OpcodeEntry { op: Operation::ALR, mode: AddressingMode::Immediate, cycles: 2, extra: 0 },
        0x4C => OpcodeEntry { op: Operation::JMP, mode: AddressingMode::Absolute, cycles: 3, extra: 0 },
        0x4D => OpcodeEntry { op: Operation::EOR, mode: AddressingMode::Absolute, cycles: 4, extra: 0 },
        0x4E => OpcodeEntry { op: Operation::LSR, mode: AddressingMode::Absolute, cycles: 6, extra: 0 },
        0x4F => OpcodeEntry { op: Operation::SRE, mode: AddressingMode::Absolute, cycles: 6, extra: 0 },
        0x50 => OpcodeEntry { op: Operation::BVC, mode: AddressingMode::Relative, cycles: 2, extra: 1 },
        0x51 => OpcodeEntry { op: Operation::EOR, mode: AddressingMode::IndirectY, cycles: 5, extra: 1 },
        0x52 => OpcodeEntry { op: Operation::KIL, mode: AddressingMode::Implicit, cycles: 0, extra: 0 },
        0x53 => OpcodeEntry { op: Operation::SRE, mode: AddressingMode::IndirectY, cycles: 8, extra: 0 },
        0x54 => OpcodeEntry { op: Operation::NOP, mode: AddressingMode::ZeroPageX, cycles: 4, extra: 0 },
        0x55 => OpcodeEntry { op: Operation::EOR, mode: AddressingMode::ZeroPageX, cycles: 4, extra: 0 },
        0x56 => OpcodeEntry { op: Operation::LSR, mode: AddressingMode::ZeroPageX, cycles: 6, extra: 0 },
        0x57 => OpcodeEntry { op: Operation::SRE, mode: AddressingMode::ZeroPageX, cycles: 6, extra: 0 },
        0x58 => OpcodeEntry { op: Operation::CLI, mode: AddressingMode::Implicit, cycles: 2, extra: 0 },
        0x59 => OpcodeEntry { op: Operation::EOR, mode: AddressingMode::AbsoluteY, cycles: 4, extra: 1 },
        0x5A => OpcodeEntry { op: Operation::NOP, mode: AddressingMode::Implicit, cycles: 2, extra: 0 },
        0x5B => OpcodeEntry { op: Operation::SRE, mode: AddressingMode::AbsoluteY, cycles: 7, extra: 0 },
        0x5C => OpcodeEntry { op: Operation::NOP, mode: AddressingMode::AbsoluteX, cycles: 4, extra: 1 },
        0x5D => OpcodeEntry { op: Operation::EOR, mode: AddressingMode::AbsoluteX, cycles: 4, extra: 1 },
        0x5E => OpcodeEntry { op: Operation::LSR, mode: AddressingMode::AbsoluteX, cycles: 7, extra: 0 },
        0x5F => OpcodeEntry { op: Operation::SRE, mode: AddressingMode::AbsoluteX, cycles: 7, extra: 0 },
        0x60 => OpcodeEntry { op: Operation::RTS, mode: AddressingMode::Implicit, cycles: 6, extra: 0 },
        0x61 => OpcodeEntry { op: Operation::ADC, mode: AddressingMode::IndirectX, cycles: 6, extra: 0 },
        0x62 => OpcodeEntry { op: Operation::KIL, mode: AddressingMode::Implicit, cycles: 0, extra: 0 },
        0x63 => OpcodeEntry { op: Operation::RRA, mode: AddressingMode::IndirectX, cycles: 8, extra: 0 },
        0x64 => OpcodeEntry { op: Operation::NOP, mode: AddressingMode::ZeroPage, cycles: 3, extra: 0 },
        0x65 => OpcodeEntry { op: Operation::ADC, mode: AddressingMode::ZeroPage, cycles: 3, extra: 0 },
        0x66 => OpcodeEntry { op: Operation::ROR, mode: AddressingMode::ZeroPage, cycles: 5, extra: 0 },
        0x67 => OpcodeEntry { op: Operation::RRA, mode: AddressingMode::ZeroPage, cycles: 5, extra: 0 },
        0x68 => OpcodeEntry { op: Operation::PLA, mode: AddressingMode::Implicit, cycles: 4, extra: 0 },
        0x69 => OpcodeEntry { op: Operation::ADC, mode: AddressingMode::Immediate, cycles: 2, extra: 0 },
        0x6A => OpcodeEntry { op: Operation::ROR, mode: AddressingMode::Implicit, cycles: 2, extra: 0 },
        0x6B => OpcodeEntry { op: Operation::ARR, mode: AddressingMode::Immediate, cycles: 2, extra: 0 },
        0x6C => OpcodeEntry { op: Operation::JMP, mode: AddressingMode::Indirect, cycles: 5, extra: 0 },
        0x6D => OpcodeEntry { op: Operation::ADC, mode: AddressingMode::Absolute, cycles: 4, extra: 0 },
        0x6E => OpcodeEntry { op: Operation::ROR, mode: AddressingMode::Absolute, cycles: 6, extra: 0 },
        0x6F => OpcodeEntry { op: Operation::RRA, mode: AddressingMode::Absolute, cycles: 6, extra: 0 },
        0x70 => OpcodeEntry { op: Operation::BVS, mode: AddressingMode::Relative, cycles: 2, extra: 1 },
        0x71 => OpcodeEntry { op: Operation::ADC, mode: AddressingMode::IndirectY, cycles: 5, extra: 1 },
        0x72 => OpcodeEntry { op: Operation::KIL, mode: AddressingMode::Implicit, cycles: 0, extra: 0 },
        0x73 => OpcodeEntry { op: Operation::RRA, mode: AddressingMode::IndirectY, cycles: 8, extra: 0 },
        0x74 => OpcodeEntry { op: Operation::NOP, mode: AddressingMode::ZeroPageX, cycles: 4, extra: 0 },
        0x75 => OpcodeEntry { op: Operation::ADC, mode: AddressingMode::ZeroPageX, cycles: 4, extra: 0 },
        0x76 => OpcodeEntry { op: Operation::ROR, mode: AddressingMode::ZeroPageX, cycles: 6, extra: 0 },
        0x77 => OpcodeEntry { op: Operation::RRA, mode: AddressingMode::ZeroPageX, cycles: 6, extra: 0 },
        0x78 => OpcodeEntry { op: Operation::SEI, mode: AddressingMode::Implicit, cycles: 2, extra: 0 },
        0x79 => OpcodeEntry { op: Operation::ADC, mode: AddressingMode::AbsoluteY, cycles: 4, extra: 1 },
        0x7A => OpcodeEntry { op: Operation::NOP, mode: AddressingMode::Implicit, cycles: 2, extra: 0 },
        0x7B => OpcodeEntry { op: Operation::RRA, mode: AddressingMode::AbsoluteY, cycles: 7, extra: 0 },
        0x7C => OpcodeEntry { op: Operation::NOP, mode: AddressingMode::AbsoluteX, cycles: 4, extra: 1 },
        0x7D => OpcodeEntry { op: Operation::ADC, mode: AddressingMode::AbsoluteX, cycles: 4, extra: 1 },
        0x7E => OpcodeEntry { op: Operation::ROR, mode: AddressingMode::AbsoluteX, cycles: 7, extra: 0 },
        0x7F => OpcodeEntry { op: Operation::RRA, mode: AddressingMode::AbsoluteX, cycles: 7, extra: 0 },
        0x80 => OpcodeEntry { op: Operation::NOP, mode: AddressingMode::Immediate, cycles: 2, extra: 0 },
        0x81 => OpcodeEntry { op: Operation::STA, mode: AddressingMode::IndirectX, cycles: 6, extra: 0 },
        0x82 => OpcodeEntry { op: Operation::NOP, mode: AddressingMode::Immediate, cycles: 2, extra: 0 },
        0x83 => OpcodeEntry { op: Operation::SAX, mode: AddressingMode::IndirectX, cycles: 6, extra: 0 },
        0x84 => OpcodeEntry { op: Operation::STY, mode: AddressingMode::ZeroPage, cycles: 3, extra: 0 },
        0x85 => OpcodeEntry { op: Operation::STA, mode: AddressingMode::ZeroPage, cycles: 3, extra: 0 },
        0x86 => OpcodeEntry { op: Operation::STX, mode: AddressingMode::ZeroPage, cycles: 3, extra: 0 },
        0x87 => OpcodeEntry { op: Operation::SAX, mode: AddressingMode::ZeroPage, cycles: 3, extra: 0 },
        0x88 => OpcodeEntry { op: Operation::DEY, mode: AddressingMode::Implicit, cycles: 2, extra: 0 },
        0x89 => OpcodeEntry { op: Operation::NOP, mode: AddressingMode::Immediate, cycles: 2, extra: 0 },
        0x8A => OpcodeEntry { op: Operation::TXA, mode: AddressingMode::Implicit, cycles: 2, extra: 0 },
        0x8B => OpcodeEntry { op: Operation::XAA, mode: AddressingMode::Immediate, cycles: 2, extra: 1 },
        0x8C => OpcodeEntry { op: Operation::STY, mode: AddressingMode::Absolute, cycles: 4, extra: 0 },
        0x8D => OpcodeEntry { op: Operation::STA, mode: AddressingMode::Absolute, cycles: 4, extra: 0 },
        0x8E => OpcodeEntry { op: Operation::STX, mode: AddressingMode::Absolute, cycles: 4, extra: 0 },
        0x8F => OpcodeEntry { op: Operation::SAX, mode: AddressingMode::Absolute, cycles: 4, extra: 0 },
        0x90 => OpcodeEntry { op: Operation::BCC, mode: AddressingMode::Relative, cycles: 2, extra: 1 },
        0x91 => OpcodeEntry { op: Operation::STA, mode: AddressingMode::IndirectY, cycles: 6, extra: 0 },
        0x92 => OpcodeEntry { op: Operation::KIL, mode: AddressingMode::Implicit, cycles: 0, extra: 0 },
        0x93 => OpcodeEntry { op: Operation::AHX, mode: AddressingMode::IndirectY, cycles: 6, extra: 0 },
        0x94 => OpcodeEntry { op: Operation::STY, mode: AddressingMode::ZeroPageX, cycles: 4, extra: 0 },
        0x95 => OpcodeEntry { op: Operation::STA, mode: AddressingMode::ZeroPageX, cycles: 4, extra: 0 },
        0x96 => OpcodeEntry { op: Operation::STX, mode: AddressingMode::ZeroPageY, cycles: 4, extra: 0 },
        0x97 => OpcodeEntry { op: Operation::SAX, mode: AddressingMode::ZeroPageY, cycles: 4, extra: 0 },
        0x98 => OpcodeEntry { op: Operation::TYA, mode: AddressingMode::Implicit, cycles: 2, extra: 0 },
        0x99 => OpcodeEntry { op: Operation::STA, mode: AddressingMode::AbsoluteY, cycles: 5, extra: 0 },
        0x9A => OpcodeEntry { op: Operation::TXS, mode: AddressingMode::Implicit, cycles: 2, extra: 0 },
        0x9B => OpcodeEntry { op: Operation::TAS, mode: AddressingMode::AbsoluteY, cycles: 5, extra: 0 },
        0x9C => OpcodeEntry { op: Operation::SHY, mode: AddressingMode::AbsoluteX, cycles: 5, extra: 0 },
        0x9D => OpcodeEntry { op: Operation::STA, mode: AddressingMode::AbsoluteX, cycles: 5, extra: 0 },
        0x9E => OpcodeEntry { op: Operation::SHX, mode: AddressingMode::AbsoluteY, cycles: 5, extra: 0 },
        0x9F => OpcodeEntry { op: Operation::AHX, mode: AddressingMode::AbsoluteY, cycles: 5, extra: 0 },
        0xA0 => OpcodeEntry { op: Operation::LDY, mode: AddressingMode::Immediate, cycles: 2, extra: 0 },
        0xA1 => OpcodeEntry { op: Operation::LDA, mode: AddressingMode::IndirectX, cycles: 6, extra: 0 },
        0xA2 => OpcodeEntry { op: Operation::LDX, mode: AddressingMode::Immediate, cycles: 2, extra: 0 },
        0xA3 => OpcodeEntry { op: Operation::LAX, mode: AddressingMode::IndirectX, cycles: 6, extra: 0 },
        0xA4 => OpcodeEntry { op: Operation::LDY, mode: AddressingMode::ZeroPage, cycles: 3, extra: 0 },
        0xA5 => OpcodeEntry { op: Operation::LDA, mode: AddressingMode::ZeroPage, cycles: 3, extra: 0 },
        0xA6 => OpcodeEntry { op: Operation::LDX, mode: AddressingMode::ZeroPage, cycles: 3, extra: 0 },
        0xA7 => OpcodeEntry { op: Operation::LAX, mode: AddressingMode::ZeroPage, cycles: 3, extra: 0 },
        0xA8 => OpcodeEntry { op: Operation::TAY, mode: AddressingMode::Implicit, cycles: 2, extra: 0 },
        0xA9 => OpcodeEntry { op: Operation::LDA, mode: AddressingMode::Immediate, cycles: 2, extra: 0 },
        0xAA => OpcodeEntry { op: Operation::TAX, mode: AddressingMode::Implicit, cycles: 2, extra: 0 },
        0xAB => OpcodeEntry { op: Operation::LAX, mode: AddressingMode::Immediate, cycles: 2, extra: 0 },
        0xAC => OpcodeEntry { op: Operation::LDY, mode: AddressingMode::Absolute, cycles: 4, extra: 0 },
        0xAD => OpcodeEntry { op: Operation::LDA, mode: AddressingMode::Absolute, cycles: 4, extra: 0 },
        0xAE => OpcodeEntry { op: Operation::LDX, mode: AddressingMode::Absolute, cycles: 4, extra: 0 },
        0xAF => OpcodeEntry { op: Operation::LAX, mode: AddressingMode::Absolute, cycles: 4, extra: 0 },
        0xB0 => OpcodeEntry { op: Operation::BCS, mode: AddressingMode::Relative, cycles: 2, extra: 1 },
        0xB1 => OpcodeEntry { op: Operation::LDA, mode: AddressingMode::IndirectY, cycles: 5, extra: 1 },
        0xB2 => OpcodeEntry { op: Operation::KIL, mode: AddressingMode::Implicit, cycles: 0, extra: 0 },
        0xB3 => OpcodeEntry { op: Operation::LAX, mode: AddressingMode::IndirectY, cycles: 5, extra: 1 },
        0xB4 => OpcodeEntry { op: Operation::LDY, mode: AddressingMode::ZeroPageX, cycles: 4, extra: 0 },
        0xB5 => OpcodeEntry { op: Operation::LDA, mode: AddressingMode::ZeroPageX, cycles: 4, extra: 0 },
        0xB6 => OpcodeEntry { op: Operation::LDX, mode: AddressingMode::ZeroPageY, cycles: 4, extra: 0 },
        0xB7 => OpcodeEntry { op: Operation::LAX, mode: AddressingMode::ZeroPageY, cycles: 4, extra: 0 },
        0xB8 => OpcodeEntry { op: Operation::CLV, mode: AddressingMode::Implicit, cycles: 2, extra: 0 },
        0xB9 => OpcodeEntry { op: Operation::LDA, mode: AddressingMode::AbsoluteY, cycles: 4, extra: 1 },
        0xBA => OpcodeEntry { op: Operation::TSX, mode: AddressingMode::Implicit, cycles: 2, extra: 0 },
        0xBB => OpcodeEntry { op: Operation::LAS, mode: AddressingMode::AbsoluteY, cycles: 4, extra: 1 },
        0xBC => OpcodeEntry { op: Operation::LDY, mode: AddressingMode::AbsoluteX, cycles: 4, extra: 1 },
        0xBD => OpcodeEntry { op: Operation::LDA, mode: AddressingMode::AbsoluteX, cycles: 4, extra: 1 },
        0xBE => OpcodeEntry { op: Operation::LDX, mode: AddressingMode::AbsoluteY, cycles: 4, extra: 1 },
        0xBF => OpcodeEntry { op: Operation::LAX, mode: AddressingMode::AbsoluteY, cycles: 4, extra: 1 },
        0xC0 => OpcodeEntry { op: Operation::CPY, mode: AddressingMode::Immediate, cycles: 2, extra: 0 },
        0xC1 => OpcodeEntry { op: Operation::CMP, mode: AddressingMode::IndirectX, cycles: 6, extra: 0 },
        0xC2 => OpcodeEntry { op: Operation::NOP, mode: AddressingMode::Immediate, cycles: 2, extra: 0 },
        0xC3 => OpcodeEntry { op: Operation::DCP, mode: AddressingMode::IndirectX, cycles: 8, extra: 0 },
        0xC4 => OpcodeEntry { op: Operation::CPY, mode: AddressingMode::ZeroPage, cycles: 3, extra: 0 },
        0xC5 => OpcodeEntry { op: Operation::CMP, mode: AddressingMode::ZeroPage, cycles: 3, extra: 0 },
        0xC6 => OpcodeEntry { op: Operation::DEC, mode: AddressingMode::ZeroPage, cycles: 5, extra: 0 },
        0xC7 => OpcodeEntry { op: Operation::DCP, mode: AddressingMode::ZeroPage, cycles: 5, extra: 0 },
        0xC8 => OpcodeEntry { op: Operation::INY, mode: AddressingMode::Implicit, cycles: 2, extra: 0 },
        0xC9 => OpcodeEntry { op: Operation::CMP, mode: AddressingMode::Immediate, cycles: 2, extra: 0 },
        0xCA => OpcodeEntry { op: Operation::DEX, mode: AddressingMode::Implicit, cycles: 2, extra: 0 },
        0xCB => OpcodeEntry { op: Operation::AXS, mode: AddressingMode::Immediate, cycles: 2, extra: 0 },
        0xCC => OpcodeEntry { op: Operation::CPY, mode: AddressingMode::Absolute, cycles: 4, extra: 0 },
        0xCD => OpcodeEntry { op: Operation::CMP, mode: AddressingMode::Absolute, cycles: 4, extra: 0 },
        0xCE => OpcodeEntry { op: Operation::DEC, mode: AddressingMode::Absolute, cycles: 6, extra: 0 },
        0xCF => OpcodeEntry { op: Operation::DCP, mode: AddressingMode::Absolute, cycles: 6, extra: 0 },
        0xD0 => OpcodeEntry { op: Operation::BNE, mode: AddressingMode::Relative, cycles: 2, extra: 1 },
        0xD1 => OpcodeEntry { op: Operation::CMP, mode: AddressingMode::IndirectY, cycles: 5, extra: 1 },
        0xD2 => OpcodeEntry { op: Operation::KIL, mode: AddressingMode::Implicit, cycles: 0, extra: 0 },
        0xD3 => OpcodeEntry { op: Operation::DCP, mode: AddressingMode::IndirectY, cycles: 8, extra: 0 },
        0xD4 => OpcodeEntry { op: Operation::NOP, mode: AddressingMode::ZeroPageX, cycles: 4, extra: 0 },
        0xD5 => OpcodeEntry { op: Operation::CMP, mode: AddressingMode::ZeroPageX, cycles: 4, extra: 0 },
        0xD6 => OpcodeEntry { op: Operation::DEC, mode: AddressingMode::ZeroPageX, cycles: 6, extra: 0 },
        0xD7 => OpcodeEntry { op: Operation::DCP, mode: AddressingMode::ZeroPageX, cycles: 6, extra: 0 },
        0xD8 => OpcodeEntry { op: Operation::CLD, mode: AddressingMode::Implicit, cycles: 2, extra: 0 },
        0xD9 => OpcodeEntry { op: Operation::CMP, mode: AddressingMode::AbsoluteY, cycles: 4, extra: 1 },
        0xDA => OpcodeEntry { op: Operation::NOP, mode: AddressingMode::Implicit, cycles: 2, extra: 0 },
        0xDB => OpcodeEntry { op: Operation::DCP, mode: AddressingMode::AbsoluteY, cycles: 7, extra: 0 },
        0xDC => OpcodeEntry { op: Operation::NOP, mode: AddressingMode::AbsoluteX, cycles: 4, extra: 1 },
        0xDD => OpcodeEntry { op: Operation::CMP, mode: AddressingMode::AbsoluteX, cycles: 4, extra: 1 },
        0xDE => OpcodeEntry { op: Operation::DEC, mode: AddressingMode::AbsoluteX, cycles: 7, extra: 0 },
        0xDF => OpcodeEntry { op: Operation::DCP, mode: AddressingMode::AbsoluteX, cycles: 7, extra: 0 },
        0xE0 => OpcodeEntry { op: Operation::CPX, mode: AddressingMode::Immediate, cycles: 2, extra: 0 },
        0xE1 => OpcodeEntry { op: Operation::SBC, mode: AddressingMode::IndirectX, cycles: 6, extra: 0 },
        0xE2 => OpcodeEntry { op: Operation::NOP, mode: AddressingMode::Immediate, cycles: 2, extra: 0 },
        0xE3 => OpcodeEntry { op: Operation::ISC, mode: AddressingMode::IndirectX, cycles: 8, extra: 0 },
        0xE4 => OpcodeEntry { op: Operation::CPX, mode: AddressingMode::ZeroPage, cycles: 3, extra: 0 },
        0xE5 => OpcodeEntry { op: Operation::SBC, mode: AddressingMode::ZeroPage, cycles: 3, extra: 0 },
        0xE6 => OpcodeEntry { op: Operation::INC, mode: AddressingMode::ZeroPage, cycles: 5, extra: 0 },
        0xE7 => OpcodeEntry { op: Operation::ISC, mode: AddressingMode::ZeroPage, cycles: 5, extra: 0 },
        0xE8 => OpcodeEntry { op: Operation::INX, mode: AddressingMode::Implicit, cycles: 2, extra: 0 },
        0xE9 => OpcodeEntry { op: Operation::SBC, mode: AddressingMode::Immediate, cycles: 2, extra: 0 },
        0xEA => OpcodeEntry { op: Operation::NOP, mode: AddressingMode::Implicit, cycles: 2, extra: 0 },
        0xEB => OpcodeEntry { op: Operation::SBC, mode: AddressingMode::Immediate, cycles: 2, extra: 0 },
        0xEC => OpcodeEntry { op: Operation::CPX, mode: AddressingMode::Absolute, cycles: 4, extra: 0 },
        0xED => OpcodeEntry { op: Operation::SBC, mode: AddressingMode::Absolute, cycles: 4, extra: 0 },
        0xEE => OpcodeEntry { op: Operation::INC, mode: AddressingMode::Absolute, cycles: 6, extra: 0 },
        0xEF => OpcodeEntry { op: Operation::ISC, mode: AddressingMode::Absolute, cycles: 6, extra: 0 },
        0xF0 => OpcodeEntry { op: Operation::BEQ, mode: AddressingMode::Relative, cycles: 2, extra: 1 },
        0xF1 => OpcodeEntry { op: Operation::SBC, mode: AddressingMode::IndirectY, cycles: 5, extra: 1 },
        0xF2 => OpcodeEntry { op: Operation::KIL, mode: AddressingMode::Implicit, cycles: 0, extra: 0 },
        0xF3 => OpcodeEntry { op: Operation::ISC, mode: AddressingMode::IndirectY, cycles: 8, extra: 0 },
        0xF4 => OpcodeEntry { op: Operation::NOP, mode: AddressingMode::ZeroPageX, cycles: 4, extra: 0 },
        0xF5 => OpcodeEntry { op: Operation::SBC, mode: AddressingMode::ZeroPageX, cycles: 4, extra: 0 },
        0xF6 => OpcodeEntry { op: Operation::INC, mode: AddressingMode::ZeroPageX, cycles: 6, extra: 0 },
        0xF7 => OpcodeEntry { op: Operation::ISC, mode: AddressingMode::ZeroPageX, cycles: 6, extra: 0 },
        0xF8 => OpcodeEntry { op: Operation::SED, mode: AddressingMode::Implicit, cycles: 2, extra: 0 },
        0xF9 => OpcodeEntry { op: Operation::SBC, mode: AddressingMode::AbsoluteY, cycles: 4, extra: 1 },
        0xFA => OpcodeEntry { op: Operation::NOP, mode: AddressingMode::Implicit, cycles: 2, extra: 0 },
        0xFB => OpcodeEntry { op: Operation::ISC, mode: AddressingMode::AbsoluteY, cycles: 7, extra: 0 },
        0xFC => OpcodeEntry { op: Operation::NOP, mode: AddressingMode::AbsoluteX, cycles: 4, extra: 1 },
        0xFD => OpcodeEntry { op: Operation::SBC, mode: AddressingMode::AbsoluteX, cycles: 4, extra: 1 },
        0xFE => OpcodeEntry { op: Operation::INC, mode: AddressingMode::AbsoluteX, cycles: 7, extra: 0 },
        _ => OpcodeEntry { op: Operation::ISC, mode: AddressingMode::AbsoluteX, cycles: 7, extra: 0 },
    }
}

} // verus!

verus! {

/// The operations whose handlers store through or jump to the resolved
/// write target, and therefore need the addressing mode to produce one.
pub open spec fn spec_needs_write_target(op: Operation) -> bool {
    match op {
        Operation::JMP | Operation::JSR | Operation::STA | Operation::STX | Operation::STY => true,
        _ => false,
    }
}

/// Every table row whose operation stores through or jumps to the write
/// target uses an addressing mode that produces one.
#[verifier::rlimit(100)]
#[verifier::spinoff_prover]
pub proof fn lemma_write_target_modes(b: u8)
    ensures
        spec_needs_write_target(spec_opcode(b).op) ==> !(spec_opcode(b).mode is Accumulator)
            && !(spec_opcode(b).mode is Implicit),
{
    reveal(spec_opcode);
}

} // verus!

verus! {

/// The conditional-branch operations: the ones dispatched through the
/// shared branch executor.
pub open spec fn spec_is_branch(op: Operation) -> bool {
    match op {
        Operation::BCC | Operation::BCS | Operation::BEQ | Operation::BMI | Operation::BNE
            | Operation::BPL | Operation::BVC | Operation::BVS => true,
        _ => false,
    }
}

/// Facts the timing and subroutine laws need from the table: every
/// relative-mode row is a conditional branch with a base cost of two
/// cycles, call-subroutine rows are absolute-mode, and
/// return-from-subroutine rows are implicit-mode.
#[verifier::rlimit(100)]
#[verifier::spinoff_prover]
pub proof fn lemma_table_rows(b: u8)
    ensures
        spec_opcode(b).mode is Relative ==> spec_is_branch(spec_opcode(b).op)
            && spec_opcode(b).cycles == 2,
        spec_opcode(b).op == Operation::JSR ==> spec_opcode(b).mode is Absolute,
        spec_opcode(b).op == Operation::RTS ==> spec_opcode(b).mode is Implicit,
{
    reveal(spec_opcode);
}

} // verus!
