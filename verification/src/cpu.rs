//! The processor itself: register file, memory, the currently executing
//! instruction, and the flag helpers shared by the execution handlers.

use vstd::prelude::*;
use crate::constant::MEMORY_MAX;
use crate::constant::NEGATIVE_FLAG;
use crate::instruction::CpuInstruction;
use crate::opcode::Operation;
use crate::register::CpuRegister;

verus! {

/// A failure surfaced by the execution engine. The model is deterministic
/// and single-stepped, so a failure halts and returns control to the caller
/// with register and memory state intact for inspection.
#[derive(Clone, Copy, Debug, PartialEq, Eq)]
pub enum CpuError {
    /// An opcode table entry named an operation without a working handler.
    UnimplementedOperation(Operation),
}

/// The whole processor: registers, the flat 64 KiB memory it exclusively
/// owns, the cycle-stall counter, and the instruction currently being
/// executed.
#[derive(Debug)]
pub struct Cpu6502 {
    /// remaining stall cycles before the next fetch
    pub clocks_to_pause: u8,
    /// the register file
    pub registers: CpuRegister,
    /// the flat 16-bit address space; the stack page is hardwired to
    /// $0100-$01FF and working RAM below $2000 is mirrored every 0x800 bytes
    pub memory: Vec<u8>,
    /// the currently executing instruction, if any
    pub instr: Option<CpuInstruction>,
}

/// Mathematical model of the processor state: the registers, the memory as a
/// sequence of bytes, the stall counter, and the current instruction.
#[verifier::ext_equal]
pub ghost struct CpuModel {
    /// the register file
    pub regs: CpuRegister,
    /// the 64 KiB memory
    pub mem: Seq<u8>,
    /// remaining stall cycles
    pub clocks: u8,
    /// the currently executing instruction
    pub instr: Option<CpuInstruction>,
}

impl CpuModel {
    /// A well-formed processor holds exactly 2^16 bytes of memory.
    pub open spec fn wf(self) -> bool {
        self.mem.len() == MEMORY_MAX
    }
}

impl View for Cpu6502 {
    type V = CpuModel;

    open spec fn view(&self) -> CpuModel {
        CpuModel {
            regs: self.registers,
            mem: self.memory@,
            clocks: self.clocks_to_pause,
            instr: self.instr,
        }
    }
}

/// Whether a result byte sets the negative flag: bit 7 is set, that is, the
/// byte is at least 128.
pub open spec fn spec_negative(v: u8) -> bool {
    v >= 128
}

/// The register file after the zero and negative flags are recomputed from a
/// result byte.
pub open spec fn spec_with_zero_negative(r: CpuRegister, v: u8) -> CpuRegister {
    CpuRegister { zero: v == 0, negative: spec_negative(v), ..r }
}

/// The packed status byte: bit 0 carry, bit 1 zero, bit 2 interrupt-disable,
/// bit 3 decimal, bit 4 unused, bit 5 set only for an instruction-pushed
/// status, bit 6 overflow, bit 7 negative.
pub open spec fn spec_status_byte(r: CpuRegister, is_instruction: bool) -> u8 {
    ((if r.carry { 1int } else { 0 })
        + (if r.zero { 2int } else { 0 })
        + (if r.interrupt_disabled { 4int } else { 0 })
        + (if r.decimal { 8int } else { 0 })
        + (if is_instruction { 32int } else { 0 })
        + (if r.overflow { 64int } else { 0 })
        + (if r.negative { 128int } else { 0 })) as u8
}

/// The register file after the six flags are reloaded from a packed status
/// byte; bits 4 and 5 carry no flag and are ignored.
pub open spec fn spec_status_from_byte(r: CpuRegister, v: u8) -> CpuRegister {
    CpuRegister {
        carry: v & 0x01 != 0,
        zero: v & 0x02 != 0,
        interrupt_disabled: v & 0x04 != 0,
        decimal: v & 0x08 != 0,
        overflow: v & 0x40 != 0,
        negative: v & 0x80 != 0,
        ..r
    }
}

impl Default for Cpu6502 {
    /// A powered-on processor: power-on registers, zeroed memory, no stall,
    /// no current instruction.
    fn default() -> (r: Cpu6502)
        ensures
            r@.wf(),
            r@.regs == CpuRegister::power_on(),
            r@.mem =~= Seq::new(MEMORY_MAX as nat, |i: int| 0u8),
            r@.clocks == 0,
            r@.instr is None,
    {
        let mut memory: Vec<u8> = Vec::new();
        let mut i: usize = 0;
        while i < MEMORY_MAX
            invariant
                i <= MEMORY_MAX,
                memory@.len() == i,
                forall|j: int| 0 <= j < i ==> memory@[j] == 0u8,
            decreases MEMORY_MAX - i,
        {
            memory.push(0u8);
            i += 1;
        }
        proof {
            assert(memory@ =~= Seq::new(MEMORY_MAX as nat, |j: int| 0u8));
        }
        Cpu6502 {
            clocks_to_pause: 0,
            registers: CpuRegister::default(),
            memory,
            instr: None,
        }
    }
}

impl Cpu6502 {
    /// Whether a result byte would set the negative flag (its bit 7 is set).
    pub fn is_negative(&self, result: u8) -> (r: bool)
        ensures
            r == spec_negative(result),
    {
        proof {
            assert(((result & 0x80) == 0x80) == (result >= 128)) by (bit_vector);
        }
        (result & 0x80) == NEGATIVE_FLAG
    }

    /// Recomputes the zero and negative flags from a result byte; no other
    /// state changes.
    pub fn update_zero_and_negative_flags(&mut self, result: u8)
        ensures
            final(self)@ == (CpuModel {
                regs: spec_with_zero_negative(old(self)@.regs, result),
                ..old(self)@
            }),
    {
        self.registers.zero = result == 0x0;
        self.registers.negative = self.is_negative(result);
        proof {
            assert(self@ =~= CpuModel {
                regs: spec_with_zero_negative(old(self)@.regs, result),
                ..old(self)@
            });
        }
    }

    /// Recomputes the zero and negative flags from the accumulator.
    pub fn update_accumulator_flags(&mut self)
        ensures
            final(self)@ == (CpuModel {
                regs: spec_with_zero_negative(old(self)@.regs, old(self)@.regs.a),
                ..old(self)@
            }),
    {
        let a = self.registers.a;
        self.update_zero_and_negative_flags(a);
    }

    /// Packs the six flags into the status byte; bit 5 distinguishes an
    /// instruction-pushed status from a hardware-pushed one.
    pub fn status_register_byte(&self, is_instruction: bool) -> (r: u8)
        ensures
            r == spec_status_byte(self@.regs, is_instruction),
    {
        let r: u8 = (if self.registers.carry { 1u8 } else { 0 })
            + (if self.registers.zero { 2 } else { 0 })
            + (if self.registers.interrupt_disabled { 4 } else { 0 })
            + (if self.registers.decimal { 8 } else { 0 })
            + (if is_instruction { 32 } else { 0 })
            + (if self.registers.overflow { 64 } else { 0 })
            + (if self.registers.negative { 128 } else { 0 });
        r
    }

    /// Reloads the six flags from a packed status byte. Bit 4 (break) is not
    /// a real flag and bit 5 is unused, so both are ignored.
    pub fn set_status_register_from_byte(&mut self, v: u8)
        ensures
            final(self)@ == (CpuModel {
                regs: spec_status_from_byte(old(self)@.regs, v),
                ..old(self)@
            }),
    {
        self.registers.carry = v & 0b00000001 > 0;
        self.registers.zero = v & 0b00000010 > 0;
        self.registers.interrupt_disabled = v & 0b00000100 > 0;
        self.registers.decimal = v & 0b00001000 > 0;
        self.registers.overflow = v & 0b01000000 > 0;
        self.registers.negative = v & 0b10000000 > 0;
        proof {
            assert(self@ =~= CpuModel {
                regs: spec_status_from_byte(old(self)@.regs, v),
                ..old(self)@
            });
        }
    }
}

} // verus!

use crate::address::spec_resolve;
use crate::constant::ADDRESS_BRK;
use crate::constant::ADDRESS_TEST_PROGRAM;
use crate::constant::PC_ADDRESS_RESET;
use crate::constant::PRG_ROM_ADDRESS;
use crate::constant::SP_ADDRESS_RESET;
use crate::instr::axx::spec_adc;
use crate::instr::axx::spec_and;
use crate::instr::axx::spec_asl;
use crate::instr::bxx::spec_bcc;
use crate::instr::bxx::spec_bcs;
use crate::instr::bxx::spec_beq;
use crate::instr::bxx::spec_bit_test;
use crate::instr::bxx::spec_bmi;
use crate::instr::bxx::spec_bne;
use crate::instr::bxx::spec_bpl;
use crate::instr::bxx::spec_brk;
use crate::instr::bxx::spec_bvc;
use crate::instr::bxx::spec_bvs;
use crate::instr::cxx::spec_clc;
use crate::instr::cxx::spec_cld;
use crate::instr::cxx::spec_cli;
use crate::instr::cxx::spec_clv;
use crate::instr::cxx::spec_cmp;
use crate::instr::cxx::spec_cpx;
use crate::instr::cxx::spec_cpy;
use crate::instr::dxx::spec_dec;
use crate::instr::dxx::spec_dex;
use crate::instr::dxx::spec_dey;
use crate::instr::exx::spec_eor;
use crate::instr::ixx::spec_inc;
use crate::instr::ixx::spec_inx;
use crate::instr::ixx::spec_iny;
use crate::instr::jxx::spec_jmp;
use crate::instr::jxx::spec_jsr;
use crate::instr::lxx::spec_lda;
use crate::instr::lxx::spec_ldx;
use crate::instr::lxx::spec_ldy;
use crate::instr::lxx::spec_lsr;
use crate::instr::nxx::spec_nop;
use crate::instr::oxx::spec_ora;
use crate::instr::pxx::spec_pha;
use crate::instr::pxx::spec_php;
use crate::instr::pxx::spec_pla;
use crate::instr::pxx::spec_plp;
use crate::instr::rxx::spec_rol;
use crate::instr::rxx::spec_ror;
use crate::instr::rxx::spec_rti;
use crate::instr::rxx::spec_rts;
use crate::instr::sxx::spec_sbc;
use crate::instr::sxx::spec_sec;
use crate::instr::sxx::spec_sed;
use crate::instr::sxx::spec_sei;
use crate::instr::sxx::spec_sta;
use crate::instr::sxx::spec_stx;
use crate::instr::sxx::spec_sty;
use crate::instr::txx::spec_tax;
use crate::instr::txx::spec_tay;
use crate::instr::txx::spec_tsx;
use crate::instr::txx::spec_txa;
use crate::instr::txx::spec_txs;
use crate::instr::txx::spec_tya;
use crate::mem::spec_mem_read;
use crate::mem::spec_mem_read16;
use crate::opcode::lemma_write_target_modes;
use crate::opcode::opcode_entry;
use crate::opcode::spec_needs_write_target;
use crate::opcode::spec_opcode;
use crate::opcode::OpcodeEntry;
use crate::util::spec_wrapping_add16;
use crate::util::spec_wrapping_sub16;

verus! {

/// Iteration bound of the free-running execution loop. The loop is specified
/// up to this many iterations; a program that has not halted by then is
/// left wherever it got to.
pub const RUN_FUEL: u64 = 0xFFFF_FFFF;

/// The opcode byte the processor is about to fetch.
pub open spec fn spec_fetch(m: CpuModel) -> u8 {
    spec_mem_read(m, m.regs.pc)
}

/// Whether a decode-execute step of this state reaches a working handler:
/// the fetched operation is implemented.
pub open spec fn spec_step_ok(m: CpuModel) -> bool {
    spec_opcode(spec_fetch(m)).op.spec_implemented()
}

/// State transition of the executor dispatch: the handler selected by the
/// current instruction's operation tag.
#[verifier::opaque]
pub open spec fn spec_execute(m: CpuModel) -> CpuModel {
    match m.instr.unwrap().opcode {
        Operation::ADC => spec_adc(m),
        Operation::AND => spec_and(m),
        Operation::ASL => spec_asl(m),
        Operation::BCC => spec_bcc(m),
        Operation::BCS => spec_bcs(m),
        Operation::BEQ => spec_beq(m),
        Operation::BIT => spec_bit_test(m),
        Operation::BMI => spec_bmi(m),
        Operation::BNE => spec_bne(m),
        Operation::BPL => spec_bpl(m),
        Operation::BRK => spec_brk(m),
        Operation::BVC => spec_bvc(m),
        Operation::BVS => spec_bvs(m),
        Operation::CLC => spec_clc(m),
        Operation::CLD => spec_cld(m),
        Operation::CLI => spec_cli(m),
        Operation::CLV => spec_clv(m),
        Operation::CMP => spec_cmp(m),
        Operation::CPX => spec_cpx(m),
        Operation::CPY => spec_cpy(m),
        Operation::DEC => spec_dec(m),
        Operation::DEX => spec_dex(m),
        Operation::DEY => spec_dey(m),
        Operation::EOR => spec_eor(m),
        Operation::INC => spec_inc(m),
        Operation::INX => spec_inx(m),
        Operation::INY => spec_iny(m),
        Operation::JMP => spec_jmp(m),
        Operation::JSR => spec_jsr(m),
        Operation::LDA => spec_lda(m),
        Operation::LDX => spec_ldx(m),
        Operation::LDY => spec_ldy(m),
        Operation::LSR => spec_lsr(m),
        Operation::NOP => spec_nop(m),
        Operation::ORA => spec_ora(m),
        Operation::PHA => spec_pha(m),
        Operation::PHP => spec_php(m),
        Operation::PLA => spec_pla(m),
        Operation::PLP => spec_plp(m),
        Operation::ROL => spec_rol(m),
        Operation::ROR => spec_ror(m),
        Operation::RTI => spec_rti(m),
        Operation::RTS => spec_rts(m),
        Operation::SBC => spec_sbc(m),
        Operation::SEC => spec_sec(m),
        Operation::SED => spec_sed(m),
        Operation::SEI => spec_sei(m),
        Operation::STA => spec_sta(m),
        Operation::STX => spec_stx(m),
        Operation::STY => spec_sty(m),
        Operation::TAX => spec_tax(m),
        Operation::TAY => spec_tay(m),
        Operation::TSX => spec_tsx(m),
        Operation::TXA => spec_txa(m),
        Operation::TXS => spec_txs(m),
        Operation::TYA => spec_tya(m),
        _ => m,
    }
}

/// The decoded instruction one step of this state assembles: the table row
/// of the fetched opcode byte, with the resolved operand and write target
/// filled in.
pub open spec fn spec_decoded_instruction(m: CpuModel) -> CpuInstruction {
    let e = spec_opcode(spec_fetch(m));
    let resolved = spec_resolve(m, e.mode);
    CpuInstruction {
        opcode: e.op,
        cycle: e.cycles,
        address_mode: e.mode,
        extra_cycle: e.extra,
        mode_args: resolved.value,
        write_target: resolved.addr,
    }
}

/// State transition of one decode-execute step: fetch and decode the opcode
/// byte, resolve the addressing mode, advance the program counter past the
/// whole instruction, run the handler (which may overwrite the program
/// counter), and set the stall counter to the instruction's cycle cost less
/// the cycle just spent. When the step reaches no working handler, nothing
/// changes.
#[verifier::opaque]
pub open spec fn spec_step(m: CpuModel) -> CpuModel {
    if !spec_step_ok(m) {
        m
    } else {
        let e = spec_opcode(spec_fetch(m));
        let resolved = spec_resolve(m, e.mode);
        let fetched = CpuModel {
            regs: CpuRegister {
                pc: spec_wrapping_add16(m.regs.pc, (resolved.length + 1) as u16),
                ..m.regs
            },
            instr: Some(spec_decoded_instruction(m)),
            ..m
        };
        let executed = spec_execute(fetched);
        let extra: int = if resolved.page_crossed && e.extra == 1 { 1 } else { 0 };
        CpuModel { clocks: ((executed.clocks + e.cycles + 255 + extra) % 256) as u8, ..executed }
    }
}

/// State after the free-running loop stalls for one cycle.
pub open spec fn spec_clock_stall(m: CpuModel) -> CpuModel {
    CpuModel { clocks: (m.clocks - 1) as u8, ..m }
}

/// State transition of the free-running execution loop, bounded by `fuel`
/// iterations: it stalls away pending cycles, halts at the break vector or
/// on fetching the halt operation, stops where a step reaches no working
/// handler, and otherwise steps.
pub open spec fn spec_clocked(m: CpuModel, fuel: nat) -> CpuModel
    decreases fuel,
{
    if fuel == 0 {
        m
    } else if m.regs.pc == ADDRESS_BRK {
        m
    } else if m.clocks > 0 {
        spec_clocked(spec_clock_stall(m), (fuel - 1) as nat)
    } else if spec_opcode(spec_fetch(m)).op == Operation::BRK {
        m
    } else if !spec_step_ok(m) {
        m
    } else {
        spec_clocked(spec_step(m), (fuel - 1) as nat)
    }
}

/// Whether the free-running loop runs to a halt (or out of fuel) without
/// hitting an operation that has no working handler.
pub open spec fn spec_clocked_ok(m: CpuModel, fuel: nat) -> bool
    decreases fuel,
{
    if fuel == 0 {
        true
    } else if m.regs.pc == ADDRESS_BRK {
        true
    } else if m.clocks > 0 {
        spec_clocked_ok(spec_clock_stall(m), (fuel - 1) as nat)
    } else if spec_opcode(spec_fetch(m)).op == Operation::BRK {
        true
    } else if !spec_step_ok(m) {
        false
    } else {
        spec_clocked_ok(spec_step(m), (fuel - 1) as nat)
    }
}

/// The state with the stall counter cleared, as the bounded entry point
/// overrides stall bookkeeping before every step.
pub open spec fn spec_zero_clocks(m: CpuModel) -> CpuModel {
    CpuModel { clocks: 0, ..m }
}

/// State transition of the bounded entry point: exactly `n` decode-execute
/// steps, ignoring stall bookkeeping, stopping early at the break vector,
/// on fetching the halt operation, or where a step reaches no working
/// handler.
pub open spec fn spec_bounded_run(m: CpuModel, n: nat) -> CpuModel
    decreases n,
{
    if n == 0 {
        m
    } else if m.regs.pc == ADDRESS_BRK {
        m
    } else if spec_opcode(spec_fetch(m)).op == Operation::BRK {
        m
    } else if !spec_step_ok(spec_zero_clocks(m)) {
        spec_zero_clocks(m)
    } else {
        spec_bounded_run(spec_step(spec_zero_clocks(m)), (n - 1) as nat)
    }
}

/// Whether the bounded entry point performs its steps without hitting an
/// operation that has no working handler.
pub open spec fn spec_bounded_run_ok(m: CpuModel, n: nat) -> bool
    decreases n,
{
    if n == 0 {
        true
    } else if m.regs.pc == ADDRESS_BRK {
        true
    } else if spec_opcode(spec_fetch(m)).op == Operation::BRK {
        true
    } else if !spec_step_ok(spec_zero_clocks(m)) {
        false
    } else {
        spec_bounded_run_ok(spec_step(spec_zero_clocks(m)), (n - 1) as nat)
    }
}

/// State transition of a reset: the program counter is reloaded from the
/// reset vector; the accumulator, index X and all flags are cleared; the
/// stack pointer takes its reset value; no instruction is current.
pub open spec fn spec_reset(m: CpuModel) -> CpuModel {
    CpuModel {
        regs: CpuRegister {
            a: 0,
            x: 0,
            y: m.regs.y,
            pc: spec_mem_read16(m, PC_ADDRESS_RESET),
            sp: SP_ADDRESS_RESET,
            carry: false,
            zero: false,
            interrupt_disabled: false,
            decimal: false,
            overflow: false,
            negative: false,
        },
        instr: None,
        ..m
    }
}

/// The memory after `bytes` are copied in starting at `base`.
pub open spec fn spec_load_at(m: CpuModel, base: u16, bytes: Seq<u8>) -> CpuModel {
    CpuModel {
        mem: Seq::new(
            m.mem.len(),
            |i: int| if base <= i < base + bytes.len() { bytes[i - base] } else { m.mem[i] },
        ),
        ..m
    }
}

impl Cpu6502 {
    /// Decode: one table lookup by opcode byte. The operand value and write
    /// target stay empty until the addressing-mode resolver fills them in.
    pub fn decode_instruction(&self, opcode: u8) -> (r: Result<CpuInstruction, CpuError>)
        ensures
            r == Ok::<CpuInstruction, CpuError>(CpuInstruction {
                opcode: spec_opcode(opcode).op,
                cycle: spec_opcode(opcode).cycles,
                address_mode: spec_opcode(opcode).mode,
                extra_cycle: spec_opcode(opcode).extra,
                write_target: None,
                mode_args: 0,
            }),
    {
        let entry: OpcodeEntry = opcode_entry(opcode);
        Ok(CpuInstruction {
            opcode: entry.op,
            cycle: entry.cycles,
            address_mode: entry.mode,
            extra_cycle: entry.extra,
            write_target: None,
            mode_args: 0,
        })
    }

    /// Dispatches the current instruction to the handler its operation tag
    /// names. An operation without a working handler is a distinct,
    /// explicit failure, never a silent no-op; the state is left intact.
    pub fn execute_instruction(&mut self, instruction: &CpuInstruction) -> (r: Result<(), CpuError>)
        requires
            old(self)@.wf(),
            old(self)@.instr == Some(*instruction),
            old(self)@.clocks <= 253,
            spec_needs_write_target(instruction.opcode) ==> instruction.write_target is Some,
        ensures
            instruction.opcode.spec_implemented() ==> r is Ok
                && final(self)@ == spec_execute(old(self)@) && final(self)@.wf(),
            !instruction.opcode.spec_implemented() ==> r == Err::<(), CpuError>(
                CpuError::UnimplementedOperation(instruction.opcode),
            ) && final(self)@ == old(self)@,
    {
        proof {
            reveal(spec_execute);
        }
        match instruction.opcode {
            Operation::ADC => self.ADC(),
            Operation::AND => self.AND(),
            Operation::ASL => self.ASL(),
            Operation::BCC => self.BCC(),
            Operation::BCS => self.BCS(),
            Operation::BEQ => self.BEQ(),
            Operation::BIT => self.BIT(),
            Operation::BMI => self.BMI(),
            Operation::BNE => self.BNE(),
            Operation::BPL => self.BPL(),
            Operation::BRK => self.BRK(),
            Operation::BVC => self.BVC(),
            Operation::BVS => self.BVS(),
            Operation::CLC => self.CLC(),
            Operation::CLD => self.CLD(),
            Operation::CLI => self.CLI(),
            Operation::CLV => self.CLV(),
            Operation::CMP => self.CMP(),
            Operation::CPX => self.CPX(),
            Operation::CPY => self.CPY(),
            Operation::DEC => self.DEC(),
            Operation::DEX => self.DEX(),
            Operation::DEY => self.DEY(),
            Operation::EOR => self.EOR(),
            Operation::INC => self.INC(),
            Operation::INX => self.INX(),
            Operation::INY => self.INY(),
            Operation::JMP => self.JMP(),
            Operation::JSR => self.JSR(),
            Operation::LDA => self.LDA(),
            Operation::LDX => self.LDX(),
            Operation::LDY => self.LDY(),
            Operation::LSR => self.LSR(),
            Operation::NOP => self.NOP(),
            Operation::ORA => self.ORA(),
            Operation::PHA => self.PHA(),
            Operation::PHP => self.PHP(),
            Operation::PLA => self.PLA(),
            Operation::PLP => self.PLP(),
            Operation::ROL => self.ROL(),
            Operation::ROR => self.ROR(),
            Operation::RTI => self.RTI(),
            Operation::RTS => self.RTS(),
            Operation::SBC => self.SBC(),
            Operation::SEC => self.SEC(),
            Operation::SED => self.SED(),
            Operation::SEI => self.SEI(),
            Operation::STA => self.STA(),
            Operation::STX => self.STX(),
            Operation::STY => self.STY(),
            Operation::TAX => self.TAX(),
            Operation::TAY => self.TAY(),
            Operation::TSX => self.TSX(),
            Operation::TXA => self.TXA(),
            Operation::TXS => self.TXS(),
            Operation::TYA => self.TYA(),
            _ => Err(CpuError::UnimplementedOperation(instruction.opcode)),
        }
    }

    /// One fetch-decode-resolve-execute step. The program counter advances
    /// past the whole encoded instruction before the handler runs;
    /// control-flow handlers then overwrite it. The stall counter takes the
    /// instruction's cycle cost less the cycle this step itself spends:
    /// base cycles, plus one for an eligible opcode whose indexed mode
    /// crossed a page, plus what a taken branch adds.
    pub fn step(&mut self) -> (r: Result<(), CpuError>)
        requires
            old(self)@.wf(),
            old(self)@.clocks == 0,
        ensures
            spec_step_ok(old(self)@) ==> r is Ok && final(self)@ == spec_step(old(self)@)
                && final(self)@.wf(),
            !spec_step_ok(old(self)@) ==> r == Err::<(), CpuError>(
                CpuError::UnimplementedOperation(spec_opcode(spec_fetch(old(self)@)).op),
            ) && final(self)@ == old(self)@,
    {
        proof {
            reveal(spec_step);
        }
        let opcode = match self.mem_read(self.registers.pc) {
            Ok(b) => b,
            Err(e) => { return Err(e); },
        };
        let mut instr = match self.decode_instruction(opcode) {
            Ok(i) => i,
            Err(e) => { return Err(e); },
        };
        let (addr, addr_value, num_bytes, page_crossed) = match self.resolve_operand(instr.address_mode) {
            Ok(t) => t,
            Err(e) => { return Err(e); },
        };
        if !instr.opcode.implemented() {
            return Err(CpuError::UnimplementedOperation(instr.opcode));
        }
        proof {
            lemma_write_target_modes(opcode);
        }
        instr.mode_args = addr_value;
        instr.write_target = addr;
        self.instr = Some(instr);
        proof {
            assert(num_bytes <= 2);
        }
        self.registers.pc = self.registers.pc.wrapping_add(num_bytes + 1);
        let ghost fetched = self@;
        proof {
            assert(instr == spec_decoded_instruction(old(self)@));
            assert(fetched =~= (CpuModel {
                regs: CpuRegister {
                    pc: spec_wrapping_add16(
                        old(self)@.regs.pc,
                        (spec_resolve(old(self)@, spec_opcode(opcode).mode).length + 1) as u16,
                    ),
                    ..old(self)@.regs
                },
                instr: Some(spec_decoded_instruction(old(self)@)),
                ..old(self)@
            }));
        }
        let r = self.execute_instruction(&instr);
        if r.is_err() {
            return r;
        }
        proof {
            assert(self@ == spec_execute(fetched));
        }
        let extra: u16 = if page_crossed && instr.extra_cycle == 1 { 1 } else { 0 };
        let total: u16 = self.clocks_to_pause as u16 + instr.cycle as u16 + 255 + extra;
        self.clocks_to_pause = (total % 256) as u8;
        proof {
            assert(self@ =~= spec_step(old(self)@));
        }
        Ok(())
    }

    /// The free-running fetch-decode-execute loop: stalls away pending
    /// cycles, halts at the break vector or on fetching the halt operation,
    /// and reports an unimplemented operation as an error with the state
    /// intact.
    pub fn clocked(&mut self) -> (r: Result<(), CpuError>)
        requires
            old(self)@.wf(),
        ensures
            final(self)@ == spec_clocked(old(self)@, RUN_FUEL as nat),
            final(self)@.wf(),
            r is Ok <==> spec_clocked_ok(old(self)@, RUN_FUEL as nat),
    {
        let mut fuel: u64 = RUN_FUEL;
        while self.registers.pc != ADDRESS_BRK && fuel > 0
            invariant
                self@.wf(),
                fuel <= RUN_FUEL,
                spec_clocked(old(self)@, RUN_FUEL as nat) == spec_clocked(self@, fuel as nat),
                spec_clocked_ok(old(self)@, RUN_FUEL as nat) == spec_clocked_ok(self@, fuel as nat),
            ensures
                self@.wf(),
                final(self)@ == spec_clocked(old(self)@, RUN_FUEL as nat),
                spec_clocked_ok(old(self)@, RUN_FUEL as nat),
            decreases fuel,
        {
            let ghost at_head = self@;
            if self.clocks_to_pause > 0 {
                self.clocks_to_pause = self.clocks_to_pause - 1;
                fuel = fuel - 1;
                proof {
                    assert(self@ =~= spec_clock_stall(at_head));
                }
                continue;
            }
            let opcode = match self.mem_read(self.registers.pc) {
                Ok(b) => b,
                Err(e) => { return Err(e); },
            };
            let entry = opcode_entry(opcode);
            if matches!(entry.op, Operation::BRK) {
                proof {
                    assert(spec_clocked(at_head, fuel as nat) == at_head);
                    assert(spec_clocked_ok(at_head, fuel as nat));
                }
                break;
            }
            match self.step() {
                Ok(()) => {},
                Err(e) => {
                    proof {
                        assert(spec_clocked(at_head, fuel as nat) == at_head);
                        assert(!spec_clocked_ok(at_head, fuel as nat));
                    }
                    return Err(e);
                },
            }
            fuel = fuel - 1;
        }
        Ok(())
    }

    /// Runs the processor until it halts (see `clocked`).
    pub fn run(&mut self) -> (r: Result<(), CpuError>)
        requires
            old(self)@.wf(),
        ensures
            final(self)@ == spec_clocked(old(self)@, RUN_FUEL as nat),
            final(self)@.wf(),
            r is Ok <==> spec_clocked_ok(old(self)@, RUN_FUEL as nat),
    {
        self.clocked()
    }

    /// The bounded entry point for deterministic testing: executes exactly
    /// `n` decode-execute steps, overriding stall bookkeeping before each,
    /// so state can be asserted after a precise number of instructions.
    #[verifier::rlimit(100)]
    #[verifier::spinoff_prover]
    pub fn bounded_run(&mut self, n: usize) -> (r: Result<(), CpuError>)
        requires
            old(self)@.wf(),
        ensures
            final(self)@ == spec_bounded_run(old(self)@, n as nat),
            final(self)@.wf(),
            r is Ok <==> spec_bounded_run_ok(old(self)@, n as nat),
    {
        let mut i: usize = 0;
        while i < n
            invariant
                self@.wf(),
                i <= n,
                spec_bounded_run(old(self)@, n as nat) == spec_bounded_run(self@, (n - i) as nat),
                spec_bounded_run_ok(old(self)@, n as nat) == spec_bounded_run_ok(
                    self@,
                    (n - i) as nat,
                ),
            ensures
                self@.wf(),
                final(self)@ == spec_bounded_run(old(self)@, n as nat),
                spec_bounded_run_ok(old(self)@, n as nat),
            decreases n - i,
        {
            let ghost at_head = self@;
            if self.registers.pc == ADDRESS_BRK {
                proof {
                    assert(spec_bounded_run(at_head, (n - i) as nat) == at_head);
                    assert(spec_bounded_run_ok(at_head, (n - i) as nat));
                }
                break;
            }
            let opcode = match self.mem_read(self.registers.pc) {
                Ok(b) => b,
                Err(e) => { return Err(e); },
            };
            let entry = opcode_entry(opcode);
            if matches!(entry.op, Operation::BRK) {
                proof {
                    assert(spec_bounded_run(at_head, (n - i) as nat) == at_head);
                    assert(spec_bounded_run_ok(at_head, (n - i) as nat));
                }
                break;
            }
            self.clocks_to_pause = 0;
            proof {
                assert(self@ =~= spec_zero_clocks(at_head));
            }
            match self.step() {
                Ok(()) => {},
                Err(e) => {
                    proof {
                        assert(spec_bounded_run(at_head, (n - i) as nat) == spec_zero_clocks(at_head));
                        assert(!spec_bounded_run_ok(at_head, (n - i) as nat));
                    }
                    return Err(e);
                },
            }
            i = i + 1;
        }
        Ok(())
    }

    /// Resets the processor: reloads the program counter from the reset
    /// vector, clears the accumulator, index X and all flags, and sets the
    /// stack pointer to its reset value.
    pub fn reset(&mut self) -> (r: Result<(), CpuError>)
        requires
            old(self)@.wf(),
        ensures
            r is Ok,
            final(self)@ == spec_reset(old(self)@),
            final(self)@.wf(),
    {
        self.instr = None;
        self.registers.a = 0;
        self.registers.x = 0;
        self.registers.carry = false;
        self.registers.zero = false;
        self.registers.interrupt_disabled = false;
        self.registers.decimal = false;
        self.registers.overflow = false;
        self.registers.negative = false;
        self.registers.sp = SP_ADDRESS_RESET;
        let pc = match self.mem_read_u16(PC_ADDRESS_RESET) {
            Ok(v) => v,
            Err(e) => { return Err(e); },
        };
        self.registers.pc = pc;
        proof {
            assert(self@ =~= spec_reset(old(self)@));
        }
        Ok(())
    }

    /// Copies `program` into memory starting at `base`.
    fn load_at(&mut self, program: &Vec<u8>, base: u16)
        requires
            old(self)@.wf(),
            base + program@.len() <= 0x10000,
        ensures
            final(self)@ == spec_load_at(old(self)@, base, program@),
            final(self)@.wf(),
    {
        let mut i: usize = 0;
        while i < program.len()
            invariant
                old(self)@.wf(),
                self@.wf(),
                base + program@.len() <= 0x10000,
                i <= program@.len(),
                self@.regs == old(self)@.regs,
                self@.clocks == old(self)@.clocks,
                self@.instr == old(self)@.instr,
                self@.mem.len() == old(self)@.mem.len(),
                forall|j: int| base <= j < base + i ==> self@.mem[j] == program@[j - base],
                forall|j: int|
                    0 <= j < self@.mem.len() && !(base <= j < base + i) ==> self@.mem[j]
                        == old(self)@.mem[j],
            decreases program@.len() - i,
        {
            let b = program[i];
            self.memory.set(base as usize + i, b);
            i = i + 1;
        }
        proof {
            assert(self@ =~= spec_load_at(old(self)@, base, program@));
        }
    }

    /// Loads a program image at the program-ROM address, points the reset
    /// vector at it, and resets so the program counter picks it up.
    pub fn load_program(&mut self, program: Vec<u8>) -> (r: Result<(), CpuError>)
        requires
            old(self)@.wf(),
            program@.len() <= 0x8000,
        ensures
            r is Ok,
            final(self)@ == spec_reset(
                crate::mem::spec_mem_write16(
                    spec_load_at(old(self)@, PRG_ROM_ADDRESS, program@),
                    PC_ADDRESS_RESET,
                    PRG_ROM_ADDRESS,
                ),
            ),
            final(self)@.wf(),
    {
        self.load_at(&program, PRG_ROM_ADDRESS);
        let r = self.mem_write_u16(PC_ADDRESS_RESET, PRG_ROM_ADDRESS);
        if r.is_err() {
            return r;
        }
        self.reset()
    }

    /// Loads a program image at the test-program address, points the reset
    /// vector at it, and resets so the program counter picks it up.
    pub fn load_test_program(&mut self, program: Vec<u8>) -> (r: Result<(), CpuError>)
        requires
            old(self)@.wf(),
            program@.len() <= 0x4000,
        ensures
            r is Ok,
            final(self)@ == spec_reset(
                crate::mem::spec_mem_write16(
                    spec_load_at(old(self)@, ADDRESS_TEST_PROGRAM, program@),
                    PC_ADDRESS_RESET,
                    ADDRESS_TEST_PROGRAM,
                ),
            ),
            final(self)@.wf(),
    {
        self.load_at(&program, ADDRESS_TEST_PROGRAM);
        let r = self.mem_write_u16(PC_ADDRESS_RESET, ADDRESS_TEST_PROGRAM);
        if r.is_err() {
            return r;
        }
        self.reset()
    }
}

} // verus!

verus! {

/// Subroutine round trip: executing a call-subroutine instruction whose
/// target holds a return-from-subroutine instruction brings the program
/// counter to the instruction following the original call, three bytes past
/// the call.
#[verifier::rlimit(100)]
#[verifier::spinoff_prover]
pub proof fn lemma_subroutine_round_trip(m: CpuModel)
    requires
        m.wf(),
        spec_opcode(spec_fetch(m)).op == Operation::JSR,
        spec_step_ok(m),
        spec_opcode(spec_fetch(spec_step(m))).op == Operation::RTS,
    ensures
        spec_step(spec_step(m)).regs.pc == spec_wrapping_add16(m.regs.pc, 3),
{
    crate::opcode::lemma_table_rows(spec_fetch(m));
    let e = spec_opcode(spec_fetch(m));
    let resolved = spec_resolve(m, e.mode);
    assert(resolved.length == 2 && resolved.addr is Some) by {
        reveal(spec_resolve);
    }
    let fetched = CpuModel {
        regs: CpuRegister { pc: spec_wrapping_add16(m.regs.pc, 3), ..m.regs },
        instr: Some(spec_decoded_instruction(m)),
        ..m
    };
    let executed = spec_execute(fetched);
    let s1 = spec_step(m);
    assert(s1 == (CpuModel {
        clocks: ((executed.clocks + e.cycles + 255 + (if resolved.page_crossed && e.extra == 1 {
            1int
        } else {
            0
        })) % 256) as u8,
        ..executed
    })) by {
        reveal(spec_step);
    }
    assert(executed == spec_jsr(fetched)) by {
        reveal(spec_execute);
    }
    let ret = spec_wrapping_sub16(fetched.regs.pc, 1);
    assert(ret == spec_wrapping_add16(m.regs.pc, 2));

    crate::opcode::lemma_table_rows(spec_fetch(s1));
    let e2 = spec_opcode(spec_fetch(s1));
    let resolved2 = spec_resolve(s1, e2.mode);
    assert(resolved2.length == 0 && !resolved2.page_crossed) by {
        reveal(spec_resolve);
    }
    assert(spec_step_ok(s1)) by {
        reveal(spec_resolve);
    }
    let fetched2 = CpuModel {
        regs: CpuRegister { pc: spec_wrapping_add16(s1.regs.pc, 1), ..s1.regs },
        instr: Some(spec_decoded_instruction(s1)),
        ..s1
    };
    let executed2 = spec_execute(fetched2);
    assert(spec_step(s1) == (CpuModel {
        clocks: ((executed2.clocks + e2.cycles + 255) % 256) as u8,
        ..executed2
    })) by {
        reveal(spec_step);
    }
    assert(executed2 == spec_rts(fetched2)) by {
        reveal(spec_execute);
    }
    assert(crate::stack::spec_pop_stack16_value(fetched2) == ret);
    assert(spec_step(s1).regs.pc == spec_wrapping_add16(ret, 1));
    assert(spec_wrapping_add16(ret, 1) == spec_wrapping_add16(m.regs.pc, 3));
}

} // verus!

verus! {

/// The free-running execution loop as a trait: anything clocked runs until
/// it halts, specified against the mathematical model of the implementing
/// device.
pub trait Clocked {
    /// The mathematical model of the implementing device.
    spec fn model(&self) -> CpuModel;

    /// Runs the fetch-decode-execute loop until a halt.
    fn clocked(&mut self) -> (r: Result<(), CpuError>)
        requires
            old(self).model().wf(),
        ensures
            final(self).model() == spec_clocked(old(self).model(), RUN_FUEL as nat),
            (r is Ok <==> spec_clocked_ok(old(self).model(), RUN_FUEL as nat)),
    ;
}

impl Clocked for Cpu6502 {
    open spec fn model(&self) -> CpuModel {
        self@
    }

    fn clocked(&mut self) -> (r: Result<(), CpuError>) {
        Cpu6502::clocked(self)
    }
}

} // verus!

verus! {

/// The two status-byte conversions cohere: reloading flags from a packed
/// status byte restores exactly the six flags that were packed, whatever
/// flags the receiving register file held before.
pub proof fn lemma_status_byte_round_trip(r: CpuRegister, r2: CpuRegister, is_instruction: bool)
    ensures
        spec_status_from_byte(r2, spec_status_byte(r, is_instruction)) == (CpuRegister {
            carry: r.carry,
            zero: r.zero,
            interrupt_disabled: r.interrupt_disabled,
            decimal: r.decimal,
            overflow: r.overflow,
            negative: r.negative,
            ..r2
        }),
{
    let c: u8 = if r.carry { 1 } else { 0 };
    let z: u8 = if r.zero { 1 } else { 0 };
    let i: u8 = if r.interrupt_disabled { 1 } else { 0 };
    let d: u8 = if r.decimal { 1 } else { 0 };
    let b5: u8 = if is_instruction { 1 } else { 0 };
    let o: u8 = if r.overflow { 1 } else { 0 };
    let n: u8 = if r.negative { 1 } else { 0 };
    let v = spec_status_byte(r, is_instruction);
    assert(v == c + 2 * z + 4 * i + 8 * d + 32 * b5 + 64 * o + 128 * n);
    assert({
        let w = (c + 2 * z + 4 * i + 8 * d + 32 * b5 + 64 * o + 128 * n) as u8;
        ((w & 0x01 != 0) == (c == 1)) && ((w & 0x02 != 0) == (z == 1)) && ((w & 0x04 != 0) == (
        i == 1)) && ((w & 0x08 != 0) == (d == 1)) && ((w & 0x40 != 0) == (o == 1)) && ((w & 0x80
            != 0) == (n == 1))
    }) by (bit_vector)
        requires
            c <= 1,
            z <= 1,
            i <= 1,
            d <= 1,
            b5 <= 1,
            o <= 1,
            n <= 1,
    ;
}

} // verus!
