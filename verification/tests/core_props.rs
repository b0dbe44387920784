use nes6502::address::AddressingMode;
use nes6502::cpu::Cpu6502;
use nes6502::cpu::CpuError;
use nes6502::opcode::Operation;
use nes6502::ppu::Ppu;
use nes6502::ppu::ppuaddr::PpuAddrRegister;
use nes6502::ppu::ppuctrl::PpuControlRegister;
use nes6502::ppu::ppumask::PpuMaskRegister;
use nes6502::stack::get_sp_offset;

fn fresh_cpu(program: Vec<u8>) -> Cpu6502 {
    let mut cpu = Cpu6502::default();
    cpu.load_test_program(program).unwrap();
    cpu
}

#[test]
fn test_unimplemented_opcode_is_reported() {
    // 0x02 decodes to an undocumented operation without a working handler.
    let mut cpu = fresh_cpu(vec![0x02]);
    let pc = cpu.registers.pc;
    let err = cpu.run().unwrap_err();
    assert_eq!(err, CpuError::UnimplementedOperation(Operation::KIL));
    // the failure leaves the state intact for inspection
    assert_eq!(cpu.registers.pc, pc);
}

#[test]
fn test_load_program_uses_reset_vector() {
    let mut cpu = Cpu6502::default();
    cpu.load_program(vec![0xa9, 0x05, 0x00]).unwrap();
    assert_eq!(cpu.registers.pc, 0x8000);
    cpu.run().unwrap();
    assert_eq!(cpu.registers.a, 0x05);
    assert!(!cpu.registers.zero);
    assert!(!cpu.registers.negative);
}

#[test]
fn test_adc_carry_and_signed_overflow() {
    // 0x80 + 0x80 = 0x100: wraps to 0, unsigned carry out, signed overflow
    // (-128 + -128 is far outside -128..127).
    let mut cpu = fresh_cpu(vec![0xa9, 0x80, 0x69, 0x80, 0x00]);
    cpu.run().unwrap();
    assert_eq!(cpu.registers.a, 0x00);
    assert!(cpu.registers.carry);
    assert!(cpu.registers.overflow);
    assert!(cpu.registers.zero);
}

#[test]
fn test_adc_uses_carry_in() {
    // carry set before ADC: 0x10 + 0x20 + 1
    let mut cpu = fresh_cpu(vec![0xa9, 0x10, 0x38, 0x69, 0x20, 0x00]);
    cpu.run().unwrap();
    assert_eq!(cpu.registers.a, 0x31);
    assert!(!cpu.registers.carry);
    assert!(!cpu.registers.overflow);
}

#[test]
fn test_sbc_no_borrow() {
    // SEC then 0x50 - 0x10: no borrow, carry stays set, no signed overflow
    let mut cpu = fresh_cpu(vec![0xa9, 0x50, 0x38, 0xe9, 0x10, 0x00]);
    cpu.run().unwrap();
    assert_eq!(cpu.registers.a, 0x40);
    assert!(cpu.registers.carry);
    assert!(!cpu.registers.overflow);
}

#[test]
fn test_sbc_borrow_and_overflow() {
    // SEC then 0x50 - 0xB0: borrows (carry clears) and overflows signed
    // arithmetic (80 - (-80) = 160 > 127).
    let mut cpu = fresh_cpu(vec![0xa9, 0x50, 0x38, 0xe9, 0xb0, 0x00]);
    cpu.run().unwrap();
    assert_eq!(cpu.registers.a, 0xA0);
    assert!(!cpu.registers.carry);
    assert!(cpu.registers.overflow);
}

#[test]
fn test_branch_not_taken_costs_base_cycles() {
    // BCC with carry set: not taken, cost exactly the base 2 cycles, so one
    // cycle of stall is left after the step itself.
    let mut cpu = fresh_cpu(vec![0x90, 0x01]);
    cpu.registers.carry = true;
    cpu.step().unwrap();
    assert_eq!(cpu.registers.pc, 0xC002);
    assert_eq!(cpu.clocks_to_pause, 1);
}

#[test]
fn test_branch_taken_costs_extra_cycle() {
    // BCC with carry clear to a target on the same page: base 2 + 1.
    let mut cpu = fresh_cpu(vec![0x90, 0x01]);
    cpu.step().unwrap();
    assert_eq!(cpu.registers.pc, 0xC003);
    assert_eq!(cpu.clocks_to_pause, 2);
}

#[test]
fn test_branch_page_cross_costs_two_extra_cycles() {
    // BCC with carry clear and displacement -3: the target 0xBFFF sits on a
    // different page than the instruction at 0xC000, so base 2 + 1 + 1.
    let mut cpu = fresh_cpu(vec![0x90, 0xfd]);
    cpu.step().unwrap();
    assert_eq!(cpu.registers.pc, 0xBFFF);
    assert_eq!(cpu.clocks_to_pause, 3);
}

#[test]
fn test_indirect_jump_page_boundary_quirk() {
    // JMP ($40FF): the pointer's low byte sits at $40FF and, because of the
    // hardware bug, its high byte is read from $4000 rather than $4100.
    let mut cpu = fresh_cpu(vec![0x6c, 0xff, 0x40]);
    cpu.mem_write(0x40FF, 0x34).unwrap();
    cpu.mem_write(0x4000, 0x12).unwrap();
    cpu.mem_write(0x4100, 0x77).unwrap();
    cpu.bounded_run(1).unwrap();
    assert_eq!(cpu.registers.pc, 0x1234);
}

#[test]
fn test_stack_byte_round_trip() {
    let mut cpu = Cpu6502::default();
    let sp = cpu.registers.sp;
    cpu.push_stack(0x5A).unwrap();
    assert_eq!(cpu.registers.sp, sp.wrapping_sub(1));
    assert_eq!(cpu.pop_stack().unwrap(), 0x5A);
    assert_eq!(cpu.registers.sp, sp);
}

#[test]
fn test_stack16_round_trip() {
    let mut cpu = Cpu6502::default();
    let sp = cpu.registers.sp;
    cpu.push_stack16(0xABCD).unwrap();
    assert_eq!(cpu.registers.sp, sp.wrapping_sub(2));
    assert_eq!(cpu.pop_stack16().unwrap(), 0xABCD);
    assert_eq!(cpu.registers.sp, sp);
}

#[test]
fn test_stack16_byte_order() {
    // A 16-bit push writes the high byte first (at the higher address).
    let mut cpu = Cpu6502::default();
    let sp = cpu.registers.sp;
    cpu.push_stack16(0xBEEF).unwrap();
    assert_eq!(cpu.mem_read(get_sp_offset(sp)).unwrap(), 0xBE);
    assert_eq!(cpu.mem_read(get_sp_offset(sp.wrapping_sub(1))).unwrap(), 0xEF);
}

#[test]
fn test_pha_pla_preserves_accumulator() {
    // PHA then LDA #$00 then PLA restores the accumulator.
    let mut cpu = fresh_cpu(vec![0xa9, 0x77, 0x48, 0xa9, 0x00, 0x68, 0x00]);
    cpu.run().unwrap();
    assert_eq!(cpu.registers.a, 0x77);
}

#[test]
fn test_status_byte_round_trip() {
    let mut cpu = Cpu6502::default();
    cpu.set_status_register_from_byte(0xFF);
    // bit 4 is unused and bit 5 reports the instruction-context argument
    assert_eq!(cpu.status_register_byte(true), 0b1110_1111);
    assert_eq!(cpu.status_register_byte(false), 0b1100_1111);
    cpu.set_status_register_from_byte(0x00);
    assert_eq!(cpu.status_register_byte(false), 0x00);
}

#[test]
fn test_rti_restores_flags_and_pc() {
    let mut cpu = fresh_cpu(vec![0x40]);
    cpu.push_stack16(0x1234).unwrap();
    cpu.push_stack(0b1100_0011).unwrap();
    cpu.bounded_run(1).unwrap();
    assert_eq!(cpu.registers.pc, 0x1234);
    assert!(cpu.registers.carry);
    assert!(cpu.registers.zero);
    assert!(cpu.registers.overflow);
    assert!(cpu.registers.negative);
    assert!(!cpu.registers.decimal);
}

#[test]
fn test_dec_and_inc_memory() {
    let program = vec![
        0xa9, 0x05, // LDA #$05
        0x85, 0x10, // STA $10
        0xc6, 0x10, // DEC $10
        0xe6, 0x10, // INC $10
        0xe6, 0x10, // INC $10
    ];
    let mut cpu = fresh_cpu(program);
    cpu.bounded_run(5).unwrap();
    assert_eq!(cpu.mem_read(0x10).unwrap(), 0x06);
}

#[test]
fn test_compare_index_registers() {
    // LDX #$05, CPX #$05: equal, so zero and carry set, negative clear.
    let mut cpu = fresh_cpu(vec![0xa2, 0x05, 0xe0, 0x05, 0x00]);
    cpu.run().unwrap();
    assert!(cpu.registers.zero);
    assert!(cpu.registers.carry);
    assert!(!cpu.registers.negative);
}

#[test]
fn test_logical_operations() {
    let program = vec![
        0xa9, 0xf0, // LDA #$F0
        0x49, 0xff, // EOR #$FF -> $0F
        0x09, 0xf0, // ORA #$F0 -> $FF
        0x29, 0x3c, // AND #$3C -> $3C
    ];
    let mut cpu = fresh_cpu(program);
    cpu.bounded_run(4).unwrap();
    assert_eq!(cpu.registers.a, 0x3C);
}

#[test]
fn test_loads_set_zero_and_negative() {
    let mut cpu = fresh_cpu(vec![0xa2, 0x80, 0x00]);
    cpu.run().unwrap();
    assert_eq!(cpu.registers.x, 0x80);
    assert!(cpu.registers.negative);
    assert!(!cpu.registers.zero);

    let mut cpu = fresh_cpu(vec![0xa0, 0x00, 0x00]);
    cpu.run().unwrap();
    assert_eq!(cpu.registers.y, 0x00);
    assert!(cpu.registers.zero);
    assert!(!cpu.registers.negative);
}

#[test]
fn test_transfer_stack_pointer() {
    let program = vec![
        0xa2, 0x30, // LDX #$30
        0x9a, // TXS
        0xa2, 0x00, // LDX #$00
        0xba, // TSX
    ];
    let mut cpu = fresh_cpu(program);
    cpu.bounded_run(4).unwrap();
    assert_eq!(cpu.registers.sp, 0x30);
    assert_eq!(cpu.registers.x, 0x30);
}

#[test]
fn test_rol_uses_and_produces_carry() {
    // SEC, LDA #$81, ROL A: result 0x03, old bit 7 into carry.
    let mut cpu = fresh_cpu(vec![0x38, 0xa9, 0x81, 0x2a, 0x00]);
    cpu.run().unwrap();
    assert_eq!(cpu.registers.a, 0x03);
    assert!(cpu.registers.carry);
}

#[test]
fn test_decode_table_entries() {
    let cpu = Cpu6502::default();
    let lda = cpu.decode_instruction(0xa9).unwrap();
    assert_eq!(lda.opcode, Operation::LDA);
    assert_eq!(lda.address_mode, AddressingMode::Immediate);
    assert_eq!(lda.cycle, 2);
    assert_eq!(lda.extra_cycle, 0);

    let jmp = cpu.decode_instruction(0x6c).unwrap();
    assert_eq!(jmp.opcode, Operation::JMP);
    assert_eq!(jmp.address_mode, AddressingMode::Indirect);
    assert_eq!(jmp.cycle, 5);

    let lda_abx = cpu.decode_instruction(0xbd).unwrap();
    assert_eq!(lda_abx.opcode, Operation::LDA);
    assert_eq!(lda_abx.address_mode, AddressingMode::AbsoluteX);
    assert_eq!(lda_abx.extra_cycle, 1);
}

#[test]
fn test_zero_page_x_wraps_around() {
    // LDX #$FF, LDA $80,X: effective address (0x80 + 0xFF) & 0xFF = 0x7F.
    let mut cpu = fresh_cpu(vec![0xa2, 0xff, 0xb5, 0x80, 0x00]);
    cpu.mem_write(0x7F, 0x42).unwrap();
    cpu.run().unwrap();
    assert_eq!(cpu.registers.a, 0x42);
}

#[test]
fn test_absolute_x_page_cross_extra_cycle() {
    // LDA $40FF,X with X = 1 crosses into $4100: 4 base + 1 extra cycles.
    let mut cpu = fresh_cpu(vec![0xa2, 0x01, 0xbd, 0xff, 0x40]);
    cpu.mem_write(0x4100, 0x99).unwrap();
    cpu.bounded_run(1).unwrap();
    cpu.clocks_to_pause = 0;
    cpu.step().unwrap();
    assert_eq!(cpu.registers.a, 0x99);
    assert_eq!(cpu.clocks_to_pause, 4);
}

#[test]
fn test_get_sp_offset_is_stack_page() {
    assert_eq!(get_sp_offset(0xFD), 0x01FD);
    assert_eq!(get_sp_offset(0x00), 0x0100);
    assert_eq!(get_sp_offset(0xFF), 0x01FF);
}

#[test]
fn test_ppuaddr_write_and_mirror() {
    let mut reg = PpuAddrRegister::new();
    reg.write(0x3f);
    reg.write(0x21);
    assert_eq!(reg.get(), 0x3F21);
    // incrementing past $3FFF mirrors back down
    reg.increment(0xff);
    assert_eq!(reg.get(), 0x0020);
    reg.reset_latch();
    reg.write(0x12);
    assert_eq!(reg.get(), 0x1220);
}

#[test]
fn test_ppuaddr_high_write_mirrors_down() {
    let mut reg = PpuAddrRegister::new();
    reg.write(0x40); // 0x4000 mirrors to 0x0000
    assert_eq!(reg.get(), 0x0000);
}

#[test]
fn test_ppuctrl_fields() {
    let mut reg = PpuControlRegister::new();
    assert_eq!(reg.nametable_addr(), 0x2000);
    assert_eq!(reg.vram_increment(), 1);
    reg.write(0b0000_0111);
    assert_eq!(reg.nametable_addr(), 0x2C00);
    assert_eq!(reg.vram_increment(), 32);
    assert_eq!(reg.spr_select(), 0x0000);
    reg.write(0b1010_1000);
    assert_eq!(reg.spr_select(), 0x1000);
    assert_eq!(reg.spr_height(), 16);
    assert_eq!(reg.master_slave(), 0);
    assert!(reg.nmi_enabled());
    reg.write(0b0101_0000);
    assert_eq!(reg.bg_select(), 0x1000);
    assert_eq!(reg.spr_height(), 8);
    assert_eq!(reg.master_slave(), 1);
    assert!(!reg.nmi_enabled());
}

#[test]
fn test_ppumask_write() {
    let mut reg = PpuMaskRegister::new();
    assert_eq!(reg.bits, 0);
    reg.write(0b0001_1110);
    assert_eq!(reg.bits, 0b0001_1110);
}

#[test]
fn test_ppu_memory_mirror() {
    let mut ppu = Ppu::default();
    ppu.mem_write(0x0005, 9);
    assert_eq!(ppu.mem_read(0x0005), 9);
    assert_eq!(ppu.mem_read(0x1805), 9);
    assert_eq!(ppu.mem_read(0x3805), 9);
    ppu.mem_write(0x4005, 7);
    assert_eq!(ppu.mem_read(0x4005), 7);
}

#[test]
fn test_ppu_register_writes() {
    let mut ppu = Ppu::default();
    ppu.write_to_ppuctrl(0x80);
    ppu.write_to_ppumask(0x1E);
    ppu.write_to_ppuaddr(0x23);
    ppu.write_to_ppuaddr(0x06);
    assert_eq!(ppu.registers.ppuctrl.bits, 0x80);
    assert_eq!(ppu.registers.ppumask.bits, 0x1E);
    assert_eq!(ppu.registers.ppuaddr.get(), 0x2306);
}

#[test]
fn test_subroutine_and_return() {
    // JSR to a routine that loads the accumulator and returns; execution
    // resumes at the instruction following the call.
    let program = vec![
        0x20, 0x05, 0xc0, // JSR $C005
        0xa2, 0x07, // LDX #$07 (runs after the return)
        0xa9, 0x03, // LDA #$03 (the subroutine)
        0x60, // RTS
    ];
    let mut cpu = fresh_cpu(program);
    cpu.bounded_run(4).unwrap();
    assert_eq!(cpu.registers.a, 0x03);
    assert_eq!(cpu.registers.x, 0x07);
}

#[test]
fn test_stack_pointer_wraparound() {
    // The 8-bit stack pointer silently wraps on overflow and underflow.
    let mut cpu = Cpu6502::default();
    cpu.registers.sp = 0x00;
    cpu.push_stack(0x11).unwrap();
    assert_eq!(cpu.registers.sp, 0xFF);
    assert_eq!(cpu.mem_read(0x0100).unwrap(), 0x11);
    assert_eq!(cpu.pop_stack().unwrap(), 0x11);
    assert_eq!(cpu.registers.sp, 0x00);
}

#[test]
fn test_load_empty_program() {
    // An empty image leaves memory zeroed, so the first fetch halts at once.
    let mut cpu = Cpu6502::default();
    cpu.load_program(vec![]).unwrap();
    cpu.run().unwrap();
    assert_eq!(cpu.registers.pc, 0x8000);
}

#[test]
fn test_load_largest_program() {
    // The program-ROM window holds at most 0x8000 bytes; a full image loads
    // whole and runs from its first byte.
    let mut program = vec![0xEA; 0x8000]; // NOP
    program[0] = 0xA9; // LDA #$2A
    program[1] = 0x2A;
    program[2] = 0x00; // BRK
    let mut cpu = Cpu6502::default();
    cpu.load_program(program).unwrap();
    assert_eq!(cpu.mem_read(0xFFFF).unwrap(), 0xEA);
    cpu.run().unwrap();
    assert_eq!(cpu.registers.a, 0x2A);
}
