//! Add-with-carry, logical AND, and arithmetic shift left.

use vstd::prelude::*;
use crate::cpu::Cpu6502;
use crate::cpu::CpuError;
use crate::cpu::CpuModel;
use crate::cpu::spec_with_zero_negative;
use crate::instr::spec_cur_operand;
use crate::instr::spec_signed;
use crate::mem::spec_read_write_target;
use crate::mem::spec_store_write_target;
use crate::register::CpuRegister;

verus! {

/// The 8-bit wrapping sum of an add-with-carry.
pub open spec fn spec_adc_result(a: u8, v: u8, carry_in: bool) -> u8 {
    ((a + v + (if carry_in { 1int } else { 0 })) % 256) as u8
}

/// Carry-out of an add-with-carry: the unsigned addition overflowed.
pub open spec fn spec_adc_carry(a: u8, v: u8, carry_in: bool) -> bool {
    a + v + (if carry_in { 1int } else { 0 }) > 255
}

/// Overflow flag of an add-with-carry: the signed 8-bit sum, computed in a
/// wider signed representation, falls outside -128..127.
pub open spec fn spec_adc_overflow(a: u8, v: u8, carry_in: bool) -> bool {
    let s = spec_signed(a) + spec_signed(v) + (if carry_in { 1int } else { 0 });
    s < -128 || s > 127
}

/// State transition of the add-with-carry handler.
pub open spec fn spec_adc(m: CpuModel) -> CpuModel {
    let v = spec_cur_operand(m);
    let a = m.regs.a;
    let c = m.regs.carry;
    let r = spec_adc_result(a, v, c);
    CpuModel {
        regs: spec_with_zero_negative(
            CpuRegister {
                a: r,
                carry: spec_adc_carry(a, v, c),
                overflow: spec_adc_overflow(a, v, c),
                ..m.regs
            },
            r,
        ),
        ..m
    }
}

/// State transition of the logical-AND handler.
pub open spec fn spec_and(m: CpuModel) -> CpuModel {
    let r = m.regs.a & spec_cur_operand(m);
    CpuModel { regs: spec_with_zero_negative(CpuRegister { a: r, ..m.regs }, r), ..m }
}

/// State transition of the arithmetic-shift-left handler: the operand (in
/// memory or the accumulator) shifts left one bit, bit 7 becomes the new
/// carry, and the zero and negative flags follow the shifted result.
pub open spec fn spec_asl(m: CpuModel) -> CpuModel {
    let i = m.instr.unwrap();
    let v = spec_read_write_target(m, i.write_target);
    let r = ((2 * v) % 256) as u8;
    let stored = spec_store_write_target(m, r, i.write_target);
    CpuModel {
        regs: spec_with_zero_negative(CpuRegister { carry: v >= 128, ..stored.regs }, r),
        ..stored
    }
}

impl Cpu6502 {
    /// ADC: adds the operand and the carry bit to the accumulator. Carry-out
    /// reports unsigned overflow; the overflow flag reports signed 8-bit
    /// overflow of the sum including carry-in.
    #[allow(non_snake_case)]
    pub fn ADC(&mut self) -> (r: Result<(), CpuError>)
        requires
            old(self)@.wf(),
            old(self)@.instr is Some,
        ensures
            r is Ok,
            final(self)@ == spec_adc(old(self)@),
            final(self)@.wf(),
    {
        let instr = self.instr.unwrap();
        let v = (instr.mode_args % 256) as u8;
        let a = self.registers.a;
        let carry_in: u16 = if self.registers.carry { 1 } else { 0 };
        let sum: u16 = a as u16 + v as u16 + carry_in;
        self.registers.carry = sum > 255;
        let signed_sum: i16 = (if a >= 128 { a as i16 - 256 } else { a as i16 })
            + (if v >= 128 { v as i16 - 256 } else { v as i16 }) + carry_in as i16;
        self.registers.overflow = signed_sum < -128 || signed_sum > 127;
        self.registers.a = (sum % 256) as u8;
        self.update_accumulator_flags();
        proof {
            assert(self@ =~= spec_adc(old(self)@));
        }
        Ok(())
    }

    /// AND: a logical AND, bit by bit, of the accumulator with the operand
    /// byte; the zero and negative flags follow the result.
    #[allow(non_snake_case)]
    pub fn AND(&mut self) -> (r: Result<(), CpuError>)
        requires
            old(self)@.wf(),
            old(self)@.instr is Some,
        ensures
            r is Ok,
            final(self)@ == spec_and(old(self)@),
            final(self)@.wf(),
    {
        let instr = self.instr.unwrap();
        let v = (instr.mode_args % 256) as u8;
        self.registers.a = self.registers.a & v;
        self.update_accumulator_flags();
        proof {
            assert(self@ =~= spec_and(old(self)@));
        }
        Ok(())
    }

    /// ASL: shifts the operand (memory or accumulator) one bit left. Bit 0
    /// becomes 0 and the old bit 7 becomes the carry flag; the zero and
    /// negative flags follow the shifted result.
    #[allow(non_snake_case)]
    pub fn ASL(&mut self) -> (r: Result<(), CpuError>)
        requires
            old(self)@.wf(),
            old(self)@.instr is Some,
        ensures
            r is Ok,
            final(self)@ == spec_asl(old(self)@),
            final(self)@.wf(),
    {
        let instr = self.instr.unwrap();
        let v = match self.read_write_target(instr.write_target) {
            Ok(b) => b,
            Err(e) => { return Err(e); },
        };
        let x = v.wrapping_mul(2);
        self.registers.carry = v >= 0x80;
        let r = self.store_write_target(x, instr.write_target);
        if r.is_err() {
            return r;
        }
        self.update_zero_and_negative_flags(x);
        proof {
            assert(self@ =~= spec_asl(old(self)@));
        }
        Ok(())
    }
}

} // verus!

verus! {

/// For all accumulator values, operand bytes and either carry-in: the
/// add-with-carry result is the 8-bit wrapping sum of the three, carry-out
/// holds exactly when the unsigned sum overflows 255, and the overflow flag
/// holds exactly when the signed 8-bit sum, computed in a wider signed
/// representation, falls outside -128..127.
pub proof fn lemma_adc_arithmetic(m: CpuModel)
    requires
        m.instr is Some,
    ensures
        spec_adc(m).regs.a == (m.regs.a + spec_cur_operand(m) + (if m.regs.carry {
            1int
        } else {
            0
        })) % 256,
        spec_adc(m).regs.carry == (m.regs.a + spec_cur_operand(m) + (if m.regs.carry {
            1int
        } else {
            0
        }) > 255),
        spec_adc(m).regs.overflow == {
            let s = spec_signed(m.regs.a) + spec_signed(spec_cur_operand(m)) + (if m.regs.carry {
                1int
            } else {
                0
            });
            s < -128 || s > 127
        },
        spec_adc(m).regs.zero == (spec_adc(m).regs.a == 0),
        spec_adc(m).regs.negative == (spec_adc(m).regs.a >= 128),
{
}

} // verus!
