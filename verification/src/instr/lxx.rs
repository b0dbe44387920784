//! The load family and logical shift right.

use vstd::prelude::*;
use crate::cpu::Cpu6502;
use crate::cpu::CpuError;
use crate::cpu::CpuModel;
use crate::cpu::spec_with_zero_negative;
use crate::instr::spec_cur_operand;
use crate::mem::spec_read_write_target;
use crate::mem::spec_store_write_target;
use crate::register::CpuRegister;

verus! {

/// State transition of load-accumulator: the accumulator takes the operand
/// byte, and the zero and negative flags follow it.
pub open spec fn spec_lda(m: CpuModel) -> CpuModel {
    let v = spec_cur_operand(m);
    CpuModel { regs: spec_with_zero_negative(CpuRegister { a: v, ..m.regs }, v), ..m }
}

/// State transition of load-Y.
pub open spec fn spec_ldy(m: CpuModel) -> CpuModel {
    let v = spec_cur_operand(m);
    CpuModel { regs: spec_with_zero_negative(CpuRegister { y: v, ..m.regs }, v), ..m }
}

/// State transition of load-X.
pub open spec fn spec_ldx(m: CpuModel) -> CpuModel {
    let v = spec_cur_operand(m);
    CpuModel { regs: spec_with_zero_negative(CpuRegister { x: v, ..m.regs }, v), ..m }
}

/// State transition of logical-shift-right: the operand (in memory or the
/// accumulator) shifts right one bit, the old bit 0 becomes the new carry,
/// and the zero and negative flags follow the shifted result.
pub open spec fn spec_lsr(m: CpuModel) -> CpuModel {
    let i = m.instr.unwrap();
    let v = spec_read_write_target(m, i.write_target);
    let r = (v / 2) as u8;
    let stored = spec_store_write_target(m, r, i.write_target);
    CpuModel {
        regs: spec_with_zero_negative(CpuRegister { carry: v % 2 == 1, ..stored.regs }, r),
        ..stored
    }
}

impl Cpu6502 {
    /// LDA: loads the operand byte into the accumulator; the zero and
    /// negative flags follow the loaded byte.
    #[allow(non_snake_case)]
    pub fn LDA(&mut self) -> (r: Result<(), CpuError>)
        requires
            old(self)@.instr is Some,
        ensures
            r is Ok,
            final(self)@ == spec_lda(old(self)@),
    {
        let instr = self.instr.unwrap();
        self.registers.a = (instr.mode_args % 256) as u8;
        let a = self.registers.a;
        self.update_zero_and_negative_flags(a);
        proof {
            assert(self@ =~= spec_lda(old(self)@));
        }
        Ok(())
    }

    /// LDY: loads the operand byte into index Y; the zero and negative
    /// flags follow the loaded byte.
    #[allow(non_snake_case)]
    pub fn LDY(&mut self) -> (r: Result<(), CpuError>)
        requires
            old(self)@.instr is Some,
        ensures
            r is Ok,
            final(self)@ == spec_ldy(old(self)@),
    {
        let instr = self.instr.unwrap();
        self.registers.y = (instr.mode_args % 256) as u8;
        let y = self.registers.y;
        self.update_zero_and_negative_flags(y);
        proof {
            assert(self@ =~= spec_ldy(old(self)@));
        }
        Ok(())
    }

    /// LDX: loads the operand byte into index X; the zero and negative
    /// flags follow the loaded byte.
    #[allow(non_snake_case)]
    pub fn LDX(&mut self) -> (r: Result<(), CpuError>)
        requires
            old(self)@.instr is Some,
        ensures
            r is Ok,
            final(self)@ == spec_ldx(old(self)@),
    {
        let instr = self.instr.unwrap();
        self.registers.x = (instr.mode_args % 256) as u8;
        let x = self.registers.x;
        self.update_zero_and_negative_flags(x);
        proof {
            assert(self@ =~= spec_ldx(old(self)@));
        }
        Ok(())
    }

    /// LSR: shifts the operand (memory or accumulator) one bit right. The
    /// old bit 0 becomes the carry flag; the zero and negative flags follow
    /// the shifted result.
    #[allow(non_snake_case)]
    pub fn LSR(&mut self) -> (r: Result<(), CpuError>)
        requires
            old(self)@.wf(),
            old(self)@.instr is Some,
        ensures
            r is Ok,
            final(self)@ == spec_lsr(old(self)@),
            final(self)@.wf(),
    {
        let instr = self.instr.unwrap();
        let target_value = match self.read_write_target(instr.write_target) {
            Ok(b) => b,
            Err(e) => { return Err(e); },
        };
        self.registers.carry = target_value % 2 == 1;
        let result = target_value / 2;
        let r = self.store_write_target(result, instr.write_target);
        if r.is_err() {
            return r;
        }
        self.update_zero_and_negative_flags(result);
        proof {
            assert(self@ =~= spec_lsr(old(self)@));
        }
        Ok(())
    }
}

} // verus!

verus! {

/// For every load of the accumulator or an index register: the loaded byte
/// lands in the register, the zero flag is set exactly when the loaded byte
/// is zero, and the negative flag exactly when bit 7 of the loaded byte is
/// set.
pub proof fn lemma_load_flags(m: CpuModel)
    requires
        m.instr is Some,
    ensures
        spec_lda(m).regs.a == spec_cur_operand(m),
        spec_ldx(m).regs.x == spec_cur_operand(m),
        spec_ldy(m).regs.y == spec_cur_operand(m),
        spec_lda(m).regs.zero == (spec_cur_operand(m) == 0),
        spec_ldx(m).regs.zero == (spec_cur_operand(m) == 0),
        spec_ldy(m).regs.zero == (spec_cur_operand(m) == 0),
        spec_lda(m).regs.negative == (spec_cur_operand(m) & 0x80 == 0x80),
        spec_ldx(m).regs.negative == (spec_cur_operand(m) & 0x80 == 0x80),
        spec_ldy(m).regs.negative == (spec_cur_operand(m) & 0x80 == 0x80),
{
    let v = spec_cur_operand(m);
    assert((v & 0x80 == 0x80) == (v >= 128)) by (bit_vector);
}

} // verus!
