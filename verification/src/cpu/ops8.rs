use vstd::prelude::*;

use crate::cpu::flags_registers::FlagsRegister;
use crate::cpu::registers::{shift_flags, R8};
use crate::cpu::{Cpu, CpuView};
use crate::cpu2::instructions::other::{rotl8, rotr8, shl8, shr8, swap_nibbles};

verus! {

/// Operand `t` set to `result`, then the flags of a rotation or shift.
pub open spec fn shifted(s: CpuView, t: R8, result: u8, z_always_zero: bool, carry: bool) -> CpuView {
    let s1 = s.set_r8(t, result);
    s1.set_regs(s1.regs.set_f(shift_flags(result, z_always_zero, carry)))
}

pub open spec fn carry_bit(s: CpuView) -> int {
    if s.regs.f.carry { 1 } else { 0 }
}

/// RLC, or RL through the carry; Z forced clear when `z_always_zero`.
pub open spec fn after_op_rotate_left(s: CpuView, t: R8, through_carry: bool, z_always_zero: bool) -> CpuView {
    let v = s.r8(t);
    let result = if through_carry { shl8(v, carry_bit(s)) } else { rotl8(v) };
    shifted(s, t, result, z_always_zero, v >= 0x80)
}

/// RRC, or RR through the carry; Z forced clear when `z_always_zero`.
pub open spec fn after_op_rotate_right(s: CpuView, t: R8, through_carry: bool, z_always_zero: bool) -> CpuView {
    let v = s.r8(t);
    let result = if through_carry { shr8(v, carry_bit(s)) } else { rotr8(v) };
    shifted(s, t, result, z_always_zero, v % 2 == 1)
}

/// SLA.
pub open spec fn after_op_sla(s: CpuView, t: R8) -> CpuView {
    let v = s.r8(t);
    shifted(s, t, shl8(v, 0), false, v >= 0x80)
}

/// SRA when `arithmetic`, SRL otherwise.
pub open spec fn after_op_sr(s: CpuView, t: R8, arithmetic: bool) -> CpuView {
    let v = s.r8(t);
    let result = if arithmetic { shr8(v, if v >= 0x80 { 1 } else { 0 }) } else { shr8(v, 0) };
    shifted(s, t, result, false, v % 2 == 1)
}

/// SWAP.
pub open spec fn after_op_swap(s: CpuView, t: R8) -> CpuView {
    shifted(s, t, swap_nibbles(s.r8(t)), false, false)
}

impl Cpu {
    /// Sets the flags of a rotation or shift, C first and Z last.
    fn set_shift_flags(&mut self, carry_out: bool, result: u8, z_always_zero: bool)
        ensures
            final(self)@ == old(self)@.set_regs(old(self)@.regs.set_f(shift_flags(result, z_always_zero, carry_out))),
    {
        self.registers.set_carry_flag(carry_out);
        self.registers.set_subtract_flag(false);
        self.registers.set_half_carry_flag(false);
        let zero = if z_always_zero { false } else { result == 0 };
        self.registers.set_zero_flag(zero);
    }

    /// RLC `target`, or RL when `through_carry`.
    pub fn op_rotate_left(&mut self, target: R8, through_carry: bool, z_always_zero: bool)
        ensures
            final(self)@ == after_op_rotate_left(old(self)@, target, through_carry, z_always_zero),
    {
        let value = self.get_r8_value(target);
        proof {
            crate::bits::lemma_byte_fields(value);
            crate::bits::lemma_byte_shift_left(value);
            crate::bits::lemma_byte_shift_right(value);
            crate::bits::lemma_byte_sra(value);
        }
        let carry_in: u8 = if through_carry && self.registers.get_carry_flag() { 1 } else { 0 };
        proof {
            crate::bits::lemma_byte_shift_left_in(value, carry_in);
            crate::bits::lemma_byte_shift_right_in(value, carry_in);
        }
        let carry_out = (value & 0x80) != 0;
        let result = if through_carry {
            (value << 1) | carry_in
        } else {
            (value << 1) | (value >> 7)
        };
        self.set_r8_value(target, result);
        self.set_shift_flags(carry_out, result, z_always_zero);
    }

    /// RRC `target`, or RR when `through_carry`.
    pub fn op_rotate_right(&mut self, target: R8, through_carry: bool, z_always_zero: bool)
        ensures
            final(self)@ == after_op_rotate_right(old(self)@, target, through_carry, z_always_zero),
    {
        let value = self.get_r8_value(target);
        proof {
            crate::bits::lemma_byte_fields(value);
            crate::bits::lemma_byte_shift_left(value);
            crate::bits::lemma_byte_shift_right(value);
            crate::bits::lemma_byte_sra(value);
        }
        let carry_in: u8 = if through_carry && self.registers.get_carry_flag() { 1 } else { 0 };
        proof {
            crate::bits::lemma_byte_shift_left_in(value, carry_in);
            crate::bits::lemma_byte_shift_right_in(value, carry_in);
        }
        let carry_out = (value & 0x01) != 0;
        let result = if through_carry {
            (value >> 1) | (carry_in << 7)
        } else {
            (value >> 1) | (value << 7)
        };
        self.set_r8_value(target, result);
        self.set_shift_flags(carry_out, result, z_always_zero);
    }

    /// SLA `target`.
    pub fn op_sla(&mut self, target: R8)
        ensures
            final(self)@ == after_op_sla(old(self)@, target),
    {
        let value = self.get_r8_value(target);
        proof {
            crate::bits::lemma_byte_fields(value);
            crate::bits::lemma_byte_shift_left(value);
            crate::bits::lemma_byte_shift_right(value);
            crate::bits::lemma_byte_sra(value);
        }
        let carry_out = (value & 0x80) != 0;
        let result = value << 1;
        self.set_r8_value(target, result);
        self.registers.set_zero_flag(result == 0);
        self.registers.set_subtract_flag(false);
        self.registers.set_half_carry_flag(false);
        self.registers.set_carry_flag(carry_out);
    }

    /// SRA `target` when `arithmetic` (bit 7 kept), SRL otherwise.
    pub fn op_sr(&mut self, target: R8, arithmetic: bool)
        ensures
            final(self)@ == after_op_sr(old(self)@, target, arithmetic),
    {
        let value = self.get_r8_value(target);
        proof {
            crate::bits::lemma_byte_fields(value);
            crate::bits::lemma_byte_shift_left(value);
            crate::bits::lemma_byte_shift_right(value);
            crate::bits::lemma_byte_sra(value);
        }
        let carry_out = (value & 0x01) != 0;
        let result = if arithmetic {
            (value >> 1) | (value & 0x80)
        } else {
            value >> 1
        };
        self.set_r8_value(target, result);
        self.registers.set_zero_flag(result == 0);
        self.registers.set_subtract_flag(false);
        self.registers.set_half_carry_flag(false);
        self.registers.set_carry_flag(carry_out);
    }

    /// SWAP `target`.
    pub fn op_swap(&mut self, target: R8)
        ensures
            final(self)@ == after_op_swap(old(self)@, target),
    {
        let value = self.get_r8_value(target);
        proof {
            crate::bits::lemma_byte_fields(value);
            crate::bits::lemma_byte_shift_left(value);
            crate::bits::lemma_byte_shift_right(value);
            crate::bits::lemma_byte_sra(value);
        }
        let result = (value << 4) | (value >> 4);
        self.set_r8_value(target, result);
        self.registers.set_zero_flag(result == 0);
        self.registers.set_subtract_flag(false);
        self.registers.set_half_carry_flag(false);
        self.registers.set_carry_flag(false);
    }
}

} // verus!
