use vstd::prelude::*;

use crate::cpu2::defines::{r16, r8, add16, cond_holds, hi_byte, lo_byte, Cpu, CondKind, CpuState, Flag};
use crate::cpu2::flags::FlagsOps;

verus! {

/// A flag test that a conditional instruction makes.
pub trait Cond {
    const KIND: CondKind;

    fn is_met(cpu: &Cpu) -> (r: bool)
        ensures
            r == cond_holds(Self::KIND, cpu.flags),
    ;
}

/// Not zero.
pub struct CondNZ;

impl Cond for CondNZ {
    const KIND: CondKind = CondKind::NZ;

    fn is_met(cpu: &Cpu) -> (r: bool) {
        !cpu.flags.get_flag(Flag::Zero)
    }
}

/// Zero.
pub struct CondZ;

impl Cond for CondZ {
    const KIND: CondKind = CondKind::Z;

    fn is_met(cpu: &Cpu) -> (r: bool) {
        cpu.flags.get_flag(Flag::Zero)
    }
}

/// Not carry.
pub struct CondNC;

impl Cond for CondNC {
    const KIND: CondKind = CondKind::NC;

    fn is_met(cpu: &Cpu) -> (r: bool) {
        !cpu.flags.get_flag(Flag::Carry)
    }
}

/// Carry.
pub struct CondC;

impl Cond for CondC {
    const KIND: CondKind = CondKind::C;

    fn is_met(cpu: &Cpu) -> (r: bool) {
        cpu.flags.get_flag(Flag::Carry)
    }
}

/// When the condition fails the rest of the instruction is skipped.
pub open spec fn after_check_cond(s: CpuState, k: CondKind) -> CpuState {
    if cond_holds(k, s.flags) {
        s
    } else {
        s.set_op_index(s.queue.len() as int)
    }
}

/// The signed value of an offset byte.
pub open spec fn signed_offset(e: u8) -> int {
    if e >= 0x80 { e - 256 } else { e as int }
}

/// PC moves by the signed offset in Z, modulo 65536; W and Z take the new PC.
pub open spec fn after_relative_jump(s: CpuState) -> CpuState {
    let target = add16(s.pair(r16::PC as int) as int, signed_offset(s.reg(r8::Z as int)));
    s.set_reg(r8::Z as int, lo_byte(target)).set_reg(r8::W as int, hi_byte(target)).set_pair(r16::PC as int, target)
}

/// `check_cond` on a condition given at run time.
pub fn check_cond_at(cpu: &mut Cpu, k: CondKind)
    ensures
        final(cpu)@ == after_check_cond(old(cpu)@, k),
{
    let met = match k {
        CondKind::NZ => !cpu.flags.get_flag(Flag::Zero),
        CondKind::Z => cpu.flags.get_flag(Flag::Zero),
        CondKind::NC => !cpu.flags.get_flag(Flag::Carry),
        CondKind::C => cpu.flags.get_flag(Flag::Carry),
    };
    if !met {
        cpu.op_index = cpu.queue.len();
    }
}

/// Ends the current instruction early when `Cc` does not hold.
pub fn check_cond<Cc: Cond>(cpu: &mut Cpu)
    ensures
        final(cpu)@ == after_check_cond(old(cpu)@, Cc::KIND),
{
    if !Cc::is_met(cpu) {
        cpu.op_index = cpu.queue.len();
    }
}

/// JR: adds the signed offset in Z to PC, through W and Z.
pub fn relative_jump(cpu: &mut Cpu)
    ensures
        final(cpu)@ == after_relative_jump(old(cpu)@),
{
    let z = cpu.reg(r8::Z);
    let pc = cpu.pair(r16::PC);
    let pc_low = (pc & 0xFF) as u8;
    let pc_high = (pc >> 8) as u8;
    proof {
        crate::bits::lemma_word_parts(pc);
    }
    let z_sign = (z & 0x80) != 0;
    proof {
        crate::bits::lemma_bit7(z);
    }
    let sum = z as u16 + pc_low as u16;
    let result = sum as u8;
    let carry_7 = (sum & 0x0100) != 0;
    proof {
        crate::bits::lemma_nine_bit_sum(sum);
    }
    let w: u8 = if carry_7 && !z_sign {
        pc_high.wrapping_add(1)
    } else if !carry_7 && z_sign {
        pc_high.wrapping_sub(1)
    } else {
        pc_high
    };
    cpu.set_reg(r8::Z, result);
    cpu.set_reg(r8::W, w);
    proof {
        crate::bits::lemma_word(w, result);
    }
    let wz = ((w as u16) << 8) | (result as u16);
    proof {
        let target = add16(pc as int, signed_offset(z));
        assert(wz == target);
        assert(lo_byte(target) == result);
        assert(hi_byte(target) == w);
    }
    cpu.set_pair(r16::PC, wz);
}

} // verus!
