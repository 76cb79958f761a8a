use vstd::prelude::*;

use crate::cpu2::defines::{Cpu, CpuState, Flag, with_znhc};
use crate::cpu2::flags::FlagsOps;
use crate::cpu2::implemenation::Reg8;

verus! {

/// `dest &= src`; Z from the result, N cleared, H raised, C cleared.
pub open spec fn after_and_r8_r8(s: CpuState, dest: int, src: int) -> CpuState {
    let result = s.reg(dest) & s.reg(src);
    s.set_reg(dest, result).set_flags(with_znhc(s.flags, result == 0, false, true, false))
}

/// `dest |= src`; Z from the result, N, H and C cleared.
pub open spec fn after_or_r8_r8(s: CpuState, dest: int, src: int) -> CpuState {
    let result = s.reg(dest) | s.reg(src);
    s.set_reg(dest, result).set_flags(with_znhc(s.flags, result == 0, false, false, false))
}

/// `dest ^= src`; Z from the result, N, H and C cleared.
pub open spec fn after_xor_r8_r8(s: CpuState, dest: int, src: int) -> CpuState {
    let result = s.reg(dest) ^ s.reg(src);
    s.set_reg(dest, result).set_flags(with_znhc(s.flags, result == 0, false, false, false))
}

/// `and_r8_r8` on slots given at run time.
pub fn and_r8_r8_at(cpu: &mut Cpu, dest_i: usize, src_i: usize)
    requires
        dest_i < 14,
        src_i < 14,
    ensures
        final(cpu)@ == after_and_r8_r8(old(cpu)@, dest_i as int, src_i as int),
{
    let src = cpu.reg(src_i);
    let dest = cpu.reg(dest_i);
    let result = dest & src;
    cpu.set_reg(dest_i, result);
    cpu.flags.set_flag(Flag::Zero, result == 0);
    cpu.flags.set_flag(Flag::Subtract, false);
    cpu.flags.set_flag(Flag::HalfCarry, true);
    cpu.flags.set_flag(Flag::Carry, false);
}

/// `or_r8_r8` on slots given at run time.
pub fn or_r8_r8_at(cpu: &mut Cpu, dest_i: usize, src_i: usize)
    requires
        dest_i < 14,
        src_i < 14,
    ensures
        final(cpu)@ == after_or_r8_r8(old(cpu)@, dest_i as int, src_i as int),
{
    let src = cpu.reg(src_i);
    let dest = cpu.reg(dest_i);
    let result = dest | src;
    cpu.set_reg(dest_i, result);
    cpu.flags.set_flag(Flag::Zero, result == 0);
    cpu.flags.set_flag(Flag::Subtract, false);
    cpu.flags.set_flag(Flag::HalfCarry, false);
    cpu.flags.set_flag(Flag::Carry, false);
}

/// `xor_r8_r8` on slots given at run time.
pub fn xor_r8_r8_at(cpu: &mut Cpu, dest_i: usize, src_i: usize)
    requires
        dest_i < 14,
        src_i < 14,
    ensures
        final(cpu)@ == after_xor_r8_r8(old(cpu)@, dest_i as int, src_i as int),
{
    let src = cpu.reg(src_i);
    let dest = cpu.reg(dest_i);
    let result = dest ^ src;
    cpu.set_reg(dest_i, result);
    cpu.flags.set_flag(Flag::Zero, result == 0);
    cpu.flags.set_flag(Flag::Subtract, false);
    cpu.flags.set_flag(Flag::HalfCarry, false);
    cpu.flags.set_flag(Flag::Carry, false);
}

/// AND: `Dest &= Src`.
pub fn and_r8_r8<Dest: Reg8, Src: Reg8>(cpu: &mut Cpu)
    ensures
        final(cpu)@ == after_and_r8_r8(old(cpu)@, Dest::USIZE as int, Src::USIZE as int),
{
    proof {
        Dest::lemma_index_in_range();
        Src::lemma_index_in_range();
    }
    and_r8_r8_at(cpu, Dest::USIZE, Src::USIZE)
}

/// OR: `Dest |= Src`.
pub fn or_r8_r8<Dest: Reg8, Src: Reg8>(cpu: &mut Cpu)
    ensures
        final(cpu)@ == after_or_r8_r8(old(cpu)@, Dest::USIZE as int, Src::USIZE as int),
{
    proof {
        Dest::lemma_index_in_range();
        Src::lemma_index_in_range();
    }
    or_r8_r8_at(cpu, Dest::USIZE, Src::USIZE)
}

/// XOR: `Dest ^= Src`.
pub fn xor_r8_r8<Dest: Reg8, Src: Reg8>(cpu: &mut Cpu)
    ensures
        final(cpu)@ == after_xor_r8_r8(old(cpu)@, Dest::USIZE as int, Src::USIZE as int),
{
    proof {
        Dest::lemma_index_in_range();
        Src::lemma_index_in_range();
    }
    xor_r8_r8_at(cpu, Dest::USIZE, Src::USIZE)
}

/// XOR of a register with itself always leaves zero and raises Z.
pub proof fn lemma_xor_self_is_zero(s: CpuState, i: int)
    requires
        s.wf(),
        0 <= i < 14,
    ensures
        after_xor_r8_r8(s, i, i).reg(i) == 0,
        after_xor_r8_r8(s, i, i).has(Flag::Zero),
{
    let x = s.reg(i);
    crate::bits::lemma_byte_fields(x);
    crate::cpu2::flags::lemma_flag_set_get(s.flags, Flag::Zero, Flag::Subtract, true);
    let f1 = crate::cpu2::defines::with_flag(s.flags, Flag::Zero, true);
    crate::cpu2::flags::lemma_flag_set_get(f1, Flag::Subtract, Flag::Zero, false);
    let f2 = crate::cpu2::defines::with_flag(f1, Flag::Subtract, false);
    crate::cpu2::flags::lemma_flag_set_get(f2, Flag::HalfCarry, Flag::Zero, false);
    let f3 = crate::cpu2::defines::with_flag(f2, Flag::HalfCarry, false);
    crate::cpu2::flags::lemma_flag_set_get(f3, Flag::Carry, Flag::Zero, false);
}

} // verus!
