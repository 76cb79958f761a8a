use vstd::prelude::*;

use crate::cpu2::defines::{sub8, Cpu, CpuState, Flag, with_znhc};
use crate::cpu2::flags::FlagsOps;
use crate::cpu2::implemenation::Reg8;
use crate::cpu2::instructions::add::carry_in;
use crate::bits::lemma_low_nibble;

verus! {

/// `dest -= src`; Z from the result, N raised, H on a borrow from bit 4, C on a borrow.
pub open spec fn after_sub_r8_r8(s: CpuState, dest: int, src: int) -> CpuState {
    let a = s.reg(src);
    let d = s.reg(dest);
    let result = sub8(d as int, a as int);
    s.set_reg(dest, result).set_flags(with_znhc(s.flags, result == 0, true, (d & 0x0F) < (a & 0x0F), d < a))
}

/// `dest -= src + carry`; the borrows take the carry into account.
pub open spec fn after_sub_r8_r8_with_carry(s: CpuState, src: int, dest: int) -> CpuState {
    let a = s.reg(src);
    let d = s.reg(dest);
    let b = carry_in(s);
    let result = sub8(d - a, b);
    s.set_reg(dest, result).set_flags(
        with_znhc(s.flags, result == 0, true, (d & 0x0F) < (a & 0x0F) + b, d < a + b),
    )
}

/// `sub_r8_r8` on slots given at run time.
pub fn sub_r8_r8_at(cpu: &mut Cpu, dest_i: usize, src_i: usize)
    requires
        dest_i < 14,
        src_i < 14,
    ensures
        final(cpu)@ == after_sub_r8_r8(old(cpu)@, dest_i as int, src_i as int),
{
    let src = cpu.reg(src_i);
    let dest = cpu.reg(dest_i);
    let result = dest.wrapping_sub(src);
    cpu.set_reg(dest_i, result);
    cpu.flags.set_flag(Flag::Zero, result == 0);
    cpu.flags.set_flag(Flag::Subtract, true);
    cpu.flags.set_flag(Flag::HalfCarry, (dest & 0x0F) < (src & 0x0F));
    cpu.flags.set_flag(Flag::Carry, dest < src);
}

/// `sub_r8_r8_with_carry` on slots given at run time.
pub fn sub_r8_r8_with_carry_at(cpu: &mut Cpu, src_i: usize, dest_i: usize)
    requires
        src_i < 14,
        dest_i < 14,
    ensures
        final(cpu)@ == after_sub_r8_r8_with_carry(old(cpu)@, src_i as int, dest_i as int),
{
    let src = cpu.reg(src_i);
    let dest = cpu.reg(dest_i);
    let borrow: u8 = if cpu.flags.get_flag(Flag::Carry) { 1 } else { 0 };
    let result = dest.wrapping_sub(src).wrapping_sub(borrow);
    cpu.set_reg(dest_i, result);
    proof {
        lemma_low_nibble(src);
    }
    cpu.flags.set_flag(Flag::Zero, result == 0);
    cpu.flags.set_flag(Flag::Subtract, true);
    cpu.flags.set_flag(Flag::HalfCarry, (dest & 0x0F) < (src & 0x0F) + borrow);
    cpu.flags.set_flag(Flag::Carry, (dest as u16) < (src as u16) + borrow as u16);
}

/// SUB: `Dest -= Src`.
pub fn sub_r8_r8<Dest: Reg8, Src: Reg8>(cpu: &mut Cpu)
    ensures
        final(cpu)@ == after_sub_r8_r8(old(cpu)@, Dest::USIZE as int, Src::USIZE as int),
{
    proof {
        Dest::lemma_index_in_range();
        Src::lemma_index_in_range();
    }
    sub_r8_r8_at(cpu, Dest::USIZE, Src::USIZE)
}

/// SBC: `Dest -= Src + carry`.
pub fn sub_r8_r8_with_carry<Src: Reg8, Dest: Reg8>(cpu: &mut Cpu)
    ensures
        final(cpu)@ == after_sub_r8_r8_with_carry(old(cpu)@, Src::USIZE as int, Dest::USIZE as int),
{
    proof {
        Src::lemma_index_in_range();
        Dest::lemma_index_in_range();
    }
    sub_r8_r8_with_carry_at(cpu, Src::USIZE, Dest::USIZE)
}

} // verus!
