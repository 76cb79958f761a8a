use vstd::prelude::*;

use crate::cpu2::defines::{r8, add8, Cpu, CpuState, Flag, with_nhc, with_znhc};
use crate::cpu2::flags::FlagsOps;
use crate::cpu2::implemenation::Reg8;
use crate::bits::lemma_low_nibble;

verus! {

/// Whether adding two bytes carries out of bit 3.
pub open spec fn half_carry_add(a: u8, b: u8) -> bool {
    (a & 0x0F) + (b & 0x0F) > 0x0F
}

/// Whether adding two bytes carries out of bit 7.
pub open spec fn carry_add(a: u8, b: u8) -> bool {
    a + b > 0xFF
}

/// The carry flag as a number.
pub open spec fn carry_in(s: CpuState) -> int {
    if s.has(Flag::Carry) { 1 } else { 0 }
}

/// `dest += src`; Z from the result, N cleared, H and C from the addition.
pub open spec fn after_add_r8_r8(s: CpuState, src: int, dest: int) -> CpuState {
    let a = s.reg(src);
    let d = s.reg(dest);
    let result = add8(d as int, a as int);
    s.set_reg(dest, result).set_flags(with_znhc(s.flags, result == 0, false, half_carry_add(a, d), carry_add(a, d)))
}

/// `dest += src + carry`; Z from the result, N cleared, H and C from `src + dest` alone.
pub open spec fn after_add_r8_r8_with_carry(s: CpuState, src: int, dest: int) -> CpuState {
    let a = s.reg(src);
    let d = s.reg(dest);
    let result = add8(a + d, carry_in(s));
    s.set_reg(dest, result).set_flags(with_znhc(s.flags, result == 0, false, half_carry_add(a, d), carry_add(a, d)))
}

/// `dest += src`; Z kept, N cleared, H and C from the addition.
pub open spec fn after_add_r8_r8_no_zero_flag(s: CpuState, src: int, dest: int) -> CpuState {
    let a = s.reg(src);
    let d = s.reg(dest);
    s.set_reg(dest, add8(d as int, a as int)).set_flags(with_nhc(s.flags, false, half_carry_add(a, d), carry_add(a, d)))
}

/// `dest += src + carry`; Z kept, N cleared, H and C from `src + dest` alone.
pub open spec fn after_add_r8_r8_with_carry_and_no_zero_flag(s: CpuState, src: int, dest: int) -> CpuState {
    let a = s.reg(src);
    let d = s.reg(dest);
    s.set_reg(dest, add8(a + d, carry_in(s))).set_flags(with_nhc(s.flags, false, half_carry_add(a, d), carry_add(a, d)))
}

/// `Z = P + Z` (low byte of SP plus the offset); Z and N cleared, H and C from the addition.
pub open spec fn after_add_hl_sp_e_low(s: CpuState) -> CpuState {
    let p = s.reg(r8::P as int);
    let e = s.reg(r8::Z as int);
    s.set_reg(r8::Z as int, add8(p as int, e as int)).set_flags(
        with_znhc(s.flags, false, false, half_carry_add(p, e), carry_add(p, e)),
    )
}

/// The sign extension of an offset byte into its high byte.
pub open spec fn sign_fill(e: u8) -> int {
    if e >= 0x80 { 0xFF } else { 0 }
}

/// `W = S + sign fill of Z + carry`; flags kept.
pub open spec fn after_add_hl_sp_e_high(s: CpuState) -> CpuState {
    let sp_high = s.reg(r8::S as int);
    let e = s.reg(r8::Z as int);
    s.set_reg(r8::W as int, add8(sp_high + sign_fill(e), carry_in(s)))
}

/// `add_r8_r8` on slots given at run time.
pub fn add_r8_r8_at(cpu: &mut Cpu, src_i: usize, dest_i: usize)
    requires
        src_i < 14,
        dest_i < 14,
    ensures
        final(cpu)@ == after_add_r8_r8(old(cpu)@, src_i as int, dest_i as int),
{
    let src = cpu.reg(src_i);
    let dest = cpu.reg(dest_i);
    let result = dest.wrapping_add(src);
    cpu.set_reg(dest_i, result);
    proof {
        lemma_low_nibble(src);
        lemma_low_nibble(dest);
    }
    cpu.flags.set_flag(Flag::Zero, result == 0);
    cpu.flags.set_flag(Flag::Subtract, false);
    cpu.flags.set_flag(Flag::HalfCarry, (src & 0x0F) + (dest & 0x0F) > 0x0F);
    cpu.flags.set_flag(Flag::Carry, (src as u16) + (dest as u16) > 0xFF);
}

/// `add_r8_r8_with_carry` on slots given at run time.
pub fn add_r8_r8_with_carry_at(cpu: &mut Cpu, src_i: usize, dest_i: usize)
    requires
        src_i < 14,
        dest_i < 14,
    ensures
        final(cpu)@ == after_add_r8_r8_with_carry(old(cpu)@, src_i as int, dest_i as int),
{
    let src = cpu.reg(src_i);
    let dest = cpu.reg(dest_i);
    let carry: u8 = if cpu.flags.get_flag(Flag::Carry) { 1 } else { 0 };
    let result = src.wrapping_add(dest).wrapping_add(carry);
    cpu.set_reg(dest_i, result);
    proof {
        lemma_low_nibble(src);
        lemma_low_nibble(dest);
    }
    cpu.flags.set_flag(Flag::Zero, result == 0);
    cpu.flags.set_flag(Flag::Subtract, false);
    cpu.flags.set_flag(Flag::HalfCarry, (src & 0x0F) + (dest & 0x0F) > 0x0F);
    cpu.flags.set_flag(Flag::Carry, (src as u16) + (dest as u16) > 0xFF);
}

/// `add_r8_r8_no_zero_flag` on slots given at run time.
pub fn add_r8_r8_no_zero_flag_at(cpu: &mut Cpu, src_i: usize, dest_i: usize)
    requires
        src_i < 14,
        dest_i < 14,
    ensures
        final(cpu)@ == after_add_r8_r8_no_zero_flag(old(cpu)@, src_i as int, dest_i as int),
{
    let src = cpu.reg(src_i);
    let dest = cpu.reg(dest_i);
    let result = dest.wrapping_add(src);
    cpu.set_reg(dest_i, result);
    proof {
        lemma_low_nibble(src);
        lemma_low_nibble(dest);
    }
    cpu.flags.set_flag(Flag::Subtract, false);
    cpu.flags.set_flag(Flag::HalfCarry, (src & 0x0F) + (dest & 0x0F) > 0x0F);
    cpu.flags.set_flag(Flag::Carry, (src as u16) + (dest as u16) > 0xFF);
}

/// `add_r8_r8_with_carry_and_no_zero_flag` on slots given at run time.
pub fn add_r8_r8_with_carry_and_no_zero_flag_at(cpu: &mut Cpu, src_i: usize, dest_i: usize)
    requires
        src_i < 14,
        dest_i < 14,
    ensures
        final(cpu)@ == after_add_r8_r8_with_carry_and_no_zero_flag(old(cpu)@, src_i as int, dest_i as int),
{
    let src = cpu.reg(src_i);
    let dest = cpu.reg(dest_i);
    let carry: u8 = if cpu.flags.get_flag(Flag::Carry) { 1 } else { 0 };
    let result = src.wrapping_add(dest).wrapping_add(carry);
    cpu.set_reg(dest_i, result);
    proof {
        lemma_low_nibble(src);
        lemma_low_nibble(dest);
    }
    cpu.flags.set_flag(Flag::Subtract, false);
    cpu.flags.set_flag(Flag::HalfCarry, (src & 0x0F) + (dest & 0x0F) > 0x0F);
    cpu.flags.set_flag(Flag::Carry, (src as u16) + (dest as u16) > 0xFF);
}

/// ADD of two registers: `Dest += Src`, all four flags from the addition.
pub fn add_r8_r8<Src: Reg8, Dest: Reg8>(cpu: &mut Cpu)
    ensures
        final(cpu)@ == after_add_r8_r8(old(cpu)@, Src::USIZE as int, Dest::USIZE as int),
{
    proof {
        Src::lemma_index_in_range();
        Dest::lemma_index_in_range();
    }
    add_r8_r8_at(cpu, Src::USIZE, Dest::USIZE)
}

/// ADC of two registers: `Dest += Src + carry`.
pub fn add_r8_r8_with_carry<Src: Reg8, Dest: Reg8>(cpu: &mut Cpu)
    ensures
        final(cpu)@ == after_add_r8_r8_with_carry(old(cpu)@, Src::USIZE as int, Dest::USIZE as int),
{
    proof {
        Src::lemma_index_in_range();
        Dest::lemma_index_in_range();
    }
    add_r8_r8_with_carry_at(cpu, Src::USIZE, Dest::USIZE)
}

/// Low half of a 16-bit addition: `Dest += Src`, Z kept.
pub fn add_r8_r8_no_zero_flag<Src: Reg8, Dest: Reg8>(cpu: &mut Cpu)
    ensures
        final(cpu)@ == after_add_r8_r8_no_zero_flag(old(cpu)@, Src::USIZE as int, Dest::USIZE as int),
{
    proof {
        Src::lemma_index_in_range();
        Dest::lemma_index_in_range();
    }
    add_r8_r8_no_zero_flag_at(cpu, Src::USIZE, Dest::USIZE)
}

/// High half of a 16-bit addition: `Dest += Src + carry`, Z kept.
pub fn add_r8_r8_with_carry_and_no_zero_flag<Src: Reg8, Dest: Reg8>(cpu: &mut Cpu)
    ensures
        final(cpu)@ == after_add_r8_r8_with_carry_and_no_zero_flag(old(cpu)@, Src::USIZE as int, Dest::USIZE as int),
{
    proof {
        Src::lemma_index_in_range();
        Dest::lemma_index_in_range();
    }
    add_r8_r8_with_carry_and_no_zero_flag_at(cpu, Src::USIZE, Dest::USIZE)
}

/// Low byte of `SP + e`, into Z.
pub fn add_hl_sp_e_low(cpu: &mut Cpu)
    ensures
        final(cpu)@ == after_add_hl_sp_e_low(old(cpu)@),
{
    let sp_low = cpu.reg(r8::P);
    let e = cpu.reg(r8::Z);
    let result = sp_low.wrapping_add(e);
    cpu.set_reg(r8::Z, result);
    proof {
        lemma_low_nibble(sp_low);
        lemma_low_nibble(e);
    }
    let h = (sp_low & 0x0F) + (e & 0x0F) > 0x0F;
    let c = (sp_low as u16) + (e as u16) > 0xFF;
    cpu.flags.set_flag(Flag::Zero, false);
    cpu.flags.set_flag(Flag::Subtract, false);
    cpu.flags.set_flag(Flag::HalfCarry, h);
    cpu.flags.set_flag(Flag::Carry, c);
}

/// High byte of `SP + e`, into W.
pub fn add_hl_sp_e_high(cpu: &mut Cpu)
    ensures
        final(cpu)@ == after_add_hl_sp_e_high(old(cpu)@),
{
    let sp_high = cpu.reg(r8::S);
    let e = cpu.reg(r8::Z);
    proof {
        crate::bits::lemma_bit7(e);
    }
    let adj: u8 = if e & 0x80 != 0 { 0xFF } else { 0x00 };
    let carry: u8 = if cpu.flags.get_flag(Flag::Carry) { 1 } else { 0 };
    cpu.set_reg(r8::W, sp_high.wrapping_add(adj).wrapping_add(carry));
}

} // verus!
