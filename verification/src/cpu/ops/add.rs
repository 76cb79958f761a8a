use vstd::prelude::*;

use crate::cpu2::defines::{r8, add8, sub8, Flag, with_nhc, with_znhc};
use crate::cpu::defines::{micro, Cpu, MicroState};
use crate::mmu::Mmu;
use crate::cpu2::flags::FlagsOps;
use crate::cpu2::implemenation::Reg8;
use crate::bits::lemma_low_nibble;

use crate::cpu2::instructions::add::{carry_add, half_carry_add, sign_fill};

verus! {

/// The carry flag as a number.
pub open spec fn carry_in(s: MicroState) -> int {
    if s.has(Flag::Carry) { 1 } else { 0 }
}

/// `dest += src`; Z from the result, N cleared, H and C from the addition.
pub open spec fn after_add_r8_r8(s: MicroState, dest: int, src: int) -> MicroState {
    let a = s.reg(src);
    let d = s.reg(dest);
    let result = add8(d as int, a as int);
    s.set_reg(dest, result).set_flags(with_znhc(s.flags, result == 0, false, half_carry_add(a, d), carry_add(a, d)))
}

/// Whether adding two bytes and a carry carries out of bit 3.
pub open spec fn half_carry_adc(d: u8, a: u8, c: int) -> bool {
    d % 16 + a % 16 + c > 0x0F
}

/// Whether adding two bytes and a carry carries out of bit 7.
pub open spec fn carry_adc(d: u8, a: u8, c: int) -> bool {
    d + a + c > 0xFF
}

/// `dest += src + carry`; Z from the result, N cleared, H and C from the whole sum,
/// carry included.
pub open spec fn after_add_r8_r8_with_carry(s: MicroState, dest: int, src: int) -> MicroState {
    let a = s.reg(src);
    let d = s.reg(dest);
    let c = carry_in(s);
    let result = add8(d + a, c);
    s.set_reg(dest, result).set_flags(with_znhc(s.flags, result == 0, false, half_carry_adc(d, a, c), carry_adc(d, a, c)))
}

/// `dest += src`; Z kept, N cleared, H and C from the addition.
pub open spec fn after_add_r8_r8_no_zero_flag(s: MicroState, src: int, dest: int) -> MicroState {
    let a = s.reg(src);
    let d = s.reg(dest);
    s.set_reg(dest, add8(d as int, a as int)).set_flags(with_nhc(s.flags, false, half_carry_add(a, d), carry_add(a, d)))
}

/// `dest += src + carry`; Z kept, N cleared, H and C from the whole sum, carry included.
pub open spec fn after_add_r8_r8_with_carry_and_no_zero_flag(s: MicroState, src: int, dest: int) -> MicroState {
    let a = s.reg(src);
    let d = s.reg(dest);
    let c = carry_in(s);
    s.set_reg(dest, add8(d + a, c)).set_flags(with_nhc(s.flags, false, half_carry_adc(d, a, c), carry_adc(d, a, c)))
}

/// `Z = P + Z` (low byte of SP plus the offset); Z and N cleared, H and C from the addition.
pub open spec fn after_add_hl_sp_e_low(s: MicroState) -> MicroState {
    let p = s.reg(r8::P as int);
    let e = s.reg(r8::Z as int);
    s.set_reg(r8::Z as int, add8(p as int, e as int)).set_flags(
        with_znhc(s.flags, false, false, half_carry_add(p, e), carry_add(p, e)),
    )
}

/// `W = S + sign fill of the offset + carry`; flags kept. The low cycle left `P + e`
/// in Z, so the offset is `Z - P`.
pub open spec fn after_add_hl_sp_e_high(s: MicroState) -> MicroState {
    let sp_high = s.reg(r8::S as int);
    let e = sub8(s.reg(r8::Z as int) as int, s.reg(r8::P as int) as int);
    s.set_reg(r8::W as int, add8(sp_high + sign_fill(e), carry_in(s)))
}

/// `add_r8_r8` on slots given at run time.
pub fn add_r8_r8_at(cpu: &mut Cpu, bus: &mut Mmu, dest_i: usize, src_i: usize)
    requires
        dest_i < 14,
        src_i < 14,
    ensures
        micro(*final(cpu), *final(bus)) == after_add_r8_r8(micro(*old(cpu), *old(bus)), dest_i as int, src_i as int),
{
    let src = cpu.reg(src_i);
    let dest = cpu.reg(dest_i);
    let result = dest.wrapping_add(src);
    cpu.set_reg(dest_i, result);
    proof {
        lemma_low_nibble(src);
        lemma_low_nibble(dest);
    }
    cpu.flags.set_flag(Flag::Zero, result == 0);
    cpu.flags.set_flag(Flag::Subtract, false);
    cpu.flags.set_flag(Flag::HalfCarry, (src & 0x0F) + (dest & 0x0F) > 0x0F);
    cpu.flags.set_flag(Flag::Carry, (src as u16) + (dest as u16) > 0xFF);
}

/// `add_r8_r8_with_carry` on slots given at run time.
pub fn add_r8_r8_with_carry_at(cpu: &mut Cpu, bus: &mut Mmu, dest_i: usize, src_i: usize)
    requires
        dest_i < 14,
        src_i < 14,
    ensures
        micro(*final(cpu), *final(bus)) == after_add_r8_r8_with_carry(micro(*old(cpu), *old(bus)), dest_i as int, src_i as int),
{
    let src = cpu.reg(src_i);
    let dest = cpu.reg(dest_i);
    let carry: u8 = if cpu.flags.get_flag(Flag::Carry) { 1 } else { 0 };
    let result = dest.wrapping_add(src).wrapping_add(carry);
    cpu.set_reg(dest_i, result);
    proof {
        lemma_low_nibble(src);
        lemma_low_nibble(dest);
    }
    cpu.flags.set_flag(Flag::Zero, result == 0);
    cpu.flags.set_flag(Flag::Subtract, false);
    let half_carry_check = (dest & 0x0F) + (src & 0x0F) + carry;
    cpu.flags.set_flag(Flag::HalfCarry, half_carry_check > 0x0F);
    let carry_check = (dest as u16) + (src as u16) + (carry as u16);
    cpu.flags.set_flag(Flag::Carry, carry_check > 0xFF);
}

/// `add_r8_r8_no_zero_flag` on slots given at run time.
pub fn add_r8_r8_no_zero_flag_at(cpu: &mut Cpu, bus: &mut Mmu, src_i: usize, dest_i: usize)
    requires
        src_i < 14,
        dest_i < 14,
    ensures
        micro(*final(cpu), *final(bus)) == after_add_r8_r8_no_zero_flag(micro(*old(cpu), *old(bus)), src_i as int, dest_i as int),
{
    let src = cpu.reg(src_i);
    let dest = cpu.reg(dest_i);
    let result = dest.wrapping_add(src);
    cpu.set_reg(dest_i, result);
    proof {
        lemma_low_nibble(src);
        lemma_low_nibble(dest);
    }
    cpu.flags.set_flag(Flag::Subtract, false);
    cpu.flags.set_flag(Flag::HalfCarry, (src & 0x0F) + (dest & 0x0F) > 0x0F);
    cpu.flags.set_flag(Flag::Carry, (src as u16) + (dest as u16) > 0xFF);
}

/// `add_r8_r8_with_carry_and_no_zero_flag` on slots given at run time.
pub fn add_r8_r8_with_carry_and_no_zero_flag_at(cpu: &mut Cpu, bus: &mut Mmu, src_i: usize, dest_i: usize)
    requires
        src_i < 14,
        dest_i < 14,
    ensures
        micro(*final(cpu), *final(bus)) == after_add_r8_r8_with_carry_and_no_zero_flag(micro(*old(cpu), *old(bus)), src_i as int, dest_i as int),
{
    let src = cpu.reg(src_i);
    let dest = cpu.reg(dest_i);
    let carry: u8 = if cpu.flags.get_flag(Flag::Carry) { 1 } else { 0 };
    let result = dest.wrapping_add(src).wrapping_add(carry);
    cpu.set_reg(dest_i, result);
    proof {
        lemma_low_nibble(src);
        lemma_low_nibble(dest);
    }
    let carry_out = (src as u16) + (dest as u16) + (carry as u16) > 0xFF;
    let half_carry = (src & 0x0F) + (dest & 0x0F) + carry > 0x0F;
    cpu.flags.set_flag(Flag::Subtract, false);
    cpu.flags.set_flag(Flag::HalfCarry, half_carry);
    cpu.flags.set_flag(Flag::Carry, carry_out);
}

impl Cpu {
    /// ADD of two registers: `Dest += Src`, all four flags from the addition.
    pub fn add_r8_r8<Dest: Reg8, Src: Reg8>(&mut self, bus: &mut Mmu)
        ensures
            micro(*final(self), *final(bus)) == after_add_r8_r8(micro(*old(self), *old(bus)), Dest::USIZE as int, Src::USIZE as int),
    {
        proof {
            Dest::lemma_index_in_range();
            Src::lemma_index_in_range();
        }
        add_r8_r8_at(self, bus, Dest::USIZE, Src::USIZE)
    }

    /// ADC of two registers: `Dest += Src + carry`.
    pub fn add_r8_r8_with_carry<Dest: Reg8, Src: Reg8>(&mut self, bus: &mut Mmu)
        ensures
            micro(*final(self), *final(bus)) == after_add_r8_r8_with_carry(micro(*old(self), *old(bus)), Dest::USIZE as int, Src::USIZE as int),
    {
        proof {
            Dest::lemma_index_in_range();
            Src::lemma_index_in_range();
        }
        add_r8_r8_with_carry_at(self, bus, Dest::USIZE, Src::USIZE)
    }

    /// Low half of a 16-bit addition: `Dest += Src`, Z kept.
    pub fn add_r8_r8_no_zero_flag<Src: Reg8, Dest: Reg8>(&mut self, bus: &mut Mmu)
        ensures
            micro(*final(self), *final(bus)) == after_add_r8_r8_no_zero_flag(micro(*old(self), *old(bus)), Src::USIZE as int, Dest::USIZE as int),
    {
        proof {
            Src::lemma_index_in_range();
            Dest::lemma_index_in_range();
        }
        add_r8_r8_no_zero_flag_at(self, bus, Src::USIZE, Dest::USIZE)
    }

    /// High half of a 16-bit addition: `Dest += Src + carry`, Z kept.
    pub fn add_r8_r8_with_carry_and_no_zero_flag<Src: Reg8, Dest: Reg8>(&mut self, bus: &mut Mmu)
        ensures
            micro(*final(self), *final(bus)) == after_add_r8_r8_with_carry_and_no_zero_flag(micro(*old(self), *old(bus)), Src::USIZE as int, Dest::USIZE as int),
    {
        proof {
            Src::lemma_index_in_range();
            Dest::lemma_index_in_range();
        }
        add_r8_r8_with_carry_and_no_zero_flag_at(self, bus, Src::USIZE, Dest::USIZE)
    }

    /// Low byte of `SP + e`, into Z.
    pub fn add_hl_sp_e_low(&mut self, bus: &mut Mmu)
        ensures
            micro(*final(self), *final(bus)) == after_add_hl_sp_e_low(micro(*old(self), *old(bus))),
    {
        let sp_low = self.reg(r8::P);
        let e = self.reg(r8::Z);
        let result = sp_low.wrapping_add(e);
        self.set_reg(r8::Z, result);
        proof {
            lemma_low_nibble(sp_low);
            lemma_low_nibble(e);
        }
        let h = (sp_low & 0x0F) + (e & 0x0F) > 0x0F;
        let c = (sp_low as u16) + (e as u16) > 0xFF;
        self.flags.set_flag(Flag::Zero, false);
        self.flags.set_flag(Flag::Subtract, false);
        self.flags.set_flag(Flag::HalfCarry, h);
        self.flags.set_flag(Flag::Carry, c);
    }

    /// High byte of `SP + e`, into W.
    pub fn add_hl_sp_e_high(&mut self, bus: &mut Mmu)
        ensures
            micro(*final(self), *final(bus)) == after_add_hl_sp_e_high(micro(*old(self), *old(bus))),
    {
        let sp_high = self.reg(r8::S);
        let e = self.reg(r8::Z).wrapping_sub(self.reg(r8::P));
        proof {
            crate::bits::lemma_bit7(e);
        }
        let adj: u8 = if e & 0x80 != 0 { 0xFF } else { 0x00 };
        let carry: u8 = if self.flags.get_flag(Flag::Carry) { 1 } else { 0 };
        self.set_reg(r8::W, sp_high.wrapping_add(adj).wrapping_add(carry));
    }
}

} // verus!
