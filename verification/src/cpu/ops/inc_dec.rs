use vstd::prelude::*;

use crate::cpu2::defines::{add8, sub8, with_flag, Flag};
use crate::cpu2::flags::FlagsOps;
use crate::cpu::defines::{micro, Cpu, MicroState};
use crate::mmu::Mmu;
use crate::cpu2::implemenation::{Reg16, Reg8};
use crate::cpu::ops::load::{after_write_memory, bump_pair, step_pair, write_memory_at};

verus! {

/// `dest += 1`; Z from the result, N cleared, H on a carry out of bit 3, C kept.
pub open spec fn after_inc_r8(s: MicroState, dest: int) -> MicroState {
    let v = s.reg(dest);
    let result = add8(v as int, 1);
    s.set_reg(dest, result).set_flags(
        with_flag(with_flag(with_flag(s.flags, Flag::Zero, result == 0), Flag::Subtract, false), Flag::HalfCarry, v % 16 == 15),
    )
}

/// `dest -= 1`; Z from the result, N raised, H on a borrow from bit 4, C kept.
pub open spec fn after_dec_r8(s: MicroState, dest: int) -> MicroState {
    let v = s.reg(dest);
    let result = sub8(v as int, 1);
    s.set_reg(dest, result).set_flags(
        with_flag(with_flag(with_flag(s.flags, Flag::Zero, result == 0), Flag::Subtract, true), Flag::HalfCarry, v % 16 == 0),
    )
}

/// `value += 1`, then `[addr] = value`.
pub open spec fn after_inc_addr(s: MicroState, addr: int, value: int) -> MicroState {
    after_write_memory(after_inc_r8(s, value), addr, value)
}

/// `value -= 1`, then `[addr] = value`.
pub open spec fn after_dec_addr(s: MicroState, addr: int, value: int) -> MicroState {
    after_write_memory(after_dec_r8(s, value), addr, value)
}

pub fn inc_r8_at(cpu: &mut Cpu, bus: &mut Mmu, dest_i: usize)
    requires
        dest_i < 14,
    ensures
        micro(*final(cpu), *final(bus)) == after_inc_r8(micro(*old(cpu), *old(bus)), dest_i as int),
{
    let v = cpu.reg(dest_i);
    let result = v.wrapping_add(1);
    cpu.set_reg(dest_i, result);
    proof {
        crate::bits::lemma_byte_fields(v);
    }
    cpu.flags.set_flag(Flag::Zero, result == 0);
    cpu.flags.set_flag(Flag::Subtract, false);
    cpu.flags.set_flag(Flag::HalfCarry, (v & 0x0F) == 0x0F);
}

pub fn dec_r8_at(cpu: &mut Cpu, bus: &mut Mmu, dest_i: usize)
    requires
        dest_i < 14,
    ensures
        micro(*final(cpu), *final(bus)) == after_dec_r8(micro(*old(cpu), *old(bus)), dest_i as int),
{
    let v = cpu.reg(dest_i);
    let result = v.wrapping_sub(1);
    cpu.set_reg(dest_i, result);
    proof {
        crate::bits::lemma_byte_fields(v);
    }
    cpu.flags.set_flag(Flag::Zero, result == 0);
    cpu.flags.set_flag(Flag::Subtract, true);
    cpu.flags.set_flag(Flag::HalfCarry, (v & 0x0F) == 0x00);
}

pub fn inc_addr_at(cpu: &mut Cpu, bus: &mut Mmu, addr_i: usize, value_i: usize)
    requires
        addr_i < 7,
        value_i < 14,
    ensures
        micro(*final(cpu), *final(bus)) == after_inc_addr(micro(*old(cpu), *old(bus)), addr_i as int, value_i as int),
{
    inc_r8_at(cpu, bus, value_i);
    write_memory_at(cpu, bus, addr_i, value_i);
}

pub fn dec_addr_at(cpu: &mut Cpu, bus: &mut Mmu, addr_i: usize, value_i: usize)
    requires
        addr_i < 7,
        value_i < 14,
    ensures
        micro(*final(cpu), *final(bus)) == after_dec_addr(micro(*old(cpu), *old(bus)), addr_i as int, value_i as int),
{
    dec_r8_at(cpu, bus, value_i);
    write_memory_at(cpu, bus, addr_i, value_i);
}

/// Incrementing then decrementing a pair restores it.
pub proof fn lemma_inc_dec_r16_inverse(s: MicroState, j: int)
    requires
        s.wf(),
        0 <= j < 7,
    ensures
        bump_pair(bump_pair(s, j, 1), j, -1) == s,
{
    let s1 = bump_pair(s, j, 1);
    crate::cpu::defines::lemma_pair_set_get(s, j, j, crate::cpu2::defines::add16(s.pair(j) as int, 1));
    let s2 = bump_pair(s1, j, -1);
    assert(s2.pair(j) == s.pair(j));
    assert(s2.r8 =~= s.r8);
}

impl Cpu {
    /// INC r: `Dest += 1`, with Z, N and H from the increment.
    pub fn inc_r8<Dest: Reg8>(&mut self, bus: &mut Mmu)
        ensures
            micro(*final(self), *final(bus)) == after_inc_r8(micro(*old(self), *old(bus)), Dest::USIZE as int),
    {
        proof {
            Dest::lemma_index_in_range();
        }
        inc_r8_at(self, bus, Dest::USIZE)
    }

    /// Increments `Value` and stores it at the address in `Addr`.
    pub fn inc_addr<Addr: Reg16, Value: Reg8>(&mut self, bus: &mut Mmu)
        ensures
            micro(*final(self), *final(bus)) == after_inc_addr(micro(*old(self), *old(bus)), Addr::USIZE as int, Value::USIZE as int),
    {
        proof {
            Addr::lemma_index_in_range();
            Value::lemma_index_in_range();
        }
        inc_addr_at(self, bus, Addr::USIZE, Value::USIZE)
    }

    /// DEC r: `Reg -= 1`, with Z, N and H from the decrement.
    pub fn dec_r8<Reg: Reg8>(&mut self, bus: &mut Mmu)
        ensures
            micro(*final(self), *final(bus)) == after_dec_r8(micro(*old(self), *old(bus)), Reg::USIZE as int),
    {
        proof {
            Reg::lemma_index_in_range();
        }
        dec_r8_at(self, bus, Reg::USIZE)
    }

    /// Decrements `Value` and stores it at the address in `Addr`.
    pub fn dec_addr<Addr: Reg16, Value: Reg8>(&mut self, bus: &mut Mmu)
        ensures
            micro(*final(self), *final(bus)) == after_dec_addr(micro(*old(self), *old(bus)), Addr::USIZE as int, Value::USIZE as int),
    {
        proof {
            Addr::lemma_index_in_range();
            Value::lemma_index_in_range();
        }
        dec_addr_at(self, bus, Addr::USIZE, Value::USIZE)
    }

    /// `Dest += 1` on a pair, modulo 65536.
    pub fn inc_r16<Dest: Reg16>(&mut self, bus: &mut Mmu)
        ensures
            micro(*final(self), *final(bus)) == bump_pair(micro(*old(self), *old(bus)), Dest::USIZE as int, 1),
    {
        proof {
            Dest::lemma_index_in_range();
        }
        step_pair(self, bus, Dest::USIZE, true)
    }

    /// `Dest -= 1` on a pair, modulo 65536.
    pub fn dec_r16<Dest: Reg16>(&mut self, bus: &mut Mmu)
        ensures
            micro(*final(self), *final(bus)) == bump_pair(micro(*old(self), *old(bus)), Dest::USIZE as int, -1),
    {
        proof {
            Dest::lemma_index_in_range();
        }
        step_pair(self, bus, Dest::USIZE, false)
    }
}

} // verus!
