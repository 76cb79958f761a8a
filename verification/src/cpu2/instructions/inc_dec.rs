use vstd::prelude::*;

use crate::cpu2::defines::{add8, sub8, Cpu, CpuState};
use crate::cpu2::implemenation::{Reg16, Reg8};
use crate::cpu2::instructions::load::{after_write_memory, bump_pair, step_pair, write_memory_at};

verus! {

/// `dest += 1`, flags kept.
pub open spec fn after_inc_r8(s: CpuState, dest: int) -> CpuState {
    s.set_reg(dest, add8(s.reg(dest) as int, 1))
}

/// `dest -= 1`, flags kept.
pub open spec fn after_dec_r8(s: CpuState, dest: int) -> CpuState {
    s.set_reg(dest, sub8(s.reg(dest) as int, 1))
}

/// `value += 1`, then `[addr] = value`.
pub open spec fn after_inc_addr(s: CpuState, addr: int, value: int) -> CpuState {
    after_write_memory(after_inc_r8(s, value), addr, value)
}

/// `value -= 1`, then `[addr] = value`.
pub open spec fn after_dec_addr(s: CpuState, addr: int, value: int) -> CpuState {
    after_write_memory(after_dec_r8(s, value), addr, value)
}

pub fn inc_r8_at(cpu: &mut Cpu, dest_i: usize)
    requires
        dest_i < 14,
    ensures
        final(cpu)@ == after_inc_r8(old(cpu)@, dest_i as int),
{
    let v = cpu.reg(dest_i);
    cpu.set_reg(dest_i, v.wrapping_add(1));
}

pub fn dec_r8_at(cpu: &mut Cpu, dest_i: usize)
    requires
        dest_i < 14,
    ensures
        final(cpu)@ == after_dec_r8(old(cpu)@, dest_i as int),
{
    let v = cpu.reg(dest_i);
    cpu.set_reg(dest_i, v.wrapping_sub(1));
}

pub fn inc_addr_at(cpu: &mut Cpu, addr_i: usize, value_i: usize)
    requires
        addr_i < 7,
        value_i < 14,
    ensures
        final(cpu)@ == after_inc_addr(old(cpu)@, addr_i as int, value_i as int),
{
    inc_r8_at(cpu, value_i);
    write_memory_at(cpu, addr_i, value_i);
}

pub fn dec_addr_at(cpu: &mut Cpu, addr_i: usize, value_i: usize)
    requires
        addr_i < 7,
        value_i < 14,
    ensures
        final(cpu)@ == after_dec_addr(old(cpu)@, addr_i as int, value_i as int),
{
    dec_r8_at(cpu, value_i);
    write_memory_at(cpu, addr_i, value_i);
}

/// INC r without flags: `Dest += 1`.
pub fn inc_r8<Dest: Reg8>(cpu: &mut Cpu)
    ensures
        final(cpu)@ == after_inc_r8(old(cpu)@, Dest::USIZE as int),
{
    proof {
        Dest::lemma_index_in_range();
    }
    inc_r8_at(cpu, Dest::USIZE)
}

/// Increments `Value` and stores it at the address in `Addr`.
pub fn inc_addr<Addr: Reg16, Value: Reg8>(cpu: &mut Cpu)
    ensures
        final(cpu)@ == after_inc_addr(old(cpu)@, Addr::USIZE as int, Value::USIZE as int),
{
    proof {
        Addr::lemma_index_in_range();
        Value::lemma_index_in_range();
    }
    inc_addr_at(cpu, Addr::USIZE, Value::USIZE)
}

/// DEC r without flags: `Reg -= 1`.
pub fn dec_r8<Reg: Reg8>(cpu: &mut Cpu)
    ensures
        final(cpu)@ == after_dec_r8(old(cpu)@, Reg::USIZE as int),
{
    proof {
        Reg::lemma_index_in_range();
    }
    dec_r8_at(cpu, Reg::USIZE)
}

/// Decrements `Value` and stores it at the address in `Addr`.
pub fn dec_addr<Addr: Reg16, Value: Reg8>(cpu: &mut Cpu)
    ensures
        final(cpu)@ == after_dec_addr(old(cpu)@, Addr::USIZE as int, Value::USIZE as int),
{
    proof {
        Addr::lemma_index_in_range();
        Value::lemma_index_in_range();
    }
    dec_addr_at(cpu, Addr::USIZE, Value::USIZE)
}

/// `Dest += 1` on a pair, modulo 65536.
pub fn inc_r16<Dest: Reg16>(cpu: &mut Cpu)
    ensures
        final(cpu)@ == bump_pair(old(cpu)@, Dest::USIZE as int, 1),
{
    proof {
        Dest::lemma_index_in_range();
    }
    step_pair(cpu, Dest::USIZE, true)
}

/// `Dest -= 1` on a pair, modulo 65536.
pub fn dec_r16<Dest: Reg16>(cpu: &mut Cpu)
    ensures
        final(cpu)@ == bump_pair(old(cpu)@, Dest::USIZE as int, -1),
{
    proof {
        Dest::lemma_index_in_range();
    }
    step_pair(cpu, Dest::USIZE, false)
}

/// Incrementing then decrementing a pair restores it.
pub proof fn lemma_inc_dec_r16_inverse(s: CpuState, j: int)
    requires
        s.wf(),
        0 <= j < 7,
    ensures
        bump_pair(bump_pair(s, j, 1), j, -1) == s,
{
    let s1 = bump_pair(s, j, 1);
    crate::cpu2::implemenation::lemma_pair_set_get(s, j, j, crate::cpu2::defines::add16(s.pair(j) as int, 1));
    let s2 = bump_pair(s1, j, -1);
    assert(s2.pair(j) == s.pair(j));
    assert(s2.r8 =~= s.r8);
}

} // verus!
