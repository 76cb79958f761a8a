use vstd::prelude::*;

use crate::cpu2::accumulator::u8_at;
use crate::cpu2::defines::{AccCpu, R16, R8};
use crate::cpu2::implemenation::GetReg;

verus! {

/// LD E, A.
pub fn load_e_a(cpu: &mut AccCpu)
    ensures
        final(cpu)@ == old(cpu)@.set_reg(R8::E, old(cpu)@.reg(R8::A)),
{
    let v = cpu.registers.get(R8::A);
    cpu.registers.set(R8::E, v);
}

/// LD E, B.
pub fn load_e_b(cpu: &mut AccCpu)
    ensures
        final(cpu)@ == old(cpu)@.set_reg(R8::E, old(cpu)@.reg(R8::B)),
{
    let v = cpu.registers.get(R8::B);
    cpu.registers.set(R8::E, v);
}

/// LD E, C.
pub fn load_e_c(cpu: &mut AccCpu)
    ensures
        final(cpu)@ == old(cpu)@.set_reg(R8::E, old(cpu)@.reg(R8::C)),
{
    let v = cpu.registers.get(R8::C);
    cpu.registers.set(R8::E, v);
}

/// LD E, D.
pub fn load_e_d(cpu: &mut AccCpu)
    ensures
        final(cpu)@ == old(cpu)@.set_reg(R8::E, old(cpu)@.reg(R8::D)),
{
    let v = cpu.registers.get(R8::D);
    cpu.registers.set(R8::E, v);
}

/// LD E, E.
pub fn load_e_e(cpu: &mut AccCpu)
    ensures
        final(cpu)@ == old(cpu)@.set_reg(R8::E, old(cpu)@.reg(R8::E)),
{
    let v = cpu.registers.get(R8::E);
    cpu.registers.set(R8::E, v);
}

/// LD E, H.
pub fn load_e_h(cpu: &mut AccCpu)
    ensures
        final(cpu)@ == old(cpu)@.set_reg(R8::E, old(cpu)@.reg(R8::H)),
{
    let v = cpu.registers.get(R8::H);
    cpu.registers.set(R8::E, v);
}

/// LD E, L.
pub fn load_e_l(cpu: &mut AccCpu)
    ensures
        final(cpu)@ == old(cpu)@.set_reg(R8::E, old(cpu)@.reg(R8::L)),
{
    let v = cpu.registers.get(R8::L);
    cpu.registers.set(R8::E, v);
}

/// E takes the first byte of the accumulator.
pub fn load_e_tmp(cpu: &mut AccCpu)
    ensures
        final(cpu)@ == old(cpu)@.set_reg(R8::E, u8_at(old(cpu)@.acc_value, 0)),
{
    let v = cpu.accumulator.get_u8_at(0);
    cpu.registers.set(R8::E, v);
}

/// LD (HL), E: stores E at the address in HL.
pub fn load_hl_e(cpu: &mut AccCpu)
    ensures
        final(cpu)@ == old(cpu)@.set_mem(old(cpu)@.pair(R16::HL), old(cpu)@.reg(R8::E)),
{
    let addr = cpu.registers.get(R16::HL);
    let v = cpu.registers.get(R8::E);
    cpu.bus[addr as usize] = v;
}

} // verus!
