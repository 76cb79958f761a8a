use vstd::prelude::*;

use crate::cpu2::accumulator::u8_at;
use crate::cpu2::defines::{AccCpu, R16, R8};
use crate::cpu2::implemenation::GetReg;

verus! {

/// LD D, A.
pub fn load_d_a(cpu: &mut AccCpu)
    ensures
        final(cpu)@ == old(cpu)@.set_reg(R8::D, old(cpu)@.reg(R8::A)),
{
    let v = cpu.registers.get(R8::A);
    cpu.registers.set(R8::D, v);
}

/// LD D, B.
pub fn load_d_b(cpu: &mut AccCpu)
    ensures
        final(cpu)@ == old(cpu)@.set_reg(R8::D, old(cpu)@.reg(R8::B)),
{
    let v = cpu.registers.get(R8::B);
    cpu.registers.set(R8::D, v);
}

/// LD D, C.
pub fn load_d_c(cpu: &mut AccCpu)
    ensures
        final(cpu)@ == old(cpu)@.set_reg(R8::D, old(cpu)@.reg(R8::C)),
{
    let v = cpu.registers.get(R8::C);
    cpu.registers.set(R8::D, v);
}

/// LD D, D.
pub fn load_d_d(cpu: &mut AccCpu)
    ensures
        final(cpu)@ == old(cpu)@.set_reg(R8::D, old(cpu)@.reg(R8::D)),
{
    let v = cpu.registers.get(R8::D);
    cpu.registers.set(R8::D, v);
}

/// LD D, E.
pub fn load_d_e(cpu: &mut AccCpu)
    ensures
        final(cpu)@ == old(cpu)@.set_reg(R8::D, old(cpu)@.reg(R8::E)),
{
    let v = cpu.registers.get(R8::E);
    cpu.registers.set(R8::D, v);
}

/// LD D, H.
pub fn load_d_h(cpu: &mut AccCpu)
    ensures
        final(cpu)@ == old(cpu)@.set_reg(R8::D, old(cpu)@.reg(R8::H)),
{
    let v = cpu.registers.get(R8::H);
    cpu.registers.set(R8::D, v);
}

/// LD D, L.
pub fn load_d_l(cpu: &mut AccCpu)
    ensures
        final(cpu)@ == old(cpu)@.set_reg(R8::D, old(cpu)@.reg(R8::L)),
{
    let v = cpu.registers.get(R8::L);
    cpu.registers.set(R8::D, v);
}

/// D takes the first byte of the accumulator.
pub fn load_d_tmp(cpu: &mut AccCpu)
    ensures
        final(cpu)@ == old(cpu)@.set_reg(R8::D, u8_at(old(cpu)@.acc_value, 0)),
{
    let v = cpu.accumulator.get_u8_at(0);
    cpu.registers.set(R8::D, v);
}

/// LD (HL), D: stores D at the address in HL.
pub fn load_hl_d(cpu: &mut AccCpu)
    ensures
        final(cpu)@ == old(cpu)@.set_mem(old(cpu)@.pair(R16::HL), old(cpu)@.reg(R8::D)),
{
    let addr = cpu.registers.get(R16::HL);
    let v = cpu.registers.get(R8::D);
    cpu.bus[addr as usize] = v;
}

} // verus!
