use vstd::prelude::*;

use crate::cpu2::accumulator::u8_at;
use crate::cpu2::defines::{AccCpu, R16, R8};
use crate::cpu2::implemenation::GetReg;

verus! {

/// LD C, A.
pub fn load_c_a(cpu: &mut AccCpu)
    ensures
        final(cpu)@ == old(cpu)@.set_reg(R8::C, old(cpu)@.reg(R8::A)),
{
    let v = cpu.registers.get(R8::A);
    cpu.registers.set(R8::C, v);
}

/// LD C, B.
pub fn load_c_b(cpu: &mut AccCpu)
    ensures
        final(cpu)@ == old(cpu)@.set_reg(R8::C, old(cpu)@.reg(R8::B)),
{
    let v = cpu.registers.get(R8::B);
    cpu.registers.set(R8::C, v);
}

/// LD C, C.
pub fn load_c_c(cpu: &mut AccCpu)
    ensures
        final(cpu)@ == old(cpu)@.set_reg(R8::C, old(cpu)@.reg(R8::C)),
{
    let v = cpu.registers.get(R8::C);
    cpu.registers.set(R8::C, v);
}

/// LD C, D.
pub fn load_c_d(cpu: &mut AccCpu)
    ensures
        final(cpu)@ == old(cpu)@.set_reg(R8::C, old(cpu)@.reg(R8::D)),
{
    let v = cpu.registers.get(R8::D);
    cpu.registers.set(R8::C, v);
}

/// LD C, E.
pub fn load_c_e(cpu: &mut AccCpu)
    ensures
        final(cpu)@ == old(cpu)@.set_reg(R8::C, old(cpu)@.reg(R8::E)),
{
    let v = cpu.registers.get(R8::E);
    cpu.registers.set(R8::C, v);
}

/// LD C, H.
pub fn load_c_h(cpu: &mut AccCpu)
    ensures
        final(cpu)@ == old(cpu)@.set_reg(R8::C, old(cpu)@.reg(R8::H)),
{
    let v = cpu.registers.get(R8::H);
    cpu.registers.set(R8::C, v);
}

/// LD C, L.
pub fn load_c_l(cpu: &mut AccCpu)
    ensures
        final(cpu)@ == old(cpu)@.set_reg(R8::C, old(cpu)@.reg(R8::L)),
{
    let v = cpu.registers.get(R8::L);
    cpu.registers.set(R8::C, v);
}

/// C takes the first byte of the accumulator.
pub fn load_c_tmp(cpu: &mut AccCpu)
    ensures
        final(cpu)@ == old(cpu)@.set_reg(R8::C, u8_at(old(cpu)@.acc_value, 0)),
{
    let v = cpu.accumulator.get_u8_at(0);
    cpu.registers.set(R8::C, v);
}

/// LD (HL), C: stores C at the address in HL.
pub fn load_hl_c(cpu: &mut AccCpu)
    ensures
        final(cpu)@ == old(cpu)@.set_mem(old(cpu)@.pair(R16::HL), old(cpu)@.reg(R8::C)),
{
    let addr = cpu.registers.get(R16::HL);
    let v = cpu.registers.get(R8::C);
    cpu.bus[addr as usize] = v;
}

} // verus!
