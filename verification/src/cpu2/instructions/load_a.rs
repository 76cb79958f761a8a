use vstd::prelude::*;

use crate::cpu2::accumulator::u8_at;
use crate::cpu2::defines::{AccCpu, R16, R8};
use crate::cpu2::implemenation::GetReg;

verus! {

/// LD A, A.
pub fn load_a_a(cpu: &mut AccCpu)
    ensures
        final(cpu)@ == old(cpu)@.set_reg(R8::A, old(cpu)@.reg(R8::A)),
{
    let v = cpu.registers.get(R8::A);
    cpu.registers.set(R8::A, v);
}

/// LD A, B.
pub fn load_a_b(cpu: &mut AccCpu)
    ensures
        final(cpu)@ == old(cpu)@.set_reg(R8::A, old(cpu)@.reg(R8::B)),
{
    let v = cpu.registers.get(R8::B);
    cpu.registers.set(R8::A, v);
}

/// LD A, C.
pub fn load_a_c(cpu: &mut AccCpu)
    ensures
        final(cpu)@ == old(cpu)@.set_reg(R8::A, old(cpu)@.reg(R8::C)),
{
    let v = cpu.registers.get(R8::C);
    cpu.registers.set(R8::A, v);
}

/// LD A, D.
pub fn load_a_d(cpu: &mut AccCpu)
    ensures
        final(cpu)@ == old(cpu)@.set_reg(R8::A, old(cpu)@.reg(R8::D)),
{
    let v = cpu.registers.get(R8::D);
    cpu.registers.set(R8::A, v);
}

/// LD A, E.
pub fn load_a_e(cpu: &mut AccCpu)
    ensures
        final(cpu)@ == old(cpu)@.set_reg(R8::A, old(cpu)@.reg(R8::E)),
{
    let v = cpu.registers.get(R8::E);
    cpu.registers.set(R8::A, v);
}

/// LD A, H.
pub fn load_a_h(cpu: &mut AccCpu)
    ensures
        final(cpu)@ == old(cpu)@.set_reg(R8::A, old(cpu)@.reg(R8::H)),
{
    let v = cpu.registers.get(R8::H);
    cpu.registers.set(R8::A, v);
}

/// LD A, L.
pub fn load_a_l(cpu: &mut AccCpu)
    ensures
        final(cpu)@ == old(cpu)@.set_reg(R8::A, old(cpu)@.reg(R8::L)),
{
    let v = cpu.registers.get(R8::L);
    cpu.registers.set(R8::A, v);
}

/// A takes the first byte of the accumulator.
pub fn load_a_accu(cpu: &mut AccCpu)
    ensures
        final(cpu)@ == old(cpu)@.set_reg(R8::A, u8_at(old(cpu)@.acc_value, 0)),
{
    let v = cpu.accumulator.get_u8_at(0);
    cpu.registers.set(R8::A, v);
}

/// LD (HL), A: stores A at the address in HL.
pub fn load_hl_a(cpu: &mut AccCpu)
    ensures
        final(cpu)@ == old(cpu)@.set_mem(old(cpu)@.pair(R16::HL), old(cpu)@.reg(R8::A)),
{
    let addr = cpu.registers.get(R16::HL);
    let v = cpu.registers.get(R8::A);
    cpu.bus[addr as usize] = v;
}

/// Stores A at the 16-bit address held in the accumulator.
pub fn load_a_in_mem(cpu: &mut AccCpu)
    requires
        old(cpu).accumulator.pos >= 2,
    ensures
        final(cpu)@ == old(cpu)@.set_mem(crate::cpu2::accumulator::u16_at(old(cpu)@.acc_value, 0), old(cpu)@.reg(R8::A)),
{
    let addr = cpu.accumulator.get_u16_at(0);
    let v = cpu.registers.get(R8::A);
    cpu.bus[addr as usize] = v;
}

} // verus!
