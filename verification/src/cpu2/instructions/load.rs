use vstd::prelude::*;

use crate::cpu2::defines::{r16, r8, add16, add8, sub16, word, Cpu, CpuState, Flag, with_znhc};
use crate::cpu2::flags::FlagsOps;
use crate::cpu2::implemenation::{Reg16, Reg8};
use crate::cpu2::instructions::add::{carry_add, carry_in, half_carry_add, sign_fill};
use crate::bits::{lemma_bit7, lemma_low_nibble};

verus! {

/// `dest = src`.
pub open spec fn after_load_r8_r8(s: CpuState, dest: int, src: int) -> CpuState {
    s.set_reg(dest, s.reg(src))
}

/// `dest = [addr]`.
pub open spec fn after_read_memory(s: CpuState, addr: int, dest: int) -> CpuState {
    s.set_reg(dest, s.mem(s.pair(addr)))
}

/// The high-page address `0xFF00 + lsb`.
pub open spec fn high_page(lsb: u8) -> u16 {
    word(0xFF, lsb)
}

/// `dest = [0xFF00 + lsb]`.
pub open spec fn after_read_memory_0xff(s: CpuState, lsb: int, dest: int) -> CpuState {
    s.set_reg(dest, s.mem(high_page(s.reg(lsb))))
}

/// `[0xFF00 + lsb] = value`.
pub open spec fn after_write_memory_0xff(s: CpuState, lsb: int, value: int) -> CpuState {
    s.set_mem(high_page(s.reg(lsb)), s.reg(value))
}

/// `[addr] = value`.
pub open spec fn after_write_memory(s: CpuState, addr: int, value: int) -> CpuState {
    s.set_mem(s.pair(addr), s.reg(value))
}

/// `dest = src` on pairs.
pub open spec fn after_load_r16_r16(s: CpuState, dest: int, src: int) -> CpuState {
    s.set_pair(dest, s.pair(src))
}

/// The pair `j` plus `delta`, modulo 65536.
pub open spec fn bump_pair(s: CpuState, j: int, delta: int) -> CpuState {
    s.set_pair(j, add16(s.pair(j) as int, delta))
}

/// `dest = [addr]`, then `addr -= 1`.
pub open spec fn after_read_memory_decr(s: CpuState, addr: int, dest: int) -> CpuState {
    bump_pair(after_read_memory(s, addr, dest), addr, -1)
}

/// `[addr] = value`, then `addr -= 1`.
pub open spec fn after_write_memory_decr(s: CpuState, addr: int, value: int) -> CpuState {
    bump_pair(after_write_memory(s, addr, value), addr, -1)
}

/// `dest = [addr]`, then `addr += 1`.
pub open spec fn after_read_memory_incr(s: CpuState, addr: int, dest: int) -> CpuState {
    bump_pair(after_read_memory(s, addr, dest), addr, 1)
}

/// `[addr] = value`, then `addr += 1`.
pub open spec fn after_write_memory_incr(s: CpuState, addr: int, value: int) -> CpuState {
    bump_pair(after_write_memory(s, addr, value), addr, 1)
}

/// `L = P + Z`; Z and N cleared, H and C from the addition.
pub open spec fn after_ld_hl_sp_e_low(s: CpuState) -> CpuState {
    let p = s.reg(r8::P as int);
    let e = s.reg(r8::Z as int);
    s.set_reg(r8::L as int, add8(p as int, e as int)).set_flags(
        with_znhc(s.flags, false, false, half_carry_add(p, e), carry_add(p, e)),
    )
}

/// `H = S + sign fill of Z + carry`; flags kept.
pub open spec fn after_ld_hl_sp_e_high(s: CpuState) -> CpuState {
    let sp_high = s.reg(r8::S as int);
    let e = s.reg(r8::Z as int);
    s.set_reg(r8::H as int, add8(sp_high + sign_fill(e), carry_in(s)))
}

/// `[addr] = value`, then `PC = WZ`.
pub open spec fn after_write_memory_reassign_pc(s: CpuState, addr: int, value: int) -> CpuState {
    let s1 = after_write_memory(s, addr, value);
    s1.set_pair(r16::PC as int, s1.pair(r16::WZ as int))
}

/// `[addr] = value`, then `SP = b`.
pub open spec fn after_write_memory_rst(s: CpuState, b: u16, addr: int, value: int) -> CpuState {
    after_write_memory(s, addr, value).set_pair(r16::SP as int, b)
}

pub fn load_r8_r8_at(cpu: &mut Cpu, dest_i: usize, src_i: usize)
    requires
        dest_i < 14,
        src_i < 14,
    ensures
        final(cpu)@ == after_load_r8_r8(old(cpu)@, dest_i as int, src_i as int),
{
    let v = cpu.reg(src_i);
    cpu.set_reg(dest_i, v);
}

pub fn read_memory_at(cpu: &mut Cpu, addr_i: usize, dest_i: usize)
    requires
        addr_i < 7,
        dest_i < 14,
    ensures
        final(cpu)@ == after_read_memory(old(cpu)@, addr_i as int, dest_i as int),
{
    let a = cpu.pair(addr_i);
    let v = cpu.mem(a);
    cpu.set_reg(dest_i, v);
}

/// `0xFF << 8 | lsb` is the high-page address.
pub proof fn lemma_high_page(lsb: u8)
    ensures
        (0xFFu16 << 8u16) | lsb as u16 == high_page(lsb),
{
    crate::bits::lemma_byte_fields(lsb);
}

pub fn read_memory_0xff_at(cpu: &mut Cpu, lsb_i: usize, dest_i: usize)
    requires
        lsb_i < 14,
        dest_i < 14,
    ensures
        final(cpu)@ == after_read_memory_0xff(old(cpu)@, lsb_i as int, dest_i as int),
{
    let lsb = cpu.reg(lsb_i);
    proof {
        lemma_high_page(lsb);
    }
    let addr: u16 = 0xFFu16 << 8u16 | lsb as u16;
    let v = cpu.mem(addr);
    cpu.set_reg(dest_i, v);
}

pub fn write_memory_0xff_at(cpu: &mut Cpu, lsb_i: usize, value_i: usize)
    requires
        lsb_i < 14,
        value_i < 14,
    ensures
        final(cpu)@ == after_write_memory_0xff(old(cpu)@, lsb_i as int, value_i as int),
{
    let lsb = cpu.reg(lsb_i);
    proof {
        lemma_high_page(lsb);
    }
    let addr: u16 = 0xFFu16 << 8u16 | lsb as u16;
    let v = cpu.reg(value_i);
    cpu.set_mem(addr, v);
}

pub fn write_memory_at(cpu: &mut Cpu, addr_i: usize, value_i: usize)
    requires
        addr_i < 7,
        value_i < 14,
    ensures
        final(cpu)@ == after_write_memory(old(cpu)@, addr_i as int, value_i as int),
{
    let a = cpu.pair(addr_i);
    let v = cpu.reg(value_i);
    cpu.set_mem(a, v);
}

pub fn load_r16_r16_at(cpu: &mut Cpu, dest_i: usize, src_i: usize)
    requires
        dest_i < 7,
        src_i < 7,
    ensures
        final(cpu)@ == after_load_r16_r16(old(cpu)@, dest_i as int, src_i as int),
{
    let v = cpu.pair(src_i);
    cpu.set_pair(dest_i, v);
}

/// Adds one (`up`) or takes one away from pair `j`, modulo 65536.
pub fn step_pair(cpu: &mut Cpu, j: usize, up: bool)
    requires
        j < 7,
    ensures
        final(cpu)@ == bump_pair(old(cpu)@, j as int, if up { 1 } else { -1 }),
{
    let v = cpu.pair(j);
    let nv = if up { v.wrapping_add(1) } else { v.wrapping_sub(1) };
    assert(nv == crate::cpu2::defines::add16(v as int, if up { 1 } else { -1 }));
    cpu.set_pair(j, nv);
}

pub fn read_memory_decr_at(cpu: &mut Cpu, addr_i: usize, dest_i: usize)
    requires
        addr_i < 7,
        dest_i < 14,
    ensures
        final(cpu)@ == after_read_memory_decr(old(cpu)@, addr_i as int, dest_i as int),
{
    read_memory_at(cpu, addr_i, dest_i);
    step_pair(cpu, addr_i, false);
}

pub fn write_memory_decr_at(cpu: &mut Cpu, addr_i: usize, value_i: usize)
    requires
        addr_i < 7,
        value_i < 14,
    ensures
        final(cpu)@ == after_write_memory_decr(old(cpu)@, addr_i as int, value_i as int),
{
    write_memory_at(cpu, addr_i, value_i);
    step_pair(cpu, addr_i, false);
}

pub fn read_memory_incr_at(cpu: &mut Cpu, addr_i: usize, dest_i: usize)
    requires
        addr_i < 7,
        dest_i < 14,
    ensures
        final(cpu)@ == after_read_memory_incr(old(cpu)@, addr_i as int, dest_i as int),
{
    read_memory_at(cpu, addr_i, dest_i);
    step_pair(cpu, addr_i, true);
}

pub fn write_memory_incr_at(cpu: &mut Cpu, addr_i: usize, value_i: usize)
    requires
        addr_i < 7,
        value_i < 14,
    ensures
        final(cpu)@ == after_write_memory_incr(old(cpu)@, addr_i as int, value_i as int),
{
    write_memory_at(cpu, addr_i, value_i);
    step_pair(cpu, addr_i, true);
}

pub fn write_memory_reassign_pc_at(cpu: &mut Cpu, addr_i: usize, value_i: usize)
    requires
        addr_i < 7,
        value_i < 14,
    ensures
        final(cpu)@ == after_write_memory_reassign_pc(old(cpu)@, addr_i as int, value_i as int),
{
    write_memory_at(cpu, addr_i, value_i);
    let wz = cpu.pair(r16::WZ);
    cpu.set_pair(r16::PC, wz);
}

pub fn write_memory_rst_at(cpu: &mut Cpu, b: u16, addr_i: usize, value_i: usize)
    requires
        addr_i < 7,
        value_i < 14,
    ensures
        final(cpu)@ == after_write_memory_rst(old(cpu)@, b, addr_i as int, value_i as int),
{
    write_memory_at(cpu, addr_i, value_i);
    cpu.set_pair(r16::SP, b);
}

/// LD r, r: `Dest = Src`.
pub fn load_r8_r8<Dest: Reg8, Src: Reg8>(cpu: &mut Cpu)
    ensures
        final(cpu)@ == after_load_r8_r8(old(cpu)@, Dest::USIZE as int, Src::USIZE as int),
{
    proof {
        Dest::lemma_index_in_range();
        Src::lemma_index_in_range();
    }
    load_r8_r8_at(cpu, Dest::USIZE, Src::USIZE)
}

/// `Dest = [Addr]`.
pub fn read_memory<Addr: Reg16, Dest: Reg8>(cpu: &mut Cpu)
    ensures
        final(cpu)@ == after_read_memory(old(cpu)@, Addr::USIZE as int, Dest::USIZE as int),
{
    proof {
        Addr::lemma_index_in_range();
        Dest::lemma_index_in_range();
    }
    read_memory_at(cpu, Addr::USIZE, Dest::USIZE)
}

/// `Dest = [0xFF00 + Lsb]`.
pub fn read_memory_0xff<Lsb: Reg8, Dest: Reg8>(cpu: &mut Cpu)
    ensures
        final(cpu)@ == after_read_memory_0xff(old(cpu)@, Lsb::USIZE as int, Dest::USIZE as int),
{
    proof {
        Lsb::lemma_index_in_range();
        Dest::lemma_index_in_range();
    }
    read_memory_0xff_at(cpu, Lsb::USIZE, Dest::USIZE)
}

/// `[0xFF00 + Lsb] = Value`.
pub fn write_memory_0xff<Lsb: Reg8, Value: Reg8>(cpu: &mut Cpu)
    ensures
        final(cpu)@ == after_write_memory_0xff(old(cpu)@, Lsb::USIZE as int, Value::USIZE as int),
{
    proof {
        Lsb::lemma_index_in_range();
        Value::lemma_index_in_range();
    }
    write_memory_0xff_at(cpu, Lsb::USIZE, Value::USIZE)
}

/// `[Addr] = Value`.
pub fn write_memory<Addr: Reg16, Value: Reg8>(cpu: &mut Cpu)
    ensures
        final(cpu)@ == after_write_memory(old(cpu)@, Addr::USIZE as int, Value::USIZE as int),
{
    proof {
        Addr::lemma_index_in_range();
        Value::lemma_index_in_range();
    }
    write_memory_at(cpu, Addr::USIZE, Value::USIZE)
}

/// `Dest = Src` on pairs.
pub fn load_r16_r16<Dest: Reg16, Src: Reg16>(cpu: &mut Cpu)
    ensures
        final(cpu)@ == after_load_r16_r16(old(cpu)@, Dest::USIZE as int, Src::USIZE as int),
{
    proof {
        Dest::lemma_index_in_range();
        Src::lemma_index_in_range();
    }
    load_r16_r16_at(cpu, Dest::USIZE, Src::USIZE)
}

/// `Dest = [Addr]`, then `Addr -= 1`.
pub fn read_memory_decr<Addr: Reg16, Dest: Reg8>(cpu: &mut Cpu)
    ensures
        final(cpu)@ == after_read_memory_decr(old(cpu)@, Addr::USIZE as int, Dest::USIZE as int),
{
    proof {
        Addr::lemma_index_in_range();
        Dest::lemma_index_in_range();
    }
    read_memory_decr_at(cpu, Addr::USIZE, Dest::USIZE)
}

/// `[Addr] = Dest`, then `Addr -= 1`.
pub fn write_memory_decr<Addr: Reg16, Dest: Reg8>(cpu: &mut Cpu)
    ensures
        final(cpu)@ == after_write_memory_decr(old(cpu)@, Addr::USIZE as int, Dest::USIZE as int),
{
    proof {
        Addr::lemma_index_in_range();
        Dest::lemma_index_in_range();
    }
    write_memory_decr_at(cpu, Addr::USIZE, Dest::USIZE)
}

/// `Dest = [Addr]`, then `Addr += 1`.
pub fn read_memory_incr<Addr: Reg16, Dest: Reg8>(cpu: &mut Cpu)
    ensures
        final(cpu)@ == after_read_memory_incr(old(cpu)@, Addr::USIZE as int, Dest::USIZE as int),
{
    proof {
        Addr::lemma_index_in_range();
        Dest::lemma_index_in_range();
    }
    read_memory_incr_at(cpu, Addr::USIZE, Dest::USIZE)
}

/// `[Addr] = Dest`, then `Addr += 1`.
pub fn write_memory_incr<Addr: Reg16, Dest: Reg8>(cpu: &mut Cpu)
    ensures
        final(cpu)@ == after_write_memory_incr(old(cpu)@, Addr::USIZE as int, Dest::USIZE as int),
{
    proof {
        Addr::lemma_index_in_range();
        Dest::lemma_index_in_range();
    }
    write_memory_incr_at(cpu, Addr::USIZE, Dest::USIZE)
}

/// Low byte of `SP + e`, into L.
pub fn ld_hl_sp_e_low(cpu: &mut Cpu)
    ensures
        final(cpu)@ == after_ld_hl_sp_e_low(old(cpu)@),
{
    let sp_low = cpu.reg(r8::P);
    let e = cpu.reg(r8::Z);
    let result = sp_low.wrapping_add(e);
    cpu.set_reg(r8::L, result);
    proof {
        lemma_low_nibble(sp_low);
        lemma_low_nibble(e);
    }
    let h = (sp_low & 0x0F) + (e & 0x0F) > 0x0F;
    let c = (sp_low as u16) + (e as u16) > 0xFF;
    cpu.flags.set_flag(Flag::Zero, false);
    cpu.flags.set_flag(Flag::Subtract, false);
    cpu.flags.set_flag(Flag::HalfCarry, h);
    cpu.flags.set_flag(Flag::Carry, c);
}

/// High byte of `SP + e`, into H.
pub fn ld_hl_sp_e_high(cpu: &mut Cpu)
    ensures
        final(cpu)@ == after_ld_hl_sp_e_high(old(cpu)@),
{
    let sp_high = cpu.reg(r8::S);
    let e = cpu.reg(r8::Z);
    proof {
        lemma_bit7(e);
    }
    let adj: u8 = if e & 0x80 != 0 { 0xFF } else { 0x00 };
    let carry: u8 = if cpu.flags.get_flag(Flag::Carry) { 1 } else { 0 };
    cpu.set_reg(r8::H, sp_high.wrapping_add(adj).wrapping_add(carry));
}

/// `[Addr] = Value`, then the program counter takes WZ.
pub fn write_memory_reassign_pc<Addr: Reg16, Value: Reg8>(cpu: &mut Cpu)
    ensures
        final(cpu)@ == after_write_memory_reassign_pc(old(cpu)@, Addr::USIZE as int, Value::USIZE as int),
{
    proof {
        Addr::lemma_index_in_range();
        Value::lemma_index_in_range();
    }
    write_memory_reassign_pc_at(cpu, Addr::USIZE, Value::USIZE)
}

/// `[Addr] = Dest`, then SP takes the restart vector `B`.
pub fn write_memory_rst<const B: u16, Addr: Reg16, Dest: Reg8>(cpu: &mut Cpu)
    ensures
        final(cpu)@ == after_write_memory_rst(old(cpu)@, B, Addr::USIZE as int, Dest::USIZE as int),
{
    proof {
        Addr::lemma_index_in_range();
        Dest::lemma_index_in_range();
    }
    write_memory_rst_at(cpu, B, Addr::USIZE, Dest::USIZE)
}

} // verus!
