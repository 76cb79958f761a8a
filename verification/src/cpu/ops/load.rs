use vstd::prelude::*;

use crate::cpu2::defines::{r16, r8, add16, add8, lo_byte, sub16, word, Flag, with_znhc};
use crate::cpu::defines::{micro, Cpu, MicroState};
use crate::mmu::Mmu;
use crate::cpu2::flags::FlagsOps;
use crate::cpu2::implemenation::{Reg16, Reg8};
use crate::cpu::ops::add::carry_in;
use crate::cpu2::instructions::add::{carry_add, half_carry_add, sign_fill};
use crate::bits::{lemma_bit7, lemma_low_nibble};

use crate::cpu2::instructions::load::{high_page, lemma_high_page};

verus! {

/// `dest = src`.
pub open spec fn after_load_r8_r8(s: MicroState, dest: int, src: int) -> MicroState {
    s.set_reg(dest, s.reg(src))
}

/// `dest = [addr]`.
pub open spec fn after_read_memory(s: MicroState, addr: int, dest: int) -> MicroState {
    s.set_reg(dest, s.mem(s.pair(addr)))
}

/// `dest = [0xFF00 + lsb]`.
pub open spec fn after_read_memory_0xff(s: MicroState, lsb: int, dest: int) -> MicroState {
    s.set_reg(dest, s.mem(high_page(s.reg(lsb))))
}

/// `[0xFF00 + lsb] = value`.
pub open spec fn after_write_memory_0xff(s: MicroState, lsb: int, value: int) -> MicroState {
    s.set_mem(high_page(s.reg(lsb)), s.reg(value))
}

/// `[addr] = value`.
pub open spec fn after_write_memory(s: MicroState, addr: int, value: int) -> MicroState {
    s.set_mem(s.pair(addr), s.stored_byte(value))
}

/// `dest = src` on pairs.
pub open spec fn after_load_r16_r16(s: MicroState, dest: int, src: int) -> MicroState {
    s.set_pair(dest, s.pair(src))
}

/// `dest = src` on pairs, then IME raised (RETI).
pub open spec fn after_load_r16_r16_and_ime(s: MicroState, dest: int, src: int) -> MicroState {
    MicroState { ime: true, ..after_load_r16_r16(s, dest, src) }
}

/// The value POP AF keeps: the four low bits of F always read as zero.
pub open spec fn af_value(v: u16) -> u16 {
    ((v as int / 16) * 16) as u16
}

/// `dest = src` with the low nibble cleared, and the flags taken from the upper
/// nibble of its low byte (POP AF).
pub open spec fn after_load_r16_r16_af_flags(s: MicroState, dest: int, src: int) -> MicroState {
    let v = af_value(s.pair(src));
    let f = lo_byte(v);
    s.set_pair(dest, v).set_flags(with_znhc(s.flags, f & 0x80 != 0, f & 0x40 != 0, f & 0x20 != 0, f & 0x10 != 0))
}

/// The pair `j` plus `delta`, modulo 65536.
pub open spec fn bump_pair(s: MicroState, j: int, delta: int) -> MicroState {
    s.set_pair(j, add16(s.pair(j) as int, delta))
}

/// `dest = [addr]`, then `addr -= 1`.
pub open spec fn after_read_memory_decr(s: MicroState, addr: int, dest: int) -> MicroState {
    bump_pair(after_read_memory(s, addr, dest), addr, -1)
}

/// `[addr] = value`, then `addr -= 1`.
pub open spec fn after_write_memory_decr(s: MicroState, addr: int, value: int) -> MicroState {
    bump_pair(after_write_memory(s, addr, value), addr, -1)
}

/// `dest = [addr]`, then `addr += 1`.
pub open spec fn after_read_memory_incr(s: MicroState, addr: int, dest: int) -> MicroState {
    bump_pair(after_read_memory(s, addr, dest), addr, 1)
}

/// `[addr] = value`, then `addr += 1`.
pub open spec fn after_write_memory_incr(s: MicroState, addr: int, value: int) -> MicroState {
    bump_pair(after_write_memory(s, addr, value), addr, 1)
}

/// `L = P + Z`; Z and N cleared, H and C from the addition.
pub open spec fn after_ld_hl_sp_e_low(s: MicroState) -> MicroState {
    let p = s.reg(r8::P as int);
    let e = s.reg(r8::Z as int);
    s.set_reg(r8::L as int, add8(p as int, e as int)).set_flags(
        with_znhc(s.flags, false, false, half_carry_add(p, e), carry_add(p, e)),
    )
}

/// `H = S + sign fill of Z + carry`; flags kept.
pub open spec fn after_ld_hl_sp_e_high(s: MicroState) -> MicroState {
    let sp_high = s.reg(r8::S as int);
    let e = s.reg(r8::Z as int);
    s.set_reg(r8::H as int, add8(sp_high + sign_fill(e), carry_in(s)))
}

/// `[addr] = value`, then `PC = WZ`.
pub open spec fn after_write_memory_reassign_pc(s: MicroState, addr: int, value: int) -> MicroState {
    let s1 = after_write_memory(s, addr, value);
    s1.set_pair(r16::PC as int, s1.pair(r16::WZ as int))
}

/// `[addr] = value`, then `PC = b`, the restart vector.
pub open spec fn after_write_memory_rst(s: MicroState, b: u16, addr: int, value: int) -> MicroState {
    after_write_memory(s, addr, value).set_pair(r16::PC as int, b)
}

pub fn load_r8_r8_at(cpu: &mut Cpu, bus: &mut Mmu, dest_i: usize, src_i: usize)
    requires
        dest_i < 14,
        src_i < 14,
    ensures
        micro(*final(cpu), *final(bus)) == after_load_r8_r8(micro(*old(cpu), *old(bus)), dest_i as int, src_i as int),
{
    let v = cpu.reg(src_i);
    cpu.set_reg(dest_i, v);
}

pub fn read_memory_at(cpu: &mut Cpu, bus: &mut Mmu, addr_i: usize, dest_i: usize)
    requires
        addr_i < 7,
        dest_i < 14,
    ensures
        micro(*final(cpu), *final(bus)) == after_read_memory(micro(*old(cpu), *old(bus)), addr_i as int, dest_i as int),
{
    let a = cpu.pair(addr_i);
    let v = bus.read_byte(a);
    cpu.set_reg(dest_i, v);
}

pub fn read_memory_0xff_at(cpu: &mut Cpu, bus: &mut Mmu, lsb_i: usize, dest_i: usize)
    requires
        lsb_i < 14,
        dest_i < 14,
    ensures
        micro(*final(cpu), *final(bus)) == after_read_memory_0xff(micro(*old(cpu), *old(bus)), lsb_i as int, dest_i as int),
{
    let lsb = cpu.reg(lsb_i);
    proof {
        lemma_high_page(lsb);
    }
    let addr: u16 = 0xFFu16 << 8u16 | lsb as u16;
    let v = bus.read_byte(addr);
    cpu.set_reg(dest_i, v);
}

pub fn write_memory_0xff_at(cpu: &mut Cpu, bus: &mut Mmu, lsb_i: usize, value_i: usize)
    requires
        lsb_i < 14,
        value_i < 14,
    ensures
        micro(*final(cpu), *final(bus)) == after_write_memory_0xff(micro(*old(cpu), *old(bus)), lsb_i as int, value_i as int),
{
    let lsb = cpu.reg(lsb_i);
    proof {
        lemma_high_page(lsb);
    }
    let addr: u16 = 0xFFu16 << 8u16 | lsb as u16;
    let v = cpu.reg(value_i);
    bus.write_byte(addr, v);
}

pub fn write_memory_at(cpu: &mut Cpu, bus: &mut Mmu, addr_i: usize, value_i: usize)
    requires
        addr_i < 7,
        value_i < 14,
    ensures
        micro(*final(cpu), *final(bus)) == after_write_memory(micro(*old(cpu), *old(bus)), addr_i as int, value_i as int),
{
    let a = cpu.pair(addr_i);
    let v = if value_i == r8::F { cpu.flags } else { cpu.reg(value_i) };
    bus.write_byte(a, v);
}

pub fn load_r16_r16_at(cpu: &mut Cpu, bus: &mut Mmu, dest_i: usize, src_i: usize)
    requires
        dest_i < 7,
        src_i < 7,
    ensures
        micro(*final(cpu), *final(bus)) == after_load_r16_r16(micro(*old(cpu), *old(bus)), dest_i as int, src_i as int),
{
    let v = cpu.pair(src_i);
    cpu.set_pair(dest_i, v);
}

/// Adds one (`up`) or takes one away from pair `j`, modulo 65536.
pub fn step_pair(cpu: &mut Cpu, bus: &mut Mmu, j: usize, up: bool)
    requires
        j < 7,
    ensures
        micro(*final(cpu), *final(bus)) == bump_pair(micro(*old(cpu), *old(bus)), j as int, if up { 1 } else { -1 }),
{
    let v = cpu.pair(j);
    if up {
        cpu.set_pair(j, v.wrapping_add(1));
    } else {
        cpu.set_pair(j, v.wrapping_sub(1));
    }
}

pub fn read_memory_decr_at(cpu: &mut Cpu, bus: &mut Mmu, addr_i: usize, dest_i: usize)
    requires
        addr_i < 7,
        dest_i < 14,
    ensures
        micro(*final(cpu), *final(bus)) == after_read_memory_decr(micro(*old(cpu), *old(bus)), addr_i as int, dest_i as int),
{
    read_memory_at(cpu, bus, addr_i, dest_i);
    step_pair(cpu, bus, addr_i, false);
}

pub fn write_memory_decr_at(cpu: &mut Cpu, bus: &mut Mmu, addr_i: usize, value_i: usize)
    requires
        addr_i < 7,
        value_i < 14,
    ensures
        micro(*final(cpu), *final(bus)) == after_write_memory_decr(micro(*old(cpu), *old(bus)), addr_i as int, value_i as int),
{
    write_memory_at(cpu, bus, addr_i, value_i);
    step_pair(cpu, bus, addr_i, false);
}

pub fn read_memory_incr_at(cpu: &mut Cpu, bus: &mut Mmu, addr_i: usize, dest_i: usize)
    requires
        addr_i < 7,
        dest_i < 14,
    ensures
        micro(*final(cpu), *final(bus)) == after_read_memory_incr(micro(*old(cpu), *old(bus)), addr_i as int, dest_i as int),
{
    read_memory_at(cpu, bus, addr_i, dest_i);
    step_pair(cpu, bus, addr_i, true);
}

pub fn write_memory_incr_at(cpu: &mut Cpu, bus: &mut Mmu, addr_i: usize, value_i: usize)
    requires
        addr_i < 7,
        value_i < 14,
    ensures
        micro(*final(cpu), *final(bus)) == after_write_memory_incr(micro(*old(cpu), *old(bus)), addr_i as int, value_i as int),
{
    write_memory_at(cpu, bus, addr_i, value_i);
    step_pair(cpu, bus, addr_i, true);
}

pub fn write_memory_reassign_pc_at(cpu: &mut Cpu, bus: &mut Mmu, addr_i: usize, value_i: usize)
    requires
        addr_i < 7,
        value_i < 14,
    ensures
        micro(*final(cpu), *final(bus)) == after_write_memory_reassign_pc(micro(*old(cpu), *old(bus)), addr_i as int, value_i as int),
{
    write_memory_at(cpu, bus, addr_i, value_i);
    let wz = cpu.pair(r16::WZ);
    cpu.set_pair(r16::PC, wz);
}

pub fn write_memory_rst_at(cpu: &mut Cpu, bus: &mut Mmu, b: u16, addr_i: usize, value_i: usize)
    requires
        addr_i < 7,
        value_i < 14,
    ensures
        micro(*final(cpu), *final(bus)) == after_write_memory_rst(micro(*old(cpu), *old(bus)), b, addr_i as int, value_i as int),
{
    write_memory_at(cpu, bus, addr_i, value_i);
    cpu.set_pair(r16::PC, b);
}

/// `load_r16_r16_and_ime` on pairs given at run time.
pub fn load_r16_r16_and_ime_at(cpu: &mut Cpu, bus: &mut Mmu, dest_i: usize, src_i: usize)
    requires
        dest_i < 7,
        src_i < 7,
    ensures
        micro(*final(cpu), *final(bus)) == after_load_r16_r16_and_ime(micro(*old(cpu), *old(bus)), dest_i as int, src_i as int),
{
    load_r16_r16_at(cpu, bus, dest_i, src_i);
    cpu.ime = true;
}

/// `load_r16_r16_af_flags` on pairs given at run time.
pub fn load_r16_r16_af_flags_at(cpu: &mut Cpu, bus: &mut Mmu, dest_i: usize, src_i: usize)
    requires
        dest_i < 7,
        src_i < 7,
    ensures
        micro(*final(cpu), *final(bus)) == after_load_r16_r16_af_flags(micro(*old(cpu), *old(bus)), dest_i as int, src_i as int),
{
    let mut val = cpu.pair(src_i);
    proof {
        crate::bits::lemma_word_parts(val);
    }
    val = val & 0xFFF0;
    cpu.set_pair(dest_i, val);
    let f_byte = (val & 0xFF) as u8;
    proof {
        crate::bits::lemma_word_parts(val);
    }
    cpu.flags.set_flag(Flag::Zero, (f_byte & 0x80) != 0);
    cpu.flags.set_flag(Flag::Subtract, (f_byte & 0x40) != 0);
    cpu.flags.set_flag(Flag::HalfCarry, (f_byte & 0x20) != 0);
    cpu.flags.set_flag(Flag::Carry, (f_byte & 0x10) != 0);
}

impl Cpu {
    /// RETI's last cycle: `Dest = Src` and interrupts enabled.
    pub fn load_r16_r16_and_ime<Dest: Reg16, Src: Reg16>(&mut self, bus: &mut Mmu)
        ensures
            micro(*final(self), *final(bus)) == after_load_r16_r16_and_ime(micro(*old(self), *old(bus)), Dest::USIZE as int, Src::USIZE as int),
    {
        proof {
            Dest::lemma_index_in_range();
            Src::lemma_index_in_range();
        }
        load_r16_r16_and_ime_at(self, bus, Dest::USIZE, Src::USIZE)
    }

    /// POP AF's last cycle: `Dest = Src & 0xFFF0`, flags from the new F.
    pub fn load_r16_r16_af_flags<Dest: Reg16, Src: Reg16>(&mut self, bus: &mut Mmu)
        ensures
            micro(*final(self), *final(bus)) == after_load_r16_r16_af_flags(micro(*old(self), *old(bus)), Dest::USIZE as int, Src::USIZE as int),
    {
        proof {
            Dest::lemma_index_in_range();
            Src::lemma_index_in_range();
        }
        load_r16_r16_af_flags_at(self, bus, Dest::USIZE, Src::USIZE)
    }

    /// LD r, r: `Dest = Src`.
    pub fn load_r8_r8<Dest: Reg8, Src: Reg8>(&mut self, bus: &mut Mmu)
        ensures
            micro(*final(self), *final(bus)) == after_load_r8_r8(micro(*old(self), *old(bus)), Dest::USIZE as int, Src::USIZE as int),
    {
        proof {
            Dest::lemma_index_in_range();
            Src::lemma_index_in_range();
        }
        load_r8_r8_at(self, bus, Dest::USIZE, Src::USIZE)
    }

    /// `Dest = [Addr]`.
    pub fn read_memory<Addr: Reg16, Dest: Reg8>(&mut self, bus: &mut Mmu)
        ensures
            micro(*final(self), *final(bus)) == after_read_memory(micro(*old(self), *old(bus)), Addr::USIZE as int, Dest::USIZE as int),
    {
        proof {
            Addr::lemma_index_in_range();
            Dest::lemma_index_in_range();
        }
        read_memory_at(self, bus, Addr::USIZE, Dest::USIZE)
    }

    /// `Dest = [0xFF00 + Lsb]`.
    pub fn read_memory_0xff<Lsb: Reg8, Dest: Reg8>(&mut self, bus: &mut Mmu)
        ensures
            micro(*final(self), *final(bus)) == after_read_memory_0xff(micro(*old(self), *old(bus)), Lsb::USIZE as int, Dest::USIZE as int),
    {
        proof {
            Lsb::lemma_index_in_range();
            Dest::lemma_index_in_range();
        }
        read_memory_0xff_at(self, bus, Lsb::USIZE, Dest::USIZE)
    }

    /// `[0xFF00 + Lsb] = Value`.
    pub fn write_memory_0xff<Lsb: Reg8, Value: Reg8>(&mut self, bus: &mut Mmu)
        ensures
            micro(*final(self), *final(bus)) == after_write_memory_0xff(micro(*old(self), *old(bus)), Lsb::USIZE as int, Value::USIZE as int),
    {
        proof {
            Lsb::lemma_index_in_range();
            Value::lemma_index_in_range();
        }
        write_memory_0xff_at(self, bus, Lsb::USIZE, Value::USIZE)
    }

    /// `[Addr] = Value`.
    pub fn write_memory<Addr: Reg16, Value: Reg8>(&mut self, bus: &mut Mmu)
        ensures
            micro(*final(self), *final(bus)) == after_write_memory(micro(*old(self), *old(bus)), Addr::USIZE as int, Value::USIZE as int),
    {
        proof {
            Addr::lemma_index_in_range();
            Value::lemma_index_in_range();
        }
        write_memory_at(self, bus, Addr::USIZE, Value::USIZE)
    }

    /// `Dest = Src` on pairs.
    pub fn load_r16_r16<Dest: Reg16, Src: Reg16>(&mut self, bus: &mut Mmu)
        ensures
            micro(*final(self), *final(bus)) == after_load_r16_r16(micro(*old(self), *old(bus)), Dest::USIZE as int, Src::USIZE as int),
    {
        proof {
            Dest::lemma_index_in_range();
            Src::lemma_index_in_range();
        }
        load_r16_r16_at(self, bus, Dest::USIZE, Src::USIZE)
    }

    /// `Dest = [Addr]`, then `Addr -= 1`.
    pub fn read_memory_decr<Addr: Reg16, Dest: Reg8>(&mut self, bus: &mut Mmu)
        ensures
            micro(*final(self), *final(bus)) == after_read_memory_decr(micro(*old(self), *old(bus)), Addr::USIZE as int, Dest::USIZE as int),
    {
        proof {
            Addr::lemma_index_in_range();
            Dest::lemma_index_in_range();
        }
        read_memory_decr_at(self, bus, Addr::USIZE, Dest::USIZE)
    }

    /// `[Addr] = Dest`, then `Addr -= 1`.
    pub fn write_memory_decr<Addr: Reg16, Dest: Reg8>(&mut self, bus: &mut Mmu)
        ensures
            micro(*final(self), *final(bus)) == after_write_memory_decr(micro(*old(self), *old(bus)), Addr::USIZE as int, Dest::USIZE as int),
    {
        proof {
            Addr::lemma_index_in_range();
            Dest::lemma_index_in_range();
        }
        write_memory_decr_at(self, bus, Addr::USIZE, Dest::USIZE)
    }

    /// `Dest = [Addr]`, then `Addr += 1`.
    pub fn read_memory_incr<Addr: Reg16, Dest: Reg8>(&mut self, bus: &mut Mmu)
        ensures
            micro(*final(self), *final(bus)) == after_read_memory_incr(micro(*old(self), *old(bus)), Addr::USIZE as int, Dest::USIZE as int),
    {
        proof {
            Addr::lemma_index_in_range();
            Dest::lemma_index_in_range();
        }
        read_memory_incr_at(self, bus, Addr::USIZE, Dest::USIZE)
    }

    /// `[Addr] = Dest`, then `Addr += 1`.
    pub fn write_memory_incr<Addr: Reg16, Dest: Reg8>(&mut self, bus: &mut Mmu)
        ensures
            micro(*final(self), *final(bus)) == after_write_memory_incr(micro(*old(self), *old(bus)), Addr::USIZE as int, Dest::USIZE as int),
    {
        proof {
            Addr::lemma_index_in_range();
            Dest::lemma_index_in_range();
        }
        write_memory_incr_at(self, bus, Addr::USIZE, Dest::USIZE)
    }

    /// Low byte of `SP + e`, into L.
    pub fn ld_hl_sp_e_low(&mut self, bus: &mut Mmu)
        ensures
            micro(*final(self), *final(bus)) == after_ld_hl_sp_e_low(micro(*old(self), *old(bus))),
    {
        let sp_low = self.reg(r8::P);
        let e = self.reg(r8::Z);
        let result = sp_low.wrapping_add(e);
        self.set_reg(r8::L, result);
        proof {
            lemma_low_nibble(sp_low);
            lemma_low_nibble(e);
        }
        let h = (sp_low & 0x0F) + (e & 0x0F) > 0x0F;
        let c = (sp_low as u16) + (e as u16) > 0xFF;
        self.flags.set_flag(Flag::Zero, false);
        self.flags.set_flag(Flag::Subtract, false);
        self.flags.set_flag(Flag::HalfCarry, h);
        self.flags.set_flag(Flag::Carry, c);
    }

    /// High byte of `SP + e`, into H.
    pub fn ld_hl_sp_e_high(&mut self, bus: &mut Mmu)
        ensures
            micro(*final(self), *final(bus)) == after_ld_hl_sp_e_high(micro(*old(self), *old(bus))),
    {
        let sp_high = self.reg(r8::S);
        let e = self.reg(r8::Z);
        proof {
            lemma_bit7(e);
        }
        let adj: u8 = if e & 0x80 != 0 { 0xFF } else { 0x00 };
        let carry: u8 = if self.flags.get_flag(Flag::Carry) { 1 } else { 0 };
        self.set_reg(r8::H, sp_high.wrapping_add(adj).wrapping_add(carry));
    }

    /// `[Addr] = Value`, then the program counter takes WZ.
    pub fn write_memory_reassign_pc<Addr: Reg16, Value: Reg8>(&mut self, bus: &mut Mmu)
        ensures
            micro(*final(self), *final(bus)) == after_write_memory_reassign_pc(micro(*old(self), *old(bus)), Addr::USIZE as int, Value::USIZE as int),
    {
        proof {
            Addr::lemma_index_in_range();
            Value::lemma_index_in_range();
        }
        write_memory_reassign_pc_at(self, bus, Addr::USIZE, Value::USIZE)
    }

    /// `[Addr] = Dest`, then PC takes the restart vector `B`.
    pub fn write_memory_rst<const B: u16, Addr: Reg16, Dest: Reg8>(&mut self, bus: &mut Mmu)
        ensures
            micro(*final(self), *final(bus)) == after_write_memory_rst(micro(*old(self), *old(bus)), B, Addr::USIZE as int, Dest::USIZE as int),
    {
        proof {
            Addr::lemma_index_in_range();
            Dest::lemma_index_in_range();
        }
        write_memory_rst_at(self, bus, B, Addr::USIZE, Dest::USIZE)
    }
}

} // verus!
