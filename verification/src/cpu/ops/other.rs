use vstd::prelude::*;

use crate::cpu2::defines::{r16, r8, add16, add8, sub8, Flag, with_flag, with_nhc, with_znhc};
use crate::cpu::defines::{micro, Cpu, MicroState};
use crate::mmu::Mmu;
use crate::cpu2::flags::FlagsOps;
use crate::cpu2::implemenation::{Reg16, Reg8};
use crate::cpu::ops::load::{after_write_memory, bump_pair, step_pair, write_memory_at};

use crate::cpu2::instructions::other::{bit_is_set, bool_bit, daa_adjust, daa_carry, daa_result, lemma_rotl, lemma_rotr, lemma_shl, lemma_shr, rotl8, rotr8, shl8, shr8, swap_nibbles};

verus! {

/// `A = !A`; N and H raised.
pub open spec fn after_cpl(s: MicroState) -> MicroState {
    s.set_reg(r8::A as int, (255 - s.reg(r8::A as int)) as u8).set_flags(
        with_flag(with_flag(s.flags, Flag::Subtract, true), Flag::HalfCarry, true),
    )
}

/// C raised, N and H cleared.
pub open spec fn after_scf(s: MicroState) -> MicroState {
    s.set_flags(with_nhc(s.flags, false, false, true))
}

/// C flipped, N and H cleared.
pub open spec fn after_ccf(s: MicroState) -> MicroState {
    s.set_flags(with_nhc(s.flags, false, false, !s.has(Flag::Carry)))
}

/// Decimal adjust of A after a BCD addition or subtraction.
pub open spec fn after_daa(s: MicroState) -> MicroState {
    let a = s.reg(r8::A as int);
    let n = s.has(Flag::Subtract);
    let h = s.has(Flag::HalfCarry);
    let c = s.has(Flag::Carry);
    let result = daa_result(a, n, h, c);
    s.set_reg(r8::A as int, result).set_flags(
        with_flag(with_flag(with_flag(s.flags, Flag::Zero, result == 0), Flag::HalfCarry, false), Flag::Carry, daa_carry(a, n, c)),
    )
}

/// HALT: the machine stops until an interrupt is pending.
pub open spec fn after_halt(s: MicroState) -> MicroState {
    MicroState { halted: true, ..s }
}

/// IME set to `ime`.
pub open spec fn after_set_ime(s: MicroState, ime: bool) -> MicroState {
    MicroState { ime: ime, ..s }
}

/// EI: IME will be raised after the next instruction.
pub open spec fn after_set_ime_delay(s: MicroState) -> MicroState {
    MicroState { ime_delay: true, ..s }
}

/// Register `r` set to `result`, then Z from the result, N and H cleared, C to `carry`.
pub open spec fn shift_result(s: MicroState, r: int, result: u8, zero: bool, carry: bool) -> MicroState {
    s.set_reg(r, result).set_flags(with_znhc(s.flags, zero, false, false, carry))
}

pub open spec fn after_rlca(s: MicroState) -> MicroState {
    let a = s.reg(r8::A as int);
    shift_result(s, r8::A as int, rotl8(a), false, a >= 0x80)
}

pub open spec fn after_rrca(s: MicroState) -> MicroState {
    let a = s.reg(r8::A as int);
    shift_result(s, r8::A as int, rotr8(a), false, a % 2 == 1)
}

pub open spec fn after_rla(s: MicroState) -> MicroState {
    let a = s.reg(r8::A as int);
    shift_result(s, r8::A as int, shl8(a, bool_bit(s.has(Flag::Carry))), false, a >= 0x80)
}

pub open spec fn after_rra(s: MicroState) -> MicroState {
    let a = s.reg(r8::A as int);
    shift_result(s, r8::A as int, shr8(a, bool_bit(s.has(Flag::Carry))), false, a % 2 == 1)
}

pub open spec fn after_rlc(s: MicroState, r: int) -> MicroState {
    let v = s.reg(r);
    shift_result(s, r, rotl8(v), rotl8(v) == 0, v >= 0x80)
}

pub open spec fn after_rrc(s: MicroState, r: int) -> MicroState {
    let v = s.reg(r);
    shift_result(s, r, rotr8(v), rotr8(v) == 0, v % 2 == 1)
}

pub open spec fn after_rl(s: MicroState, r: int) -> MicroState {
    let v = s.reg(r);
    let result = shl8(v, bool_bit(s.has(Flag::Carry)));
    shift_result(s, r, result, result == 0, v >= 0x80)
}

pub open spec fn after_rr(s: MicroState, r: int) -> MicroState {
    let v = s.reg(r);
    let result = shr8(v, bool_bit(s.has(Flag::Carry)));
    shift_result(s, r, result, result == 0, v % 2 == 1)
}

pub open spec fn after_sla(s: MicroState, r: int) -> MicroState {
    let v = s.reg(r);
    shift_result(s, r, shl8(v, 0), shl8(v, 0) == 0, v >= 0x80)
}

pub open spec fn after_sra(s: MicroState, r: int) -> MicroState {
    let v = s.reg(r);
    let result = shr8(v, bool_bit(v >= 0x80));
    shift_result(s, r, result, result == 0, v % 2 == 1)
}

pub open spec fn after_swap(s: MicroState, r: int) -> MicroState {
    let v = s.reg(r);
    shift_result(s, r, swap_nibbles(v), swap_nibbles(v) == 0, false)
}

pub open spec fn after_srl(s: MicroState, r: int) -> MicroState {
    let v = s.reg(r);
    shift_result(s, r, shr8(v, 0), shr8(v, 0) == 0, v % 2 == 1)
}

/// Z raised when bit `b` of the register is clear; N cleared, H raised, C kept.
pub open spec fn after_bit(s: MicroState, b: u8, r: int) -> MicroState {
    s.set_flags(
        with_flag(with_flag(with_flag(s.flags, Flag::Zero, !bit_is_set(s.reg(r), b)), Flag::Subtract, false), Flag::HalfCarry, true),
    )
}

/// Bit `b` of the register cleared.
pub open spec fn after_res(s: MicroState, b: u8, r: int) -> MicroState {
    s.set_reg(r, s.reg(r) & !(1u8 << b))
}

/// Bit `b` of the register set.
pub open spec fn after_set(s: MicroState, b: u8, r: int) -> MicroState {
    s.set_reg(r, s.reg(r) | (1u8 << b))
}

/// Stores `result` in register `r` and sets Z, N, H, C the way the CB shifts do.
fn store_shift_result(cpu: &mut Cpu, bus: &mut Mmu, r: usize, result: u8, carry: bool)
    requires
        r < 14,
    ensures
        micro(*final(cpu), *final(bus)) == shift_result(micro(*old(cpu), *old(bus)), r as int, result, result == 0, carry),
{
    cpu.set_reg(r, result);
    cpu.flags.set_flag(Flag::Zero, result == 0);
    cpu.flags.set_flag(Flag::Subtract, false);
    cpu.flags.set_flag(Flag::HalfCarry, false);
    cpu.flags.set_flag(Flag::Carry, carry);
}

pub fn rlc_at(cpu: &mut Cpu, bus: &mut Mmu, r: usize)
    requires
        r < 14,
    ensures
        micro(*final(cpu), *final(bus)) == after_rlc(micro(*old(cpu), *old(bus)), r as int),
{
    let val = cpu.reg(r);
    proof {
        lemma_rotl(val);
    }
    let bit7 = (val & 0x80) >> 7;
    let result = (val << 1) | bit7;
    store_shift_result(cpu, bus, r, result, bit7 == 1);
}

pub fn rrc_at(cpu: &mut Cpu, bus: &mut Mmu, r: usize)
    requires
        r < 14,
    ensures
        micro(*final(cpu), *final(bus)) == after_rrc(micro(*old(cpu), *old(bus)), r as int),
{
    let val = cpu.reg(r);
    proof {
        lemma_rotr(val);
    }
    let bit0 = val & 0x01;
    let result = (val >> 1) | (bit0 << 7);
    store_shift_result(cpu, bus, r, result, bit0 == 1);
}

pub fn rl_at(cpu: &mut Cpu, bus: &mut Mmu, r: usize)
    requires
        r < 14,
    ensures
        micro(*final(cpu), *final(bus)) == after_rl(micro(*old(cpu), *old(bus)), r as int),
{
    let val = cpu.reg(r);
    let old_carry: u8 = if cpu.flags.get_flag(Flag::Carry) { 1 } else { 0 };
    proof {
        lemma_rotl(val);
        lemma_shl(val, old_carry);
    }
    let bit7 = (val & 0x80) >> 7;
    let result = (val << 1) | old_carry;
    store_shift_result(cpu, bus, r, result, bit7 == 1);
}

pub fn rr_at(cpu: &mut Cpu, bus: &mut Mmu, r: usize)
    requires
        r < 14,
    ensures
        micro(*final(cpu), *final(bus)) == after_rr(micro(*old(cpu), *old(bus)), r as int),
{
    let val = cpu.reg(r);
    let old_carry: u8 = if cpu.flags.get_flag(Flag::Carry) { 1 } else { 0 };
    proof {
        lemma_rotr(val);
        lemma_shr(val, old_carry);
    }
    let bit0 = val & 0x01;
    let result = (val >> 1) | (old_carry << 7);
    store_shift_result(cpu, bus, r, result, bit0 == 1);
}

pub fn sla_at(cpu: &mut Cpu, bus: &mut Mmu, r: usize)
    requires
        r < 14,
    ensures
        micro(*final(cpu), *final(bus)) == after_sla(micro(*old(cpu), *old(bus)), r as int),
{
    let val = cpu.reg(r);
    proof {
        lemma_rotl(val);
        lemma_shl(val, 0);
    }
    proof {
        crate::bits::lemma_byte_shift_left(val);
    }
    let bit7 = (val & 0x80) >> 7;
    let result = val << 1;
    store_shift_result(cpu, bus, r, result, bit7 == 1);
}

pub fn sra_at(cpu: &mut Cpu, bus: &mut Mmu, r: usize)
    requires
        r < 14,
    ensures
        micro(*final(cpu), *final(bus)) == after_sra(micro(*old(cpu), *old(bus)), r as int),
{
    let val = cpu.reg(r);
    proof {
        lemma_rotr(val);
    }
    let bit0 = val & 0x01;
    let bit7 = val & 0x80;
    let result = (val >> 1) | bit7;
    proof {
        crate::bits::lemma_byte_sra(val);
    }
    store_shift_result(cpu, bus, r, result, bit0 == 1);
}

pub fn swap_at(cpu: &mut Cpu, bus: &mut Mmu, r: usize)
    requires
        r < 14,
    ensures
        micro(*final(cpu), *final(bus)) == after_swap(micro(*old(cpu), *old(bus)), r as int),
{
    let val = cpu.reg(r);
    let result = (val << 4) | (val >> 4);
    proof {
        crate::bits::lemma_byte_shift_right(val);
    }
    store_shift_result(cpu, bus, r, result, false);
}

pub fn srl_at(cpu: &mut Cpu, bus: &mut Mmu, r: usize)
    requires
        r < 14,
    ensures
        micro(*final(cpu), *final(bus)) == after_srl(micro(*old(cpu), *old(bus)), r as int),
{
    let val = cpu.reg(r);
    proof {
        lemma_rotr(val);
    }
    let bit0 = val & 0x01;
    let result = val >> 1;
    proof {
        crate::bits::lemma_byte_shift_right(val);
    }
    store_shift_result(cpu, bus, r, result, bit0 == 1);
}

pub fn bit_at(cpu: &mut Cpu, bus: &mut Mmu, b: u8, r: usize)
    requires
        b < 8,
        r < 14,
    ensures
        micro(*final(cpu), *final(bus)) == after_bit(micro(*old(cpu), *old(bus)), b, r as int),
{
    let val = cpu.reg(r);
    let is_bit_zero = (val & (1u8 << b)) == 0;
    cpu.flags.set_flag(Flag::Zero, is_bit_zero);
    cpu.flags.set_flag(Flag::Subtract, false);
    cpu.flags.set_flag(Flag::HalfCarry, true);
}

pub fn res_at(cpu: &mut Cpu, bus: &mut Mmu, b: u8, r: usize)
    requires
        b < 8,
        r < 14,
    ensures
        micro(*final(cpu), *final(bus)) == after_res(micro(*old(cpu), *old(bus)), b, r as int),
{
    let val = cpu.reg(r);
    cpu.set_reg(r, val & !(1u8 << b));
}

pub fn set_at(cpu: &mut Cpu, bus: &mut Mmu, b: u8, r: usize)
    requires
        b < 8,
        r < 14,
    ensures
        micro(*final(cpu), *final(bus)) == after_set(micro(*old(cpu), *old(bus)), b, r as int),
{
    let val = cpu.reg(r);
    cpu.set_reg(r, val | (1u8 << b));
}

impl Cpu {
    /// Empty cycle.
    pub fn noop(&mut self, bus: &mut Mmu)
        ensures
            micro(*final(self), *final(bus)) == micro(*old(self), *old(bus)),
    {
    }

    /// HALT: stops the machine until an interrupt is pending.
    pub fn halt(&mut self, bus: &mut Mmu)
        ensures
            micro(*final(self), *final(bus)) == after_halt(micro(*old(self), *old(bus))),
    {
        self.halted = true;
    }

    /// DI: interrupts disabled at once.
    pub fn set_ime_0(&mut self, bus: &mut Mmu)
        ensures
            micro(*final(self), *final(bus)) == after_set_ime(micro(*old(self), *old(bus)), false),
    {
        self.ime = false;
    }

    /// EI: interrupts enabled after the next instruction.
    pub fn set_ime_delay_1(&mut self, bus: &mut Mmu)
        ensures
            micro(*final(self), *final(bus)) == after_set_ime_delay(micro(*old(self), *old(bus))),
    {
        self.ime_delay = true;
    }

    /// Interrupts enabled at once.
    pub fn set_ime_1(&mut self, bus: &mut Mmu)
        ensures
            micro(*final(self), *final(bus)) == after_set_ime(micro(*old(self), *old(bus)), true),
    {
        self.ime = true;
    }

    /// `Reg -= 1` on a pair, modulo 65536.
    pub fn decrement_r16<Reg: Reg16>(&mut self, bus: &mut Mmu)
        ensures
            micro(*final(self), *final(bus)) == bump_pair(micro(*old(self), *old(bus)), Reg::USIZE as int, -1),
    {
        proof {
            Reg::lemma_index_in_range();
        }
        step_pair(self, bus, Reg::USIZE, false)
    }

    /// CPL: complements A.
    pub fn cpl(&mut self, bus: &mut Mmu)
        ensures
            micro(*final(self), *final(bus)) == after_cpl(micro(*old(self), *old(bus))),
    {
        let a = self.reg(r8::A);
        proof {
            crate::bits::lemma_byte_fields(a);
        }
        self.set_reg(r8::A, !a);
        self.flags.set_flag(Flag::Subtract, true);
        self.flags.set_flag(Flag::HalfCarry, true);
    }

    /// SCF: sets the carry.
    pub fn scf(&mut self, bus: &mut Mmu)
        ensures
            micro(*final(self), *final(bus)) == after_scf(micro(*old(self), *old(bus))),
    {
        self.flags.set_flag(Flag::Subtract, false);
        self.flags.set_flag(Flag::HalfCarry, false);
        self.flags.set_flag(Flag::Carry, true);
    }

    /// CCF: flips the carry.
    pub fn ccf(&mut self, bus: &mut Mmu)
        ensures
            micro(*final(self), *final(bus)) == after_ccf(micro(*old(self), *old(bus))),
    {
        let c = self.flags.get_flag(Flag::Carry);
        self.flags.set_flag(Flag::Subtract, false);
        self.flags.set_flag(Flag::HalfCarry, false);
        self.flags.set_flag(Flag::Carry, !c);
    }

    /// DAA: turns A back into two decimal digits after a BCD operation.
    #[verifier::rlimit(40)]
    pub fn daa(&mut self, bus: &mut Mmu)
        ensures
            micro(*final(self), *final(bus)) == after_daa(micro(*old(self), *old(bus))),
    {
        let mut a = self.reg(r8::A);
        let mut adjust: u8 = 0;
        let mut carry = false;
        let n = self.flags.get_flag(Flag::Subtract);
        let h = self.flags.get_flag(Flag::HalfCarry);
        let c = self.flags.get_flag(Flag::Carry);
        let a0 = a;
        proof {
            crate::bits::lemma_low_nibble(a);
        }
        if h || (!n && (a & 0x0F) > 0x09) {
            proof {
                crate::bits::lemma_or_small(0x06u8);
            }
            adjust = adjust | 0x06;
        }
        assert(adjust == 0 || adjust == 6);
        if c || (!n && a > 0x99) {
            proof {
                crate::bits::lemma_or_small(adjust);
            }
            adjust = adjust | 0x60;
            carry = true;
        }
        assert(adjust == daa_adjust(a0, n, h, c));
        if n {
            a = a.wrapping_sub(adjust);
        } else {
            a = a.wrapping_add(adjust);
        }
        self.set_reg(r8::A, a);
        self.flags.set_flag(Flag::Zero, a == 0);
        self.flags.set_flag(Flag::HalfCarry, false);
        self.flags.set_flag(Flag::Carry, carry);
    }

    /// RLCA: rotates A left; Z cleared.
    pub fn rlca(&mut self, bus: &mut Mmu)
        ensures
            micro(*final(self), *final(bus)) == after_rlca(micro(*old(self), *old(bus))),
    {
        let a = self.reg(r8::A);
        proof {
            lemma_rotl(a);
        }
        let bit7 = (a & 0x80) >> 7;
        let result = (a << 1) | bit7;
        self.set_reg(r8::A, result);
        self.flags.set_flag(Flag::Zero, false);
        self.flags.set_flag(Flag::Subtract, false);
        self.flags.set_flag(Flag::HalfCarry, false);
        self.flags.set_flag(Flag::Carry, bit7 == 1);
    }

    /// RRCA: rotates A right; Z cleared.
    pub fn rrca(&mut self, bus: &mut Mmu)
        ensures
            micro(*final(self), *final(bus)) == after_rrca(micro(*old(self), *old(bus))),
    {
        let a = self.reg(r8::A);
        proof {
            lemma_rotr(a);
        }
        let bit0 = a & 0x01;
        let result = (a >> 1) | (bit0 << 7);
        self.set_reg(r8::A, result);
        self.flags.set_flag(Flag::Zero, false);
        self.flags.set_flag(Flag::Subtract, false);
        self.flags.set_flag(Flag::HalfCarry, false);
        self.flags.set_flag(Flag::Carry, bit0 == 1);
    }

    /// RLA: rotates A left through the carry; Z cleared.
    pub fn rla(&mut self, bus: &mut Mmu)
        ensures
            micro(*final(self), *final(bus)) == after_rla(micro(*old(self), *old(bus))),
    {
        let a = self.reg(r8::A);
        let old_carry: u8 = if self.flags.get_flag(Flag::Carry) { 1 } else { 0 };
        proof {
            lemma_rotl(a);
            lemma_shl(a, old_carry);
        }
        let bit7 = (a & 0x80) >> 7;
        let result = (a << 1) | old_carry;
        self.set_reg(r8::A, result);
        self.flags.set_flag(Flag::Zero, false);
        self.flags.set_flag(Flag::Subtract, false);
        self.flags.set_flag(Flag::HalfCarry, false);
        self.flags.set_flag(Flag::Carry, bit7 == 1);
    }

    /// RRA: rotates A right through the carry; Z cleared.
    pub fn rra(&mut self, bus: &mut Mmu)
        ensures
            micro(*final(self), *final(bus)) == after_rra(micro(*old(self), *old(bus))),
    {
        let a = self.reg(r8::A);
        let old_carry: u8 = if self.flags.get_flag(Flag::Carry) { 1 } else { 0 };
        proof {
            lemma_rotr(a);
            lemma_shr(a, old_carry);
        }
        let bit0 = a & 0x01;
        let result = (a >> 1) | (old_carry << 7);
        self.set_reg(r8::A, result);
        self.flags.set_flag(Flag::Zero, false);
        self.flags.set_flag(Flag::Subtract, false);
        self.flags.set_flag(Flag::HalfCarry, false);
        self.flags.set_flag(Flag::Carry, bit0 == 1);
    }

    /// RLC r: rotates left, bit 7 into the carry.
    pub fn rlc<Reg: Reg8>(&mut self, bus: &mut Mmu)
        ensures
            micro(*final(self), *final(bus)) == after_rlc(micro(*old(self), *old(bus)), Reg::USIZE as int),
    {
        proof {
            Reg::lemma_index_in_range();
        }
        rlc_at(self, bus, Reg::USIZE)
    }

    /// RRC r: rotates right, bit 0 into the carry.
    pub fn rrc<Reg: Reg8>(&mut self, bus: &mut Mmu)
        ensures
            micro(*final(self), *final(bus)) == after_rrc(micro(*old(self), *old(bus)), Reg::USIZE as int),
    {
        proof {
            Reg::lemma_index_in_range();
        }
        rrc_at(self, bus, Reg::USIZE)
    }

    /// RL r: rotates left through the carry.
    pub fn rl<Reg: Reg8>(&mut self, bus: &mut Mmu)
        ensures
            micro(*final(self), *final(bus)) == after_rl(micro(*old(self), *old(bus)), Reg::USIZE as int),
    {
        proof {
            Reg::lemma_index_in_range();
        }
        rl_at(self, bus, Reg::USIZE)
    }

    /// RR r: rotates right through the carry.
    pub fn rr<Reg: Reg8>(&mut self, bus: &mut Mmu)
        ensures
            micro(*final(self), *final(bus)) == after_rr(micro(*old(self), *old(bus)), Reg::USIZE as int),
    {
        proof {
            Reg::lemma_index_in_range();
        }
        rr_at(self, bus, Reg::USIZE)
    }

    /// SLA r: shifts left, bit 7 into the carry.
    pub fn sla<Reg: Reg8>(&mut self, bus: &mut Mmu)
        ensures
            micro(*final(self), *final(bus)) == after_sla(micro(*old(self), *old(bus)), Reg::USIZE as int),
    {
        proof {
            Reg::lemma_index_in_range();
        }
        sla_at(self, bus, Reg::USIZE)
    }

    /// SRA r: shifts right keeping the sign bit, bit 0 into the carry.
    pub fn sra<Reg: Reg8>(&mut self, bus: &mut Mmu)
        ensures
            micro(*final(self), *final(bus)) == after_sra(micro(*old(self), *old(bus)), Reg::USIZE as int),
    {
        proof {
            Reg::lemma_index_in_range();
        }
        sra_at(self, bus, Reg::USIZE)
    }

    /// SWAP r: exchanges the nibbles; C cleared.
    pub fn swap<Reg: Reg8>(&mut self, bus: &mut Mmu)
        ensures
            micro(*final(self), *final(bus)) == after_swap(micro(*old(self), *old(bus)), Reg::USIZE as int),
    {
        proof {
            Reg::lemma_index_in_range();
        }
        swap_at(self, bus, Reg::USIZE)
    }

    /// SRL r: shifts right, bit 0 into the carry.
    pub fn srl<Reg: Reg8>(&mut self, bus: &mut Mmu)
        ensures
            micro(*final(self), *final(bus)) == after_srl(micro(*old(self), *old(bus)), Reg::USIZE as int),
    {
        proof {
            Reg::lemma_index_in_range();
        }
        srl_at(self, bus, Reg::USIZE)
    }

    /// BIT b, r: Z tells whether bit `B` is clear.
    pub fn bit<const B: u8, Reg: Reg8>(&mut self, bus: &mut Mmu)
        requires
            B < 8,
        ensures
            micro(*final(self), *final(bus)) == after_bit(micro(*old(self), *old(bus)), B, Reg::USIZE as int),
    {
        proof {
            Reg::lemma_index_in_range();
        }
        bit_at(self, bus, B, Reg::USIZE)
    }

    /// RES b, r: clears bit `B`.
    pub fn res<const B: u8, Reg: Reg8>(&mut self, bus: &mut Mmu)
        requires
            B < 8,
        ensures
            micro(*final(self), *final(bus)) == after_res(micro(*old(self), *old(bus)), B, Reg::USIZE as int),
    {
        proof {
            Reg::lemma_index_in_range();
        }
        res_at(self, bus, B, Reg::USIZE)
    }

    /// SET b, r: sets bit `B`.
    pub fn set<const B: u8, Reg: Reg8>(&mut self, bus: &mut Mmu)
        requires
            B < 8,
        ensures
            micro(*final(self), *final(bus)) == after_set(micro(*old(self), *old(bus)), B, Reg::USIZE as int),
    {
        proof {
            Reg::lemma_index_in_range();
        }
        set_at(self, bus, B, Reg::USIZE)
    }

    /// RLC on a register, then the register written at the address in `Addr`.
    pub fn write_rlc_mem<Addr: Reg16, Reg: Reg8>(&mut self, bus: &mut Mmu)
        ensures
            micro(*final(self), *final(bus)) == after_write_memory(after_rlc(micro(*old(self), *old(bus)), Reg::USIZE as int), Addr::USIZE as int, Reg::USIZE as int),
    {
        proof {
            Addr::lemma_index_in_range();
            Reg::lemma_index_in_range();
        }
        rlc_at(self, bus, Reg::USIZE);
        write_memory_at(self, bus, Addr::USIZE, Reg::USIZE);
    }

    /// RRC on a register, then the register written at the address in `Addr`.
    pub fn write_rrc_mem<Addr: Reg16, Reg: Reg8>(&mut self, bus: &mut Mmu)
        ensures
            micro(*final(self), *final(bus)) == after_write_memory(after_rrc(micro(*old(self), *old(bus)), Reg::USIZE as int), Addr::USIZE as int, Reg::USIZE as int),
    {
        proof {
            Addr::lemma_index_in_range();
            Reg::lemma_index_in_range();
        }
        rrc_at(self, bus, Reg::USIZE);
        write_memory_at(self, bus, Addr::USIZE, Reg::USIZE);
    }

    /// RL on a register, then the register written at the address in `Addr`.
    pub fn write_rl_mem<Addr: Reg16, Reg: Reg8>(&mut self, bus: &mut Mmu)
        ensures
            micro(*final(self), *final(bus)) == after_write_memory(after_rl(micro(*old(self), *old(bus)), Reg::USIZE as int), Addr::USIZE as int, Reg::USIZE as int),
    {
        proof {
            Addr::lemma_index_in_range();
            Reg::lemma_index_in_range();
        }
        rl_at(self, bus, Reg::USIZE);
        write_memory_at(self, bus, Addr::USIZE, Reg::USIZE);
    }

    /// RR on a register, then the register written at the address in `Addr`.
    pub fn write_rr_mem<Addr: Reg16, Reg: Reg8>(&mut self, bus: &mut Mmu)
        ensures
            micro(*final(self), *final(bus)) == after_write_memory(after_rr(micro(*old(self), *old(bus)), Reg::USIZE as int), Addr::USIZE as int, Reg::USIZE as int),
    {
        proof {
            Addr::lemma_index_in_range();
            Reg::lemma_index_in_range();
        }
        rr_at(self, bus, Reg::USIZE);
        write_memory_at(self, bus, Addr::USIZE, Reg::USIZE);
    }

    /// SLA on a register, then the register written at the address in `Addr`.
    pub fn write_sla_mem<Addr: Reg16, Reg: Reg8>(&mut self, bus: &mut Mmu)
        ensures
            micro(*final(self), *final(bus)) == after_write_memory(after_sla(micro(*old(self), *old(bus)), Reg::USIZE as int), Addr::USIZE as int, Reg::USIZE as int),
    {
        proof {
            Addr::lemma_index_in_range();
            Reg::lemma_index_in_range();
        }
        sla_at(self, bus, Reg::USIZE);
        write_memory_at(self, bus, Addr::USIZE, Reg::USIZE);
    }

    /// SRA on a register, then the register written at the address in `Addr`.
    pub fn write_sra_mem<Addr: Reg16, Reg: Reg8>(&mut self, bus: &mut Mmu)
        ensures
            micro(*final(self), *final(bus)) == after_write_memory(after_sra(micro(*old(self), *old(bus)), Reg::USIZE as int), Addr::USIZE as int, Reg::USIZE as int),
    {
        proof {
            Addr::lemma_index_in_range();
            Reg::lemma_index_in_range();
        }
        sra_at(self, bus, Reg::USIZE);
        write_memory_at(self, bus, Addr::USIZE, Reg::USIZE);
    }

    /// SWAP on a register, then the register written at the address in `Addr`.
    pub fn write_swap_mem<Addr: Reg16, Reg: Reg8>(&mut self, bus: &mut Mmu)
        ensures
            micro(*final(self), *final(bus)) == after_write_memory(after_swap(micro(*old(self), *old(bus)), Reg::USIZE as int), Addr::USIZE as int, Reg::USIZE as int),
    {
        proof {
            Addr::lemma_index_in_range();
            Reg::lemma_index_in_range();
        }
        swap_at(self, bus, Reg::USIZE);
        write_memory_at(self, bus, Addr::USIZE, Reg::USIZE);
    }

    /// SRL on a register, then the register written at the address in `Addr`.
    pub fn write_srl_mem<Addr: Reg16, Reg: Reg8>(&mut self, bus: &mut Mmu)
        ensures
            micro(*final(self), *final(bus)) == after_write_memory(after_srl(micro(*old(self), *old(bus)), Reg::USIZE as int), Addr::USIZE as int, Reg::USIZE as int),
    {
        proof {
            Addr::lemma_index_in_range();
            Reg::lemma_index_in_range();
        }
        srl_at(self, bus, Reg::USIZE);
        write_memory_at(self, bus, Addr::USIZE, Reg::USIZE);
    }

    /// RES on a register, then the register written at the address in `Addr`.
    pub fn write_res_mem<const B: u8, Addr: Reg16, Reg: Reg8>(&mut self, bus: &mut Mmu)
        requires
            B < 8,
        ensures
            micro(*final(self), *final(bus)) == after_write_memory(after_res(micro(*old(self), *old(bus)), B, Reg::USIZE as int), Addr::USIZE as int, Reg::USIZE as int),
    {
        proof {
            Addr::lemma_index_in_range();
            Reg::lemma_index_in_range();
        }
        res_at(self, bus, B, Reg::USIZE);
        write_memory_at(self, bus, Addr::USIZE, Reg::USIZE);
    }

    /// SET on a register, then the register written at the address in `Addr`.
    pub fn write_set_mem<const B: u8, Addr: Reg16, Reg: Reg8>(&mut self, bus: &mut Mmu)
        requires
            B < 8,
        ensures
            micro(*final(self), *final(bus)) == after_write_memory(after_set(micro(*old(self), *old(bus)), B, Reg::USIZE as int), Addr::USIZE as int, Reg::USIZE as int),
    {
        proof {
            Addr::lemma_index_in_range();
            Reg::lemma_index_in_range();
        }
        set_at(self, bus, B, Reg::USIZE);
        write_memory_at(self, bus, Addr::USIZE, Reg::USIZE);
    }
}

} // verus!
