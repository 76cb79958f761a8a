use vstd::prelude::*;

use crate::cpu2::defines::{r16, r8, add16, add8, sub8, AccCpu, AccState, Cpu, CpuState, Flag, R16, with_flag, with_nhc, with_znhc};
use crate::cpu2::implemenation::GetReg;
use crate::cpu2::flags::FlagsOps;
use crate::cpu2::implemenation::{Reg16, Reg8};
use crate::cpu2::instructions::load::{after_write_memory, bump_pair, step_pair, write_memory_at};

use crate::cpu2::instructions::add::half_carry_add;
use crate::cpu2::instructions::add::carry_add;

verus! {

/// Rotation left by one bit, bit 7 coming back as bit 0.
pub open spec fn rotl8(v: u8) -> u8 {
    ((v as int * 2) % 256 + v as int / 128) as u8
}

/// Rotation right by one bit, bit 0 coming back as bit 7.
pub open spec fn rotr8(v: u8) -> u8 {
    (v as int / 2 + (v as int % 2) * 128) as u8
}

/// Shift left by one bit, `low` entering as bit 0.
pub open spec fn shl8(v: u8, low: int) -> u8 {
    ((v as int * 2) % 256 + low) as u8
}

/// Shift right by one bit, `high` entering as bit 7.
pub open spec fn shr8(v: u8, high: int) -> u8 {
    (v as int / 2 + high * 128) as u8
}

/// The two nibbles of a byte exchanged.
pub open spec fn swap_nibbles(v: u8) -> u8 {
    ((v as int % 16) * 16 + v as int / 16) as u8
}

/// Whether bit `b` of `v` is set.
pub open spec fn bit_is_set(v: u8, b: u8) -> bool {
    v & (1u8 << b) != 0
}

pub open spec fn bool_bit(b: bool) -> int {
    if b { 1 } else { 0 }
}

/// `A = !A`; N and H raised.
pub open spec fn after_cpl(s: CpuState) -> CpuState {
    s.set_reg(r8::A as int, (255 - s.reg(r8::A as int)) as u8).set_flags(
        with_flag(with_flag(s.flags, Flag::Subtract, true), Flag::HalfCarry, true),
    )
}

/// C raised, N and H cleared.
pub open spec fn after_scf(s: CpuState) -> CpuState {
    s.set_flags(with_nhc(s.flags, false, false, true))
}

/// C flipped, N and H cleared.
pub open spec fn after_ccf(s: CpuState) -> CpuState {
    s.set_flags(with_nhc(s.flags, false, false, !s.has(Flag::Carry)))
}

/// The correction DAA applies to A.
pub open spec fn daa_adjust(a: u8, n: bool, h: bool, c: bool) -> int {
    (if h || (!n && a % 16 > 9) { 0x06int } else { 0 }) + (if c || (!n && a > 0x99) { 0x60int } else { 0 })
}

/// Whether DAA leaves the carry raised.
pub open spec fn daa_carry(a: u8, n: bool, c: bool) -> bool {
    c || (!n && a > 0x99)
}

/// The value DAA leaves in A.
pub open spec fn daa_result(a: u8, n: bool, h: bool, c: bool) -> u8 {
    if n {
        sub8(a as int, daa_adjust(a, n, h, c))
    } else {
        add8(a as int, daa_adjust(a, n, h, c))
    }
}

/// Rotating left then right, or right then left, gives the byte back.
pub proof fn lemma_rotate_inverse(v: u8)
    ensures
        rotr8(rotl8(v)) == v,
        rotl8(rotr8(v)) == v,
{
}

/// Swapping the nibbles twice gives the byte back.
pub proof fn lemma_swap_involution(v: u8)
    ensures
        swap_nibbles(swap_nibbles(v)) == v,
{
}

/// A shift left through the carry followed by a shift right through the carry gives
/// back the byte and the carry it started from.
pub proof fn lemma_shift_through_carry_inverse(v: u8, carry: int)
    requires
        carry == 0 || carry == 1,
    ensures
        shr8(shl8(v, carry), bool_bit(v >= 0x80)) == v,
        shl8(v, carry) % 2 == carry,
{
}

/// A byte that holds two decimal digits, one per nibble.
pub open spec fn is_bcd(v: u8) -> bool {
    v % 16 <= 9 && v / 16 <= 9
}

/// The number that the two decimal digits of a byte stand for.
pub open spec fn bcd_value(v: u8) -> int {
    (v / 16) * 10 + v % 16
}

/// After an 8-bit addition of two BCD bytes, with H and C as the addition sets them,
/// DAA leaves the decimal sum modulo 100 in BCD, and raises the carry exactly when
/// the sum reaches 100.
pub proof fn lemma_daa_after_add(a: u8, b: u8)
    by (bit_vector)
    requires
        is_bcd(a),
        is_bcd(b),
    ensures
        ({
            let r = daa_result(add8(a as int, b as int), false, half_carry_add(a, b), carry_add(a, b));
            &&& is_bcd(r)
            &&& bcd_value(r) == (bcd_value(a) + bcd_value(b)) % 100
            &&& daa_carry(add8(a as int, b as int), false, carry_add(a, b)) == (bcd_value(a) + bcd_value(b) >= 100)
        }),
{
}

/// After an 8-bit subtraction of two BCD bytes, with H and C as the subtraction sets
/// them, DAA leaves the decimal difference modulo 100 in BCD; the carry, raised
/// exactly when the subtraction borrowed, is kept.
pub proof fn lemma_daa_after_sub(a: u8, b: u8)
    by (bit_vector)
    requires
        is_bcd(a),
        is_bcd(b),
    ensures
        ({
            let r = daa_result(sub8(a as int, b as int), true, a % 16 < b % 16, a < b);
            &&& is_bcd(r)
            &&& bcd_value(r) == (bcd_value(a) - bcd_value(b)) % 100
            &&& daa_carry(sub8(a as int, b as int), true, a < b) == (bcd_value(a) < bcd_value(b))
        }),
{
}

/// Decimal adjust of A after a BCD addition or subtraction.
pub open spec fn after_daa(s: CpuState) -> CpuState {
    let a = s.reg(r8::A as int);
    let n = s.has(Flag::Subtract);
    let h = s.has(Flag::HalfCarry);
    let c = s.has(Flag::Carry);
    let result = daa_result(a, n, h, c);
    s.set_reg(r8::A as int, result).set_flags(
        with_flag(with_flag(with_flag(s.flags, Flag::Zero, result == 0), Flag::HalfCarry, false), Flag::Carry, daa_carry(a, n, c)),
    )
}

/// Register `r` set to `result`, then Z from the result, N and H cleared, C to `carry`.
pub open spec fn shift_result(s: CpuState, r: int, result: u8, zero: bool, carry: bool) -> CpuState {
    s.set_reg(r, result).set_flags(with_znhc(s.flags, zero, false, false, carry))
}

pub open spec fn after_rlca(s: CpuState) -> CpuState {
    let a = s.reg(r8::A as int);
    shift_result(s, r8::A as int, rotl8(a), false, a >= 0x80)
}

pub open spec fn after_rrca(s: CpuState) -> CpuState {
    let a = s.reg(r8::A as int);
    shift_result(s, r8::A as int, rotr8(a), false, a % 2 == 1)
}

pub open spec fn after_rla(s: CpuState) -> CpuState {
    let a = s.reg(r8::A as int);
    shift_result(s, r8::A as int, shl8(a, bool_bit(s.has(Flag::Carry))), false, a >= 0x80)
}

pub open spec fn after_rra(s: CpuState) -> CpuState {
    let a = s.reg(r8::A as int);
    shift_result(s, r8::A as int, shr8(a, bool_bit(s.has(Flag::Carry))), false, a % 2 == 1)
}

pub open spec fn after_rlc(s: CpuState, r: int) -> CpuState {
    let v = s.reg(r);
    shift_result(s, r, rotl8(v), rotl8(v) == 0, v >= 0x80)
}

pub open spec fn after_rrc(s: CpuState, r: int) -> CpuState {
    let v = s.reg(r);
    shift_result(s, r, rotr8(v), rotr8(v) == 0, v % 2 == 1)
}

pub open spec fn after_rl(s: CpuState, r: int) -> CpuState {
    let v = s.reg(r);
    let result = shl8(v, bool_bit(s.has(Flag::Carry)));
    shift_result(s, r, result, result == 0, v >= 0x80)
}

pub open spec fn after_rr(s: CpuState, r: int) -> CpuState {
    let v = s.reg(r);
    let result = shr8(v, bool_bit(s.has(Flag::Carry)));
    shift_result(s, r, result, result == 0, v % 2 == 1)
}

pub open spec fn after_sla(s: CpuState, r: int) -> CpuState {
    let v = s.reg(r);
    shift_result(s, r, shl8(v, 0), shl8(v, 0) == 0, v >= 0x80)
}

pub open spec fn after_sra(s: CpuState, r: int) -> CpuState {
    let v = s.reg(r);
    let result = shr8(v, bool_bit(v >= 0x80));
    shift_result(s, r, result, result == 0, v % 2 == 1)
}

pub open spec fn after_swap(s: CpuState, r: int) -> CpuState {
    let v = s.reg(r);
    shift_result(s, r, swap_nibbles(v), swap_nibbles(v) == 0, false)
}

pub open spec fn after_srl(s: CpuState, r: int) -> CpuState {
    let v = s.reg(r);
    shift_result(s, r, shr8(v, 0), shr8(v, 0) == 0, v % 2 == 1)
}

/// Z raised when bit `b` of the register is clear; N cleared, H raised, C kept.
pub open spec fn after_bit(s: CpuState, b: u8, r: int) -> CpuState {
    s.set_flags(
        with_flag(with_flag(with_flag(s.flags, Flag::Zero, !bit_is_set(s.reg(r), b)), Flag::Subtract, false), Flag::HalfCarry, true),
    )
}

/// Bit `b` of the register cleared.
pub open spec fn after_res(s: CpuState, b: u8, r: int) -> CpuState {
    s.set_reg(r, s.reg(r) & !(1u8 << b))
}

/// Bit `b` of the register set.
pub open spec fn after_set(s: CpuState, b: u8, r: int) -> CpuState {
    s.set_reg(r, s.reg(r) | (1u8 << b))
}

/// The register result of a CB operation, written back at HL.
pub open spec fn write_back_at_hl(s: CpuState, r: int) -> CpuState {
    after_write_memory(s, r16::HL as int, r)
}

/// SP steps down by one, modulo 65536.
pub fn sp_decr(cpu: &mut AccCpu)
    ensures
        final(cpu)@ == old(cpu)@.set_pair(R16::SP, add16(old(cpu)@.sp as int, -1)),
{
    let sp = cpu.registers.get(R16::SP);
    cpu.registers.set(R16::SP, sp.wrapping_sub(1));
}

/// Empty cycle.
pub fn noop(_cpu: &mut Cpu)
    ensures
        final(_cpu)@ == old(_cpu)@,
{
}

/// `Reg -= 1` on a pair, modulo 65536.
pub fn decrement_r16<Reg: Reg16>(cpu: &mut Cpu)
    ensures
        final(cpu)@ == bump_pair(old(cpu)@, Reg::USIZE as int, -1),
{
    proof {
        Reg::lemma_index_in_range();
    }
    step_pair(cpu, Reg::USIZE, false)
}

/// CPL: complements A.
pub fn cpl(cpu: &mut Cpu)
    ensures
        final(cpu)@ == after_cpl(old(cpu)@),
{
    let a = cpu.reg(r8::A);
    proof {
        crate::bits::lemma_byte_fields(a);
    }
    cpu.set_reg(r8::A, !a);
    cpu.flags.set_flag(Flag::Subtract, true);
    cpu.flags.set_flag(Flag::HalfCarry, true);
}

/// SCF: sets the carry.
pub fn scf(cpu: &mut Cpu)
    ensures
        final(cpu)@ == after_scf(old(cpu)@),
{
    cpu.flags.set_flag(Flag::Subtract, false);
    cpu.flags.set_flag(Flag::HalfCarry, false);
    cpu.flags.set_flag(Flag::Carry, true);
}

/// CCF: flips the carry.
pub fn ccf(cpu: &mut Cpu)
    ensures
        final(cpu)@ == after_ccf(old(cpu)@),
{
    let c = cpu.flags.get_flag(Flag::Carry);
    cpu.flags.set_flag(Flag::Subtract, false);
    cpu.flags.set_flag(Flag::HalfCarry, false);
    cpu.flags.set_flag(Flag::Carry, !c);
}

/// DAA: turns A back into two decimal digits after a BCD operation.
#[verifier::rlimit(40)]
pub fn daa(cpu: &mut Cpu)
    ensures
        final(cpu)@ == after_daa(old(cpu)@),
{
    let mut a = cpu.reg(r8::A);
    let mut adjust: u8 = 0;
    let mut carry = false;
    let n = cpu.flags.get_flag(Flag::Subtract);
    let h = cpu.flags.get_flag(Flag::HalfCarry);
    let c = cpu.flags.get_flag(Flag::Carry);
    let a0 = a;
    proof {
        crate::bits::lemma_low_nibble(a);
    }
    if h || (!n && (a & 0x0F) > 0x09) {
        proof {
            crate::bits::lemma_or_small(0x06u8);
        }
        adjust = adjust | 0x06;
    }
    assert(adjust == 0 || adjust == 6);
    if c || (!n && a > 0x99) {
        proof {
            crate::bits::lemma_or_small(adjust);
        }
        adjust = adjust | 0x60;
        carry = true;
    }
    assert(adjust == daa_adjust(a0, n, h, c));
    if n {
        a = a.wrapping_sub(adjust);
    } else {
        a = a.wrapping_add(adjust);
    }
    cpu.set_reg(r8::A, a);
    cpu.flags.set_flag(Flag::Zero, a == 0);
    cpu.flags.set_flag(Flag::HalfCarry, false);
    cpu.flags.set_flag(Flag::Carry, carry);
}

/// Bit 7 moved to bit 0 and into the carry, as a number.
pub proof fn lemma_rotl(v: u8)
    ensures
        (v << 1) | ((v & 0x80) >> 7) == rotl8(v),
        ((v & 0x80) >> 7 == 1) == (v >= 0x80),
{
    crate::bits::lemma_byte_shift_left(v);
    crate::bits::lemma_byte_fields(v);
}

pub proof fn lemma_rotr(v: u8)
    ensures
        (v >> 1) | ((v & 0x01) << 7) == rotr8(v),
        ((v & 0x01) == 1) == (v % 2 == 1),
{
    crate::bits::lemma_byte_shift_right(v);
    crate::bits::lemma_byte_fields(v);
}

pub proof fn lemma_shl(v: u8, low: u8)
    requires
        low <= 1,
    ensures
        (v << 1) | low == shl8(v, low as int),
{
    crate::bits::lemma_byte_shift_left_in(v, low);
}

pub proof fn lemma_shr(v: u8, high: u8)
    requires
        high <= 1,
    ensures
        (v >> 1) | (high << 7) == shr8(v, high as int),
{
    crate::bits::lemma_byte_shift_right_in(v, high);
}

/// RLCA: rotates A left; Z cleared.
pub fn rlca(cpu: &mut Cpu)
    ensures
        final(cpu)@ == after_rlca(old(cpu)@),
{
    let a = cpu.reg(r8::A);
    proof {
        lemma_rotl(a);
    }
    let bit7 = (a & 0x80) >> 7;
    let result = (a << 1) | bit7;
    cpu.set_reg(r8::A, result);
    cpu.flags.set_flag(Flag::Zero, false);
    cpu.flags.set_flag(Flag::Subtract, false);
    cpu.flags.set_flag(Flag::HalfCarry, false);
    cpu.flags.set_flag(Flag::Carry, bit7 == 1);
}

/// RRCA: rotates A right; Z cleared.
pub fn rrca(cpu: &mut Cpu)
    ensures
        final(cpu)@ == after_rrca(old(cpu)@),
{
    let a = cpu.reg(r8::A);
    proof {
        lemma_rotr(a);
    }
    let bit0 = a & 0x01;
    let result = (a >> 1) | (bit0 << 7);
    cpu.set_reg(r8::A, result);
    cpu.flags.set_flag(Flag::Zero, false);
    cpu.flags.set_flag(Flag::Subtract, false);
    cpu.flags.set_flag(Flag::HalfCarry, false);
    cpu.flags.set_flag(Flag::Carry, bit0 == 1);
}

/// RLA: rotates A left through the carry; Z cleared.
pub fn rla(cpu: &mut Cpu)
    ensures
        final(cpu)@ == after_rla(old(cpu)@),
{
    let a = cpu.reg(r8::A);
    let old_carry: u8 = if cpu.flags.get_flag(Flag::Carry) { 1 } else { 0 };
    proof {
        lemma_rotl(a);
        lemma_shl(a, old_carry);
    }
    let bit7 = (a & 0x80) >> 7;
    let result = (a << 1) | old_carry;
    cpu.set_reg(r8::A, result);
    cpu.flags.set_flag(Flag::Zero, false);
    cpu.flags.set_flag(Flag::Subtract, false);
    cpu.flags.set_flag(Flag::HalfCarry, false);
    cpu.flags.set_flag(Flag::Carry, bit7 == 1);
}

/// RRA: rotates A right through the carry; Z cleared.
pub fn rra(cpu: &mut Cpu)
    ensures
        final(cpu)@ == after_rra(old(cpu)@),
{
    let a = cpu.reg(r8::A);
    let old_carry: u8 = if cpu.flags.get_flag(Flag::Carry) { 1 } else { 0 };
    proof {
        lemma_rotr(a);
        lemma_shr(a, old_carry);
    }
    let bit0 = a & 0x01;
    let result = (a >> 1) | (old_carry << 7);
    cpu.set_reg(r8::A, result);
    cpu.flags.set_flag(Flag::Zero, false);
    cpu.flags.set_flag(Flag::Subtract, false);
    cpu.flags.set_flag(Flag::HalfCarry, false);
    cpu.flags.set_flag(Flag::Carry, bit0 == 1);
}

/// Stores `result` in register `r` and sets Z, N, H, C the way the CB shifts do.
fn store_shift_result(cpu: &mut Cpu, r: usize, result: u8, carry: bool)
    requires
        r < 14,
    ensures
        final(cpu)@ == shift_result(old(cpu)@, r as int, result, result == 0, carry),
{
    cpu.set_reg(r, result);
    cpu.flags.set_flag(Flag::Zero, result == 0);
    cpu.flags.set_flag(Flag::Subtract, false);
    cpu.flags.set_flag(Flag::HalfCarry, false);
    cpu.flags.set_flag(Flag::Carry, carry);
}

pub fn rlc_at(cpu: &mut Cpu, r: usize)
    requires
        r < 14,
    ensures
        final(cpu)@ == after_rlc(old(cpu)@, r as int),
{
    let val = cpu.reg(r);
    proof {
        lemma_rotl(val);
    }
    let bit7 = (val & 0x80) >> 7;
    let result = (val << 1) | bit7;
    store_shift_result(cpu, r, result, bit7 == 1);
}

pub fn rrc_at(cpu: &mut Cpu, r: usize)
    requires
        r < 14,
    ensures
        final(cpu)@ == after_rrc(old(cpu)@, r as int),
{
    let val = cpu.reg(r);
    proof {
        lemma_rotr(val);
    }
    let bit0 = val & 0x01;
    let result = (val >> 1) | (bit0 << 7);
    store_shift_result(cpu, r, result, bit0 == 1);
}

pub fn rl_at(cpu: &mut Cpu, r: usize)
    requires
        r < 14,
    ensures
        final(cpu)@ == after_rl(old(cpu)@, r as int),
{
    let val = cpu.reg(r);
    let old_carry: u8 = if cpu.flags.get_flag(Flag::Carry) { 1 } else { 0 };
    proof {
        lemma_rotl(val);
        lemma_shl(val, old_carry);
    }
    let bit7 = (val & 0x80) >> 7;
    let result = (val << 1) | old_carry;
    store_shift_result(cpu, r, result, bit7 == 1);
}

pub fn rr_at(cpu: &mut Cpu, r: usize)
    requires
        r < 14,
    ensures
        final(cpu)@ == after_rr(old(cpu)@, r as int),
{
    let val = cpu.reg(r);
    let old_carry: u8 = if cpu.flags.get_flag(Flag::Carry) { 1 } else { 0 };
    proof {
        lemma_rotr(val);
        lemma_shr(val, old_carry);
    }
    let bit0 = val & 0x01;
    let result = (val >> 1) | (old_carry << 7);
    store_shift_result(cpu, r, result, bit0 == 1);
}

pub fn sla_at(cpu: &mut Cpu, r: usize)
    requires
        r < 14,
    ensures
        final(cpu)@ == after_sla(old(cpu)@, r as int),
{
    let val = cpu.reg(r);
    proof {
        lemma_rotl(val);
        lemma_shl(val, 0);
    }
    proof {
        crate::bits::lemma_byte_shift_left(val);
    }
    let bit7 = (val & 0x80) >> 7;
    let result = val << 1;
    store_shift_result(cpu, r, result, bit7 == 1);
}

pub fn sra_at(cpu: &mut Cpu, r: usize)
    requires
        r < 14,
    ensures
        final(cpu)@ == after_sra(old(cpu)@, r as int),
{
    let val = cpu.reg(r);
    proof {
        lemma_rotr(val);
    }
    let bit0 = val & 0x01;
    let bit7 = val & 0x80;
    let result = (val >> 1) | bit7;
    proof {
        crate::bits::lemma_byte_sra(val);
    }
    store_shift_result(cpu, r, result, bit0 == 1);
}

pub fn swap_at(cpu: &mut Cpu, r: usize)
    requires
        r < 14,
    ensures
        final(cpu)@ == after_swap(old(cpu)@, r as int),
{
    let val = cpu.reg(r);
    let result = (val << 4) | (val >> 4);
    proof {
        crate::bits::lemma_byte_shift_right(val);
    }
    store_shift_result(cpu, r, result, false);
}

pub fn srl_at(cpu: &mut Cpu, r: usize)
    requires
        r < 14,
    ensures
        final(cpu)@ == after_srl(old(cpu)@, r as int),
{
    let val = cpu.reg(r);
    proof {
        lemma_rotr(val);
    }
    let bit0 = val & 0x01;
    let result = val >> 1;
    proof {
        crate::bits::lemma_byte_shift_right(val);
    }
    store_shift_result(cpu, r, result, bit0 == 1);
}

pub fn bit_at(cpu: &mut Cpu, b: u8, r: usize)
    requires
        b < 8,
        r < 14,
    ensures
        final(cpu)@ == after_bit(old(cpu)@, b, r as int),
{
    let val = cpu.reg(r);
    let is_bit_zero = (val & (1u8 << b)) == 0;
    cpu.flags.set_flag(Flag::Zero, is_bit_zero);
    cpu.flags.set_flag(Flag::Subtract, false);
    cpu.flags.set_flag(Flag::HalfCarry, true);
}

pub fn res_at(cpu: &mut Cpu, b: u8, r: usize)
    requires
        b < 8,
        r < 14,
    ensures
        final(cpu)@ == after_res(old(cpu)@, b, r as int),
{
    let val = cpu.reg(r);
    cpu.set_reg(r, val & !(1u8 << b));
}

pub fn set_at(cpu: &mut Cpu, b: u8, r: usize)
    requires
        b < 8,
        r < 14,
    ensures
        final(cpu)@ == after_set(old(cpu)@, b, r as int),
{
    let val = cpu.reg(r);
    cpu.set_reg(r, val | (1u8 << b));
}

/// RLC r: rotates left, bit 7 into the carry.
pub fn rlc<Reg: Reg8>(cpu: &mut Cpu)
    ensures
        final(cpu)@ == after_rlc(old(cpu)@, Reg::USIZE as int),
{
    proof {
        Reg::lemma_index_in_range();
    }
    rlc_at(cpu, Reg::USIZE)
}

/// RRC r: rotates right, bit 0 into the carry.
pub fn rrc<Reg: Reg8>(cpu: &mut Cpu)
    ensures
        final(cpu)@ == after_rrc(old(cpu)@, Reg::USIZE as int),
{
    proof {
        Reg::lemma_index_in_range();
    }
    rrc_at(cpu, Reg::USIZE)
}

/// RL r: rotates left through the carry.
pub fn rl<Reg: Reg8>(cpu: &mut Cpu)
    ensures
        final(cpu)@ == after_rl(old(cpu)@, Reg::USIZE as int),
{
    proof {
        Reg::lemma_index_in_range();
    }
    rl_at(cpu, Reg::USIZE)
}

/// RR r: rotates right through the carry.
pub fn rr<Reg: Reg8>(cpu: &mut Cpu)
    ensures
        final(cpu)@ == after_rr(old(cpu)@, Reg::USIZE as int),
{
    proof {
        Reg::lemma_index_in_range();
    }
    rr_at(cpu, Reg::USIZE)
}

/// SLA r: shifts left, bit 7 into the carry.
pub fn sla<Reg: Reg8>(cpu: &mut Cpu)
    ensures
        final(cpu)@ == after_sla(old(cpu)@, Reg::USIZE as int),
{
    proof {
        Reg::lemma_index_in_range();
    }
    sla_at(cpu, Reg::USIZE)
}

/// SRA r: shifts right keeping the sign bit, bit 0 into the carry.
pub fn sra<Reg: Reg8>(cpu: &mut Cpu)
    ensures
        final(cpu)@ == after_sra(old(cpu)@, Reg::USIZE as int),
{
    proof {
        Reg::lemma_index_in_range();
    }
    sra_at(cpu, Reg::USIZE)
}

/// SWAP r: exchanges the nibbles; C cleared.
pub fn swap<Reg: Reg8>(cpu: &mut Cpu)
    ensures
        final(cpu)@ == after_swap(old(cpu)@, Reg::USIZE as int),
{
    proof {
        Reg::lemma_index_in_range();
    }
    swap_at(cpu, Reg::USIZE)
}

/// SRL r: shifts right, bit 0 into the carry.
pub fn srl<Reg: Reg8>(cpu: &mut Cpu)
    ensures
        final(cpu)@ == after_srl(old(cpu)@, Reg::USIZE as int),
{
    proof {
        Reg::lemma_index_in_range();
    }
    srl_at(cpu, Reg::USIZE)
}

/// BIT b, r: Z tells whether bit `B` is clear.
pub fn bit<const B: u8, Reg: Reg8>(cpu: &mut Cpu)
    requires
        B < 8,
    ensures
        final(cpu)@ == after_bit(old(cpu)@, B, Reg::USIZE as int),
{
    proof {
        Reg::lemma_index_in_range();
    }
    bit_at(cpu, B, Reg::USIZE)
}

/// RES b, r: clears bit `B`.
pub fn res<const B: u8, Reg: Reg8>(cpu: &mut Cpu)
    requires
        B < 8,
    ensures
        final(cpu)@ == after_res(old(cpu)@, B, Reg::USIZE as int),
{
    proof {
        Reg::lemma_index_in_range();
    }
    res_at(cpu, B, Reg::USIZE)
}

/// SET b, r: sets bit `B`.
pub fn set<const B: u8, Reg: Reg8>(cpu: &mut Cpu)
    requires
        B < 8,
    ensures
        final(cpu)@ == after_set(old(cpu)@, B, Reg::USIZE as int),
{
    proof {
        Reg::lemma_index_in_range();
    }
    set_at(cpu, B, Reg::USIZE)
}

/// RLC on a register, then the register written at HL.
pub fn write_rlc_mem<Addr: Reg16, Reg: Reg8>(cpu: &mut Cpu)
    ensures
        final(cpu)@ == write_back_at_hl(after_rlc(old(cpu)@, Reg::USIZE as int), Reg::USIZE as int),
{
    proof {
        Reg::lemma_index_in_range();
    }
    rlc_at(cpu, Reg::USIZE);
    write_memory_at(cpu, r16::HL, Reg::USIZE);
}

/// RRC on a register, then the register written at HL.
pub fn write_rrc_mem<Addr: Reg16, Reg: Reg8>(cpu: &mut Cpu)
    ensures
        final(cpu)@ == write_back_at_hl(after_rrc(old(cpu)@, Reg::USIZE as int), Reg::USIZE as int),
{
    proof {
        Reg::lemma_index_in_range();
    }
    rrc_at(cpu, Reg::USIZE);
    write_memory_at(cpu, r16::HL, Reg::USIZE);
}

/// RL on a register, then the register written at HL.
pub fn write_rl_mem<Addr: Reg16, Reg: Reg8>(cpu: &mut Cpu)
    ensures
        final(cpu)@ == write_back_at_hl(after_rl(old(cpu)@, Reg::USIZE as int), Reg::USIZE as int),
{
    proof {
        Reg::lemma_index_in_range();
    }
    rl_at(cpu, Reg::USIZE);
    write_memory_at(cpu, r16::HL, Reg::USIZE);
}

/// RR on a register, then the register written at HL.
pub fn write_rr_mem<Addr: Reg16, Reg: Reg8>(cpu: &mut Cpu)
    ensures
        final(cpu)@ == write_back_at_hl(after_rr(old(cpu)@, Reg::USIZE as int), Reg::USIZE as int),
{
    proof {
        Reg::lemma_index_in_range();
    }
    rr_at(cpu, Reg::USIZE);
    write_memory_at(cpu, r16::HL, Reg::USIZE);
}

/// SLA on a register, then the register written at HL.
pub fn write_sla_mem<Addr: Reg16, Reg: Reg8>(cpu: &mut Cpu)
    ensures
        final(cpu)@ == write_back_at_hl(after_sla(old(cpu)@, Reg::USIZE as int), Reg::USIZE as int),
{
    proof {
        Reg::lemma_index_in_range();
    }
    sla_at(cpu, Reg::USIZE);
    write_memory_at(cpu, r16::HL, Reg::USIZE);
}

/// SRA on a register, then the register written at HL.
pub fn write_sra_mem<Addr: Reg16, Reg: Reg8>(cpu: &mut Cpu)
    ensures
        final(cpu)@ == write_back_at_hl(after_sra(old(cpu)@, Reg::USIZE as int), Reg::USIZE as int),
{
    proof {
        Reg::lemma_index_in_range();
    }
    sra_at(cpu, Reg::USIZE);
    write_memory_at(cpu, r16::HL, Reg::USIZE);
}

/// SWAP on a register, then the register written at HL.
pub fn write_swap_mem<Addr: Reg16, Reg: Reg8>(cpu: &mut Cpu)
    ensures
        final(cpu)@ == write_back_at_hl(after_swap(old(cpu)@, Reg::USIZE as int), Reg::USIZE as int),
{
    proof {
        Reg::lemma_index_in_range();
    }
    swap_at(cpu, Reg::USIZE);
    write_memory_at(cpu, r16::HL, Reg::USIZE);
}

/// SRL on a register, then the register written at HL.
pub fn write_srl_mem<Addr: Reg16, Reg: Reg8>(cpu: &mut Cpu)
    ensures
        final(cpu)@ == write_back_at_hl(after_srl(old(cpu)@, Reg::USIZE as int), Reg::USIZE as int),
{
    proof {
        Reg::lemma_index_in_range();
    }
    srl_at(cpu, Reg::USIZE);
    write_memory_at(cpu, r16::HL, Reg::USIZE);
}

/// RES on a register, then the register written at HL.
pub fn write_res_mem<const B: u8, Addr: Reg16, Reg: Reg8>(cpu: &mut Cpu)
    requires
        B < 8,
    ensures
        final(cpu)@ == write_back_at_hl(after_res(old(cpu)@, B, Reg::USIZE as int), Reg::USIZE as int),
{
    proof {
        Reg::lemma_index_in_range();
    }
    res_at(cpu, B, Reg::USIZE);
    write_memory_at(cpu, r16::HL, Reg::USIZE);
}

/// SET on a register, then the register written at HL.
pub fn write_set_mem<const B: u8, Addr: Reg16, Reg: Reg8>(cpu: &mut Cpu)
    requires
        B < 8,
    ensures
        final(cpu)@ == write_back_at_hl(after_set(old(cpu)@, B, Reg::USIZE as int), Reg::USIZE as int),
{
    proof {
        Reg::lemma_index_in_range();
    }
    set_at(cpu, B, Reg::USIZE);
    write_memory_at(cpu, r16::HL, Reg::USIZE);
}

} // verus!
