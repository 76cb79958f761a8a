use vstd::prelude::*;

use crate::cpu::ops8::{after_op_rotate_left, after_op_rotate_right, after_op_sla, after_op_sr, after_op_swap};
use crate::cpu::registers::R8;
use crate::cpu::utils::{convert_source_index_to_r8, dest_field, source_field};
use crate::cpu::{Cpu, CpuView};
use crate::cpu2::defines::add16;
use crate::cpu2::instructions::other::bit_is_set;
use crate::cpu::flags_registers::FlagsRegister;

verus! {

const R8_MASK: u8 = 0b00000111;

const B3_MASK: u8 = 0b00111000;

const MIDDLE_3_BITS_MASK: u8 = 0b00111000;

const FIRST_2_BITS_MASK: u8 = 0b11000000;

/// The operand register of a CB opcode.
pub open spec fn cb_target(instruction: u8) -> R8 {
    R8::spec_from_index(source_field(instruction))
}

/// The bit number of a CB BIT, RES or SET opcode.
pub open spec fn cb_bit(instruction: u8) -> u8 {
    dest_field(instruction)
}

/// The pattern a CB opcode matches: its top two bits when they are not zero (BIT, RES,
/// SET), else its middle three bits (the eight rotations and shifts).
pub open spec fn cb_pattern(instruction: u8) -> u8 {
    if instruction >= 0x40 {
        ((instruction as int / 64) * 64) as u8
    } else {
        ((instruction as int / 8) * 8) as u8
    }
}

/// The step of PC over a CB instruction and its prefix.
pub open spec fn past_cb(s: CpuView) -> CpuView {
    s.advance(2)
}

pub open spec fn after_bit_b3_r8(s: CpuView, instruction: u8) -> CpuView {
    let v = s.r8(cb_target(instruction));
    past_cb(
        s.set_regs(
            s.regs.set_f(
                FlagsRegister { zero: !bit_is_set(v, cb_bit(instruction)), subtract: false, half_carry: true, ..s.regs.f },
            ),
        ),
    )
}

pub open spec fn after_res_b3_r8(s: CpuView, instruction: u8) -> CpuView {
    let t = cb_target(instruction);
    past_cb(s.set_r8(t, s.r8(t) & !(1u8 << cb_bit(instruction))))
}

pub open spec fn after_set_b3_r8(s: CpuView, instruction: u8) -> CpuView {
    let t = cb_target(instruction);
    past_cb(s.set_r8(t, s.r8(t) | (1u8 << cb_bit(instruction))))
}

/// The state after the CB instruction `instruction`.
pub open spec fn after_block_prefix(s: CpuView, instruction: u8) -> CpuView {
    let t = cb_target(instruction);
    let p = cb_pattern(instruction);
    if p == 0x00 {
        past_cb(after_op_rotate_left(s, t, false, false))
    } else if p == 0x08 {
        past_cb(after_op_rotate_right(s, t, false, false))
    } else if p == 0x10 {
        past_cb(after_op_rotate_left(s, t, true, false))
    } else if p == 0x18 {
        past_cb(after_op_rotate_right(s, t, true, false))
    } else if p == 0x20 {
        past_cb(after_op_sla(s, t))
    } else if p == 0x28 {
        past_cb(after_op_sr(s, t, true))
    } else if p == 0x30 {
        past_cb(after_op_swap(s, t))
    } else if p == 0x38 {
        past_cb(after_op_sr(s, t, false))
    } else if p == 0x40 {
        after_bit_b3_r8(s, instruction)
    } else if p == 0x80 {
        after_res_b3_r8(s, instruction)
    } else {
        after_set_b3_r8(s, instruction)
    }
}

/// BIT, RES and SET work on bit `(instruction >> 3) & 7` of the operand named by
/// `instruction & 7` (B, C, D, E, H, L, (HL), A). BIT sets Z exactly when that bit is
/// clear, clears N, raises H and keeps C and the operand; RES clears that bit and SET
/// raises it, each keeping every other bit of the operand and the flags.
pub proof fn lemma_cb_bit_operations(s: CpuView, instruction: u8)
    requires
        instruction >= 0x40,
        s.regs.r8.len() == 8,
        s.mem.len() == 65536,
    ensures
        ({
            let b = (instruction >> 3) & 7;
            let mask = 1u8 << b;
            let t = after_block_prefix(s, instruction);
            let code = instruction & 7;
            let operand = R8::spec_from_index(code);
            let old_v = s.r8(operand);
            let new_v = t.r8(operand);
            &&& operand.spec_index() == code
            &&& instruction < 0x80 ==> {
                &&& t.regs.f.zero == (old_v & mask == 0)
                &&& !t.regs.f.subtract && t.regs.f.half_carry
                &&& t.regs.f.carry == s.regs.f.carry
                &&& t.regs.r8 == s.regs.r8
                &&& t.mem == s.mem
            }
            &&& 0x80 <= instruction < 0xC0 ==> {
                &&& new_v & mask == 0
                &&& new_v | mask == old_v | mask
                &&& t.regs.f == s.regs.f
            }
            &&& instruction >= 0xC0 ==> {
                &&& new_v & mask == mask
                &&& new_v & !mask == old_v & !mask
                &&& t.regs.f == s.regs.f
            }
            &&& t.pc == add16(s.pc as int, 2)
        }),
{
    let b = (instruction >> 3) & 7;
    let v = s.r8(cb_target(instruction));
    crate::bits::lemma_byte_fields(instruction);
    assert((instruction >> 3) & 7 == (instruction / 8) % 8) by (bit_vector);
    assert(cb_bit(instruction) == b);
    assert(b < 8 ==> ((v & !(1u8 << b)) & (1u8 << b) == 0 && (v & !(1u8 << b)) | (1u8 << b) == v | (1u8 << b)))
        by (bit_vector);
    assert(b < 8 ==> ((v | (1u8 << b)) & (1u8 << b) == (1u8 << b) && (v | (1u8 << b)) & !(1u8 << b) == v & !(1u8 << b)))
        by (bit_vector);
}

/// Machine cycles of a CB instruction: 8 on a register, 16 on `(HL)`, 12 for BIT on `(HL)`.
pub open spec fn cb_cycles(instruction: u8) -> u8 {
    if source_field(instruction) == 6 {
        if cb_pattern(instruction) == 0x40 { 12 } else { 16 }
    } else {
        8
    }
}

fn get_instruction_block_prefix(instruction: u8) -> (r: u8)
    ensures
        r == cb_pattern(instruction),
{
    proof {
        crate::bits::lemma_byte_fields(instruction);
    }
    if (instruction & FIRST_2_BITS_MASK) != 0 {
        instruction & FIRST_2_BITS_MASK
    } else {
        instruction & MIDDLE_3_BITS_MASK
    }
}

/// Runs the CB-prefixed instruction `instruction` (the byte after the prefix) and
/// returns its machine cycles.
pub fn execute_instruction_block_prefix(cpu: &mut Cpu, instruction: u8) -> (r: u8)
    ensures
        final(cpu)@ == after_block_prefix(old(cpu)@, instruction),
        r == cb_cycles(instruction),
{
    let opcode = get_instruction_block_prefix(instruction);
    if opcode == 0b00000000 {
        rlc_r8(cpu, instruction);
    } else if opcode == 0b00001000 {
        rrc_r8(cpu, instruction);
    } else if opcode == 0b00010000 {
        rl(cpu, instruction);
    } else if opcode == 0b00011000 {
        rr(cpu, instruction);
    } else if opcode == 0b00100000 {
        sla_r8(cpu, instruction);
    } else if opcode == 0b00101000 {
        sr_r8(cpu, instruction, true);
    } else if opcode == 0b00110000 {
        swap_r8(cpu, instruction);
    } else if opcode == 0b00111000 {
        sr_r8(cpu, instruction, false);
    } else if opcode == 0b01000000 {
        bit_b3_r8(cpu, instruction);
    } else if opcode == 0b10000000 {
        res_b3_r8(cpu, instruction);
    } else {
        set_b3_r8(cpu, instruction);
    }
    let is_hl = (instruction & 0x07) == 0x06;
    let is_bit = (instruction & 0xC0) == 0x40;
    assert(is_hl == (source_field(instruction) == 6) && is_bit == (cb_pattern(instruction) == 0x40)) by {
        crate::bits::lemma_byte_fields(instruction);
    }
    if is_hl {
        if is_bit { 12 } else { 16 }
    } else {
        8
    }
}

/// RLC r.
pub fn rlc_r8(cpu: &mut Cpu, instruction: u8)
    ensures
        final(cpu)@ == past_cb(after_op_rotate_left(old(cpu)@, cb_target(instruction), false, false)),
{
    let r8: R8 = convert_source_index_to_r8(instruction);
    cpu.op_rotate_left(r8, false, false);
    cpu.pc = cpu.pc.wrapping_add(2);
}

/// RRC r.
pub fn rrc_r8(cpu: &mut Cpu, instruction: u8)
    ensures
        final(cpu)@ == past_cb(after_op_rotate_right(old(cpu)@, cb_target(instruction), false, false)),
{
    let r8: R8 = convert_source_index_to_r8(instruction);
    cpu.op_rotate_right(r8, false, false);
    cpu.pc = cpu.pc.wrapping_add(2);
}

/// RL r.
pub fn rl(cpu: &mut Cpu, instruction: u8)
    ensures
        final(cpu)@ == past_cb(after_op_rotate_left(old(cpu)@, cb_target(instruction), true, false)),
{
    let r8: R8 = convert_source_index_to_r8(instruction);
    cpu.op_rotate_left(r8, true, false);
    cpu.pc = cpu.pc.wrapping_add(2);
}

/// RR r.
pub fn rr(cpu: &mut Cpu, instruction: u8)
    ensures
        final(cpu)@ == past_cb(after_op_rotate_right(old(cpu)@, cb_target(instruction), true, false)),
{
    let r8: R8 = convert_source_index_to_r8(instruction);
    cpu.op_rotate_right(r8, true, false);
    cpu.pc = cpu.pc.wrapping_add(2);
}

/// SLA r.
pub fn sla_r8(cpu: &mut Cpu, instruction: u8)
    ensures
        final(cpu)@ == past_cb(after_op_sla(old(cpu)@, cb_target(instruction))),
{
    let r8: R8 = convert_source_index_to_r8(instruction);
    cpu.op_sla(r8);
    cpu.pc = cpu.pc.wrapping_add(2);
}

/// SRA r (`arithmetic`) or SRL r.
pub fn sr_r8(cpu: &mut Cpu, instruction: u8, arithmetic: bool)
    ensures
        final(cpu)@ == past_cb(after_op_sr(old(cpu)@, cb_target(instruction), arithmetic)),
{
    let r8: R8 = convert_source_index_to_r8(instruction);
    cpu.op_sr(r8, arithmetic);
    cpu.pc = cpu.pc.wrapping_add(2);
}

/// SWAP r.
pub fn swap_r8(cpu: &mut Cpu, instruction: u8)
    ensures
        final(cpu)@ == past_cb(after_op_swap(old(cpu)@, cb_target(instruction))),
{
    let r8: R8 = convert_source_index_to_r8(instruction);
    cpu.op_swap(r8);
    cpu.pc = cpu.pc.wrapping_add(2);
}

/// BIT b, r.
pub fn bit_b3_r8(cpu: &mut Cpu, instruction: u8)
    ensures
        final(cpu)@ == after_bit_b3_r8(old(cpu)@, instruction),
{
    let r8: R8 = convert_source_index_to_r8(instruction);
    let b3 = (instruction & B3_MASK) >> 3;
    proof {
        crate::bits::lemma_byte_fields(instruction);
    }
    let r8_value = cpu.get_r8_value(r8);
    cpu.registers.set_zero_flag((r8_value & (1u8 << b3)) == 0);
    cpu.registers.set_subtract_flag(false);
    cpu.registers.set_half_carry_flag(true);
    cpu.pc = cpu.pc.wrapping_add(2);
}

/// RES b, r.
pub fn res_b3_r8(cpu: &mut Cpu, instruction: u8)
    ensures
        final(cpu)@ == after_res_b3_r8(old(cpu)@, instruction),
{
    let r8: R8 = convert_source_index_to_r8(instruction);
    let b3 = (instruction & B3_MASK) >> 3;
    proof {
        crate::bits::lemma_byte_fields(instruction);
    }
    let r8_value = cpu.get_r8_value(r8);
    let new_value = r8_value & !(1u8 << b3);
    cpu.set_r8_value(r8, new_value);
    cpu.pc = cpu.pc.wrapping_add(2);
}

/// SET b, r.
pub fn set_b3_r8(cpu: &mut Cpu, instruction: u8)
    ensures
        final(cpu)@ == after_set_b3_r8(old(cpu)@, instruction),
{
    let r8: R8 = convert_source_index_to_r8(instruction);
    let b3 = (instruction & B3_MASK) >> 3;
    proof {
        crate::bits::lemma_byte_fields(instruction);
    }
    let mut r8_value = cpu.get_r8_value(r8);
    r8_value = r8_value | (1u8 << b3);
    cpu.set_r8_value(r8, r8_value);
    cpu.pc = cpu.pc.wrapping_add(2);
}

} // verus!
