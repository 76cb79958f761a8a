use vstd::prelude::*;

use crate::cpu::conditions::{cond_holds, Cond};
use crate::cpu::flags_registers::FlagsRegister;
use crate::cpu::registers::{R16, R16Mem, R8};
use crate::cpu::utils::{
    after_modify_hl, cond_field, convert_dest_index_to_r8, convert_index_to_r16, convert_index_to_r16_mem,
    dest_field, get_imm16, imm16, modify_hl, pair_field,
};
use crate::cpu::{Cpu, CpuView};
use crate::cpu2::defines::{add16, add8, hi_byte, lo_byte, sub8};
use crate::cpu2::instructions::cond::signed_offset;
use crate::cpu2::instructions::other::{daa_carry, daa_result};
use crate::cpu::ops8::carry_bit;
use crate::cpu2::instructions::other::{rotl8, rotr8, shl8, shr8};
use crate::cpu::registers::shift_flags;

verus! {

const COND_MASK: u8 = 0b00011000;

const LAST_3_BITS_MASK: u8 = 0b00000111;

const LAST_4_BITS_MASK: u8 = 0b00001111;

const FIRST_3_BITS_MASK: u8 = 0b11100000;

/// The pattern a block-0 opcode matches: the exact opcode for NOP, `LD (a16), SP`,
/// STOP, `JR e`, the eight accumulator operations and the conditional JR (`0x20` for
/// all four conditions); the low four bits for the pair operations (`0x01`, `0x02`,
/// `0x03`, `0x09`, `0x0A`, `0x0B`); the low three bits for `INC r`, `DEC r`, `LD r, n`.
pub open spec fn block0_pattern(instruction: u8) -> u8 {
    let low3 = instruction % 8;
    if low3 == 0 {
        if instruction >= 0x20 { 0x20 } else { instruction }
    } else if low3 == 7 {
        instruction
    } else if low3 >= 4 {
        low3
    } else {
        instruction % 16
    }
}

/// The register pair of a block-0 opcode.
pub open spec fn op_r16(instruction: u8) -> R16 {
    R16::spec_from_index(pair_field(instruction))
}

/// The memory operand of a block-0 opcode.
pub open spec fn op_r16_mem(instruction: u8) -> R16Mem {
    R16Mem::spec_from_index(pair_field(instruction))
}

/// The 8-bit register of a block-0 opcode.
pub open spec fn op_r8(instruction: u8) -> R8 {
    R8::spec_from_index(dest_field(instruction))
}

pub open spec fn after_noop(s: CpuView) -> CpuView {
    s.advance(1)
}

pub open spec fn after_load_r16_imm16(s: CpuView, instruction: u8) -> CpuView {
    s.set_regs(s.regs.set_pair(op_r16(instruction), imm16(s))).advance(3)
}

pub open spec fn after_load_r16mem_a(s: CpuView, instruction: u8) -> CpuView {
    let m = op_r16_mem(instruction);
    let addr = s.regs.pair(R16::spec_from_mem(m));
    after_modify_hl(s.set_mem(addr, s.regs.reg(R8::A)), m).advance(1)
}

pub open spec fn after_load_a_r16mem(s: CpuView, instruction: u8) -> CpuView {
    let m = op_r16_mem(instruction);
    let v = s.byte(s.regs.pair(R16::spec_from_mem(m)) as int);
    after_modify_hl(s.set_r8(R8::A, v), m).advance(1)
}

pub open spec fn after_load_mem_imm16_sp(s: CpuView) -> CpuView {
    let a = imm16(s);
    s.set_mem(a, lo_byte(s.regs.sp)).set_mem((a + 1) as u16, hi_byte(s.regs.sp)).advance(3)
}

pub open spec fn after_inc_r16(s: CpuView, instruction: u8) -> CpuView {
    let r = op_r16(instruction);
    s.set_regs(s.regs.set_pair(r, add16(s.regs.pair(r) as int, 1))).advance(1)
}

pub open spec fn after_dec_r16(s: CpuView, instruction: u8) -> CpuView {
    let r = op_r16(instruction);
    s.set_regs(s.regs.set_pair(r, add16(s.regs.pair(r) as int, -1))).advance(1)
}

pub open spec fn after_add_hl_r16(s: CpuView, instruction: u8) -> CpuView {
    let hl = s.regs.pair(R16::HL);
    let v = s.regs.pair(op_r16(instruction));
    s.set_regs(
        s.regs.set_pair(R16::HL, add16(hl as int, v as int)).set_f(
            FlagsRegister { zero: s.regs.f.zero, subtract: false, half_carry: hl % 4096 + v % 4096 > 4095, carry: hl + v > 65535 },
        ),
    ).advance(1)
}

pub open spec fn after_inc_r8(s: CpuView, instruction: u8) -> CpuView {
    let t = op_r8(instruction);
    let v = s.r8(t);
    let n = add8(v as int, 1);
    let s1 = s.set_regs(s.regs.set_f(FlagsRegister { zero: n == 0, subtract: false, half_carry: v % 16 == 15, ..s.regs.f }));
    s1.set_r8(t, n).advance(1)
}

pub open spec fn after_dec_r8(s: CpuView, instruction: u8) -> CpuView {
    let t = op_r8(instruction);
    let v = s.r8(t);
    let n = sub8(v as int, 1);
    let s1 = s.set_regs(s.regs.set_f(FlagsRegister { zero: n == 0, subtract: true, half_carry: v % 16 == 0, ..s.regs.f }));
    s1.set_r8(t, n).advance(1)
}

pub open spec fn after_ld_r8_imm8(s: CpuView, instruction: u8) -> CpuView {
    s.set_r8(op_r8(instruction), s.byte(s.pc + 1)).advance(2)
}

/// RLCA (`carry` false) or RLA (`carry` true): Z always cleared.
pub open spec fn after_rotate_left(s: CpuView, carry: bool) -> CpuView {
    let a = s.regs.reg(R8::A);
    let result = if carry { shl8(a, carry_bit(s)) } else { rotl8(a) };
    s.set_regs(s.regs.set_reg(R8::A, result).set_f(shift_flags(result, true, a >= 0x80))).advance(1)
}

/// RRCA (`carry` true) or RRA (`carry` false): Z always cleared.
pub open spec fn after_rotate_right(s: CpuView, carry: bool) -> CpuView {
    let a = s.regs.reg(R8::A);
    let result = if carry { rotr8(a) } else { shr8(a, carry_bit(s)) };
    s.set_regs(s.regs.set_reg(R8::A, result).set_f(shift_flags(result, true, a % 2 == 1))).advance(1)
}

pub open spec fn after_daa(s: CpuView) -> CpuView {
    let a = s.regs.reg(R8::A);
    let f = s.regs.f;
    let result = daa_result(a, f.subtract, f.half_carry, f.carry);
    s.set_regs(
        s.regs.set_reg(R8::A, result).set_f(
            FlagsRegister { zero: result == 0, half_carry: false, carry: daa_carry(a, f.subtract, f.carry), ..f },
        ),
    ).advance(1)
}

pub open spec fn after_cpl(s: CpuView) -> CpuView {
    s.set_regs(
        s.regs.set_reg(R8::A, (255 - s.regs.reg(R8::A)) as u8).set_f(
            FlagsRegister { subtract: true, half_carry: true, ..s.regs.f },
        ),
    ).advance(1)
}

pub open spec fn after_scf(s: CpuView) -> CpuView {
    s.set_regs(s.regs.set_f(FlagsRegister { subtract: false, half_carry: false, carry: true, ..s.regs.f })).advance(1)
}

pub open spec fn after_ccf(s: CpuView) -> CpuView {
    s.set_regs(s.regs.set_f(FlagsRegister { subtract: false, half_carry: false, carry: !s.regs.f.carry, ..s.regs.f })).advance(
        1,
    )
}

/// Whether a JR jumps: always when unconditional, else when its condition holds.
pub open spec fn jr_taken(s: CpuView, instruction: u8, has_cond: bool) -> bool {
    !has_cond || cond_holds(Cond::spec_from_index(cond_field(instruction)), s.regs.f)
}

/// JR: PC past the two bytes plus the signed offset when taken, past the two bytes otherwise.
pub open spec fn after_jr(s: CpuView, instruction: u8, has_cond: bool) -> CpuView {
    if jr_taken(s, instruction, has_cond) {
        s.set_pc(add16(s.pc + 2, signed_offset(s.byte(s.pc + 1))))
    } else {
        s.advance(2)
    }
}

/// Whether the block-0 instruction can run: the bytes it reads after PC and the word it
/// writes lie inside the address space.
pub open spec fn block0_runs(s: CpuView, instruction: u8) -> bool {
    let p = block0_pattern(instruction);
    if p == 0x00 || p == 0x03 || p == 0x0B || p == 0x06 || p == 0x18 {
        s.pc < 0xFFFF
    } else if p == 0x20 {
        jr_taken(s, instruction, true) ==> s.pc < 0xFFFF
    } else if p == 0x01 {
        s.pc <= 0xFFFD
    } else if p == 0x08 {
        s.pc <= 0xFFFD && imm16(s) < 0xFFFF
    } else {
        true
    }
}

/// The state after the block-0 instruction `instruction`.
pub open spec fn after_block0(s: CpuView, instruction: u8) -> CpuView {
    let p = block0_pattern(instruction);
    if p == 0x00 {
        after_noop(s)
    } else if p == 0x01 {
        after_load_r16_imm16(s, instruction)
    } else if p == 0x02 {
        after_load_r16mem_a(s, instruction)
    } else if p == 0x03 {
        after_inc_r16(s, instruction)
    } else if p == 0x04 {
        after_inc_r8(s, instruction)
    } else if p == 0x05 {
        after_dec_r8(s, instruction)
    } else if p == 0x06 {
        after_ld_r8_imm8(s, instruction)
    } else if p == 0x07 {
        after_rotate_left(s, false)
    } else if p == 0x08 {
        after_load_mem_imm16_sp(s)
    } else if p == 0x09 {
        after_add_hl_r16(s, instruction)
    } else if p == 0x0A {
        after_load_a_r16mem(s, instruction)
    } else if p == 0x0B {
        after_dec_r16(s, instruction)
    } else if p == 0x0F {
        after_rotate_right(s, true)
    } else if p == 0x10 {
        s.advance(1)
    } else if p == 0x17 {
        after_rotate_left(s, true)
    } else if p == 0x18 {
        after_jr(s, instruction, false)
    } else if p == 0x1F {
        after_rotate_right(s, false)
    } else if p == 0x20 {
        after_jr(s, instruction, true)
    } else if p == 0x27 {
        after_daa(s)
    } else if p == 0x2F {
        after_cpl(s)
    } else if p == 0x37 {
        after_scf(s)
    } else {
        after_ccf(s)
    }
}

/// Machine cycles of a block-0 instruction.
pub open spec fn block0_cycles(s: CpuView, instruction: u8) -> u8 {
    let p = block0_pattern(instruction);
    if p == 0x01 {
        12
    } else if p == 0x02 || p == 0x03 || p == 0x06 || p == 0x09 || p == 0x0A || p == 0x0B {
        8
    } else if p == 0x08 {
        20
    } else if p == 0x18 {
        12
    } else if p == 0x20 {
        if jr_taken(s, instruction, true) { 12 } else { 8 }
    } else {
        4
    }
}

fn get_instruction_block0(instruction: u8) -> (r: u8)
    requires
        instruction < 0x40,
    ensures
        r == block0_pattern(instruction),
{
    let low3 = instruction & LAST_3_BITS_MASK;
    proof {
        crate::bits::lemma_byte_fields(instruction);
    }
    if low3 == 0 {
        if instruction >= 0x20 {
            0x20
        } else {
            instruction
        }
    } else if low3 == 7 {
        instruction
    } else if low3 >= 4 {
        low3
    } else {
        instruction & LAST_4_BITS_MASK
    }
}

/// Runs the block-0 opcode `instruction` (0x00 to 0x3F) and returns its machine cycles.
pub fn execute_instruction_block0(cpu: &mut Cpu, instruction: u8) -> (r: u8)
    requires
        instruction < 0x40,
        block0_runs(old(cpu)@, instruction),
    ensures
        final(cpu)@ == after_block0(old(cpu)@, instruction),
        r == block0_cycles(old(cpu)@, instruction),
{
    let opcode = get_instruction_block0(instruction);
    assert(instruction % 8 == 0 ==> opcode == 0x00 || opcode == 0x08 || opcode == 0x10 || opcode == 0x18 || opcode == 0x20);
    if opcode == 0b00000000 {
        noop(cpu)
    } else if opcode == 0b00000001 {
        load_r16_imm16(cpu, instruction)
    } else if opcode == 0b00000010 {
        load_r16mem_a(cpu, instruction)
    } else if opcode == 0b00000011 {
        inc_r16(cpu, instruction)
    } else if opcode == 0b00000100 {
        inc_r8(cpu, instruction)
    } else if opcode == 0b00000101 {
        dec_r8(cpu, instruction)
    } else if opcode == 0b00000110 {
        ld_r8_imm8(cpu, instruction)
    } else if opcode == 0b00000111 {
        rotate_left(cpu, false)
    } else if opcode == 0b00001000 {
        load_mem_imm16_sp(cpu)
    } else if opcode == 0b00001001 {
        add_hl_r16(cpu, instruction)
    } else if opcode == 0b00001010 {
        load_a_r16mem(cpu, instruction)
    } else if opcode == 0b00001011 {
        dec_r16(cpu, instruction)
    } else if opcode == 0b00001111 {
        rotate_right(cpu, true)
    } else if opcode == 0b00010000 {
        stop(cpu)
    } else if opcode == 0b00010111 {
        rotate_left(cpu, true)
    } else if opcode == 0b00011000 {
        jr(cpu, instruction, false)
    } else if opcode == 0b00011111 {
        rotate_right(cpu, false)
    } else if opcode == 0b00100000 {
        jr(cpu, instruction, true)
    } else if opcode == 0b00100111 {
        daa(cpu)
    } else if opcode == 0b00101111 {
        cpl(cpu)
    } else if opcode == 0b00110111 {
        scf(cpu)
    } else {
        ccf(cpu)
    }
}

fn noop(cpu: &mut Cpu) -> (r: u8)
    requires
        old(cpu).pc < 0xFFFF,
    ensures
        final(cpu)@ == after_noop(old(cpu)@),
        r == 4,
{
    cpu.pc = cpu.pc + 1;
    4
}

fn load_r16_imm16(cpu: &mut Cpu, instruction: u8) -> (r: u8)
    requires
        old(cpu).pc <= 0xFFFD,
    ensures
        final(cpu)@ == after_load_r16_imm16(old(cpu)@, instruction),
        r == 12,
{
    let imm16 = get_imm16(cpu);
    let r16 = convert_index_to_r16(instruction);
    cpu.registers.set_r16_value(r16, imm16);
    cpu.pc = cpu.pc.wrapping_add(3);
    12
}

fn load_r16mem_a(cpu: &mut Cpu, instruction: u8) -> (r: u8)
    ensures
        final(cpu)@ == after_load_r16mem_a(old(cpu)@, instruction),
        r == 8,
{
    let r16_mem = convert_index_to_r16_mem(instruction);
    let a_value = cpu.registers.get_a();
    cpu.registers.set_r16_mem_value(&mut cpu.bus, R16::from_mem(r16_mem), a_value);
    if r16_mem == R16Mem::HLincrement || r16_mem == R16Mem::HLdecrement {
        modify_hl(cpu, r16_mem);
    }
    cpu.pc = cpu.pc.wrapping_add(1);
    8
}

fn load_a_r16mem(cpu: &mut Cpu, instruction: u8) -> (r: u8)
    ensures
        final(cpu)@ == after_load_a_r16mem(old(cpu)@, instruction),
        r == 8,
{
    let r16_mem = convert_index_to_r16_mem(instruction);
    let value = cpu.registers.get_r16_mem_value(&cpu.bus, R16::from_mem(r16_mem));
    cpu.set_r8_value(R8::A, value);
    if r16_mem == R16Mem::HLincrement || r16_mem == R16Mem::HLdecrement {
        modify_hl(cpu, r16_mem);
    }
    cpu.pc = cpu.pc.wrapping_add(1);
    8
}

fn load_mem_imm16_sp(cpu: &mut Cpu) -> (r: u8)
    requires
        old(cpu).pc <= 0xFFFD,
        imm16(old(cpu)@) < 0xFFFF,
    ensures
        final(cpu)@ == after_load_mem_imm16_sp(old(cpu)@),
        r == 20,
{
    let sp = cpu.registers.get_sp();
    proof {
        crate::bits::lemma_word_parts(sp);
    }
    let sp_msb = (sp >> 8) as u8;
    let sp_lsb = (sp & 0xFF) as u8;
    let imm16 = get_imm16(cpu);
    cpu.bus.write_byte(imm16, sp_lsb);
    cpu.bus.write_byte(imm16 + 1, sp_msb);
    cpu.pc = cpu.pc.wrapping_add(3);
    20
}

fn inc_r16(cpu: &mut Cpu, instruction: u8) -> (r: u8)
    requires
        old(cpu).pc < 0xFFFF,
    ensures
        final(cpu)@ == after_inc_r16(old(cpu)@, instruction),
        r == 8,
{
    let r16 = convert_index_to_r16(instruction);
    let value = cpu.registers.get_r16_value(r16);
    cpu.registers.set_r16_value(r16, value.wrapping_add(1));
    cpu.pc = cpu.pc + 1;
    8
}

fn dec_r16(cpu: &mut Cpu, instruction: u8) -> (r: u8)
    requires
        old(cpu).pc < 0xFFFF,
    ensures
        final(cpu)@ == after_dec_r16(old(cpu)@, instruction),
        r == 8,
{
    let r16 = convert_index_to_r16(instruction);
    let value = cpu.registers.get_r16_value(r16);
    cpu.registers.set_r16_value(r16, value.wrapping_sub(1));
    cpu.pc = cpu.pc + 1;
    8
}

fn add_hl_r16(cpu: &mut Cpu, instruction: u8) -> (r: u8)
    ensures
        final(cpu)@ == after_add_hl_r16(old(cpu)@, instruction),
        r == 8,
{
    let r16 = convert_index_to_r16(instruction);
    let value = cpu.registers.get_r16_value(r16);
    cpu.registers.add_to_r16(R16::HL, value);
    cpu.pc = cpu.pc.wrapping_add(1);
    8
}

fn inc_r8(cpu: &mut Cpu, instruction: u8) -> (r: u8)
    ensures
        final(cpu)@ == after_inc_r8(old(cpu)@, instruction),
        r == 4,
{
    let r8 = convert_dest_index_to_r8(instruction);
    let value = cpu.get_r8_value(r8);
    let new_value = value.wrapping_add(1);
    cpu.registers.set_zero_flag(new_value == 0);
    cpu.registers.set_subtract_flag(false);
    proof {
        crate::bits::lemma_byte_fields(value);
    }
    cpu.registers.set_half_carry_flag((value & 0x0F) + 1 > 0x0F);
    cpu.set_r8_value(r8, new_value);
    cpu.pc = cpu.pc.wrapping_add(1);
    4
}

fn dec_r8(cpu: &mut Cpu, instruction: u8) -> (r: u8)
    ensures
        final(cpu)@ == after_dec_r8(old(cpu)@, instruction),
        r == 4,
{
    let r8 = convert_dest_index_to_r8(instruction);
    let value = cpu.get_r8_value(r8);
    let new_value = value.wrapping_sub(1);
    cpu.registers.set_zero_flag(new_value == 0);
    cpu.registers.set_subtract_flag(true);
    proof {
        crate::bits::lemma_byte_fields(value);
    }
    cpu.registers.set_half_carry_flag((value & 0x0F) == 0x00);
    cpu.set_r8_value(r8, new_value);
    cpu.pc = cpu.pc.wrapping_add(1);
    4
}

fn ld_r8_imm8(cpu: &mut Cpu, instruction: u8) -> (r: u8)
    requires
        old(cpu).pc < 0xFFFF,
    ensures
        final(cpu)@ == after_ld_r8_imm8(old(cpu)@, instruction),
        r == 8,
{
    let imm8 = cpu.bus.read_byte(cpu.pc + 1);
    let r8 = convert_dest_index_to_r8(instruction);
    cpu.set_r8_value(r8, imm8);
    cpu.pc = cpu.pc.wrapping_add(2);
    8
}

fn rotate_left(cpu: &mut Cpu, carry: bool) -> (r: u8)
    ensures
        final(cpu)@ == after_rotate_left(old(cpu)@, carry),
        r == 4,
{
    cpu.registers.rotate_left(R8::A, carry, true);
    cpu.pc = cpu.pc.wrapping_add(1);
    4
}

fn rotate_right(cpu: &mut Cpu, carry: bool) -> (r: u8)
    ensures
        final(cpu)@ == after_rotate_right(old(cpu)@, carry),
        r == 4,
{
    cpu.registers.rotate_right(R8::A, carry, true);
    cpu.pc = cpu.pc.wrapping_add(1);
    4
}

fn daa(cpu: &mut Cpu) -> (r: u8)
    ensures
        final(cpu)@ == after_daa(old(cpu)@),
        r == 4,
{
    let mut adjust: u8 = 0;
    let mut a = cpu.registers.get_a();
    let a0 = a;
    proof {
        crate::bits::lemma_low_nibble(a);
    }
    if cpu.registers.get_subtract_flag() {
        if cpu.registers.get_half_carry_flag() {
            adjust = adjust + 0x6;
        }
        if cpu.registers.get_carry_flag() {
            adjust = adjust + 0x60;
        }
        a = a.wrapping_sub(adjust);
        cpu.set_r8_value(R8::A, a);
    } else {
        if cpu.registers.get_half_carry_flag() || (a & 0xF) > 0x9 {
            adjust = adjust + 0x6;
        }
        if cpu.registers.get_carry_flag() || a > 0x99 {
            adjust = adjust + 0x60;
            cpu.registers.set_carry_flag(true);
        }
        a = a.wrapping_add(adjust);
        cpu.set_r8_value(R8::A, a);
    }
    cpu.registers.set_zero_flag(a == 0);
    cpu.registers.set_half_carry_flag(false);
    cpu.pc = cpu.pc.wrapping_add(1);
    4
}

fn cpl(cpu: &mut Cpu) -> (r: u8)
    ensures
        final(cpu)@ == after_cpl(old(cpu)@),
        r == 4,
{
    let a = cpu.get_r8_value(R8::A);
    proof {
        crate::bits::lemma_byte_fields(a);
    }
    let new_value = !a;
    cpu.set_r8_value(R8::A, new_value);
    cpu.registers.set_subtract_flag(true);
    cpu.registers.set_half_carry_flag(true);
    cpu.pc = cpu.pc.wrapping_add(1);
    4
}

fn scf(cpu: &mut Cpu) -> (r: u8)
    ensures
        final(cpu)@ == after_scf(old(cpu)@),
        r == 4,
{
    cpu.registers.set_subtract_flag(false);
    cpu.registers.set_half_carry_flag(false);
    cpu.registers.set_carry_flag(true);
    cpu.pc = cpu.pc.wrapping_add(1);
    4
}

fn ccf(cpu: &mut Cpu) -> (r: u8)
    ensures
        final(cpu)@ == after_ccf(old(cpu)@),
        r == 4,
{
    let carry_value = cpu.registers.get_carry_flag();
    cpu.registers.set_subtract_flag(false);
    cpu.registers.set_half_carry_flag(false);
    cpu.registers.set_carry_flag(!carry_value);
    cpu.pc = cpu.pc.wrapping_add(1);
    4
}

fn convert_index_to_cond(instruction: u8) -> (r: Cond)
    ensures
        r == Cond::spec_from_index(cond_field(instruction)),
{
    let cond_index = (instruction & COND_MASK) >> 3;
    proof {
        crate::bits::lemma_byte_fields(instruction);
    }
    Cond::from_index(cond_index)
}

fn jr(cpu: &mut Cpu, instruction: u8, has_cond: bool) -> (r: u8)
    requires
        jr_taken(old(cpu)@, instruction, has_cond) ==> old(cpu).pc < 0xFFFF,
    ensures
        final(cpu)@ == after_jr(old(cpu)@, instruction, has_cond),
        r == if jr_taken(old(cpu)@, instruction, has_cond) { 12u8 } else { 8u8 },
{
    if has_cond {
        let cond = convert_index_to_cond(instruction);
        if !cond.test(&mut cpu.registers) {
            cpu.pc = cpu.pc.wrapping_add(2);
            return 8;
        }
    }
    let byte = cpu.bus.read_byte(cpu.pc + 1);
    let offset: i32 = if byte >= 0x80 { byte as i32 - 256 } else { byte as i32 };
    let target = (cpu.pc as i32) + 2 + offset;
    cpu.pc = if target < 0 {
        (target + 65536) as u16
    } else if target > 0xFFFF {
        (target - 65536) as u16
    } else {
        target as u16
    };
    12
}

fn stop(cpu: &mut Cpu) -> (r: u8)
    ensures
        final(cpu)@ == old(cpu)@.advance(1),
        r == 4,
{
    cpu.pc = cpu.pc.wrapping_add(1);
    4
}

} // verus!
