use vstd::prelude::*;

use crate::cpu::conditions::Cond;
use crate::cpu::registers::{R16, R16Mem, R8};
use crate::cpu::{Cpu, CpuView};
use crate::cpu2::defines::{add16, word};

verus! {

pub const R16_MASK: u8 = 0b00110000;

pub const DEST_R8_MASK: u8 = 0b00111000;

pub const SOURCE_R8_MASK: u8 = 0b00000111;

pub const COND_MASK: u8 = 0b00011000;

/// Bits 5-4 of an opcode: the register pair field.
pub open spec fn pair_field(instruction: u8) -> u8 {
    ((instruction as int / 16) % 4) as u8
}

/// Bits 5-3 of an opcode: the destination register field.
pub open spec fn dest_field(instruction: u8) -> u8 {
    ((instruction as int / 8) % 8) as u8
}

/// Bits 2-0 of an opcode: the source register field.
pub open spec fn source_field(instruction: u8) -> u8 {
    (instruction as int % 8) as u8
}

/// Bits 4-3 of an opcode: the condition field.
pub open spec fn cond_field(instruction: u8) -> u8 {
    ((instruction as int / 8) % 4) as u8
}

/// The 16-bit immediate that follows the opcode at PC, little-endian.
pub open spec fn imm16(s: CpuView) -> u16 {
    word(s.byte(s.pc + 2), s.byte(s.pc + 1))
}

/// The two bytes after the opcode, low byte first; PC must leave room for them.
pub fn get_imm16(cpu: &Cpu) -> (r: u16)
    requires
        cpu.pc <= 0xFFFD,
    ensures
        r == imm16(cpu@),
{
    let lsb = cpu.bus.read_byte(cpu.pc + 1) as u16;
    let msb = cpu.bus.read_byte(cpu.pc + 2) as u16;
    proof {
        crate::bits::lemma_word_from_small(msb, lsb);
    }
    (msb << 8) | lsb
}

/// The register pair named by bits 5-4.
pub fn convert_index_to_r16(instruction: u8) -> (r: R16)
    ensures
        r == R16::spec_from_index(pair_field(instruction)),
{
    let r16_index = (instruction & R16_MASK) >> 4;
    proof {
        crate::bits::lemma_byte_fields(instruction);
    }
    R16::from_index(r16_index)
}

/// The memory operand named by bits 5-4.
pub fn convert_index_to_r16_mem(instruction: u8) -> (r: R16Mem)
    ensures
        r == R16Mem::spec_from_index(pair_field(instruction)),
{
    let r16_index = (instruction & R16_MASK) >> 4;
    proof {
        crate::bits::lemma_byte_fields(instruction);
    }
    R16Mem::from_index(r16_index)
}

/// The destination register named by bits 5-3.
pub fn convert_dest_index_to_r8(instruction: u8) -> (r: R8)
    ensures
        r == R8::spec_from_index(dest_field(instruction)),
{
    let r8_index: u8 = (instruction & DEST_R8_MASK) >> 3;
    proof {
        crate::bits::lemma_byte_fields(instruction);
    }
    R8::from_index(r8_index)
}

/// The source register named by bits 2-0.
pub fn convert_source_index_to_r8(instruction: u8) -> (r: R8)
    ensures
        r == R8::spec_from_index(source_field(instruction)),
{
    let r8_index: u8 = instruction & SOURCE_R8_MASK;
    proof {
        crate::bits::lemma_byte_fields(instruction);
    }
    R8::from_index(r8_index)
}

/// The condition named by bits 4-3.
pub fn convert_index_to_cond(instruction: u8) -> (r: Cond)
    ensures
        r == Cond::spec_from_index(cond_field(instruction)),
{
    let cond_index: u8 = (instruction & COND_MASK) >> 3;
    proof {
        crate::bits::lemma_byte_fields(instruction);
    }
    Cond::from_index(cond_index)
}

/// HL after a memory access through `r16_mem`: up one for `HL+`, down one for `HL-`.
pub open spec fn after_modify_hl(s: CpuView, r16_mem: R16Mem) -> CpuView {
    let hl = s.regs.pair(R16::HL);
    if r16_mem == R16Mem::HLincrement {
        s.set_regs(s.regs.set_pair(R16::HL, add16(hl as int, 1)))
    } else if r16_mem == R16Mem::HLdecrement {
        s.set_regs(s.regs.set_pair(R16::HL, add16(hl as int, -1)))
    } else {
        s
    }
}

/// Moves HL after a `HL+` or `HL-` access, modulo 65536.
pub fn modify_hl(cpu: &mut Cpu, r16_mem: R16Mem)
    ensures
        final(cpu)@ == after_modify_hl(old(cpu)@, r16_mem),
{
    let value = cpu.registers.get_r16_value(R16::HL);
    if r16_mem == R16Mem::HLincrement {
        cpu.registers.set_r16_value(R16::HL, value.wrapping_add(1));
    }
    if r16_mem == R16Mem::HLdecrement {
        cpu.registers.set_r16_value(R16::HL, value.wrapping_sub(1));
    }
}

} // verus!
