use vstd::prelude::*;

use crate::cpu::registers::R8;
use crate::cpu::utils::{convert_dest_index_to_r8, convert_source_index_to_r8, dest_field, source_field};
use crate::cpu::{Cpu, CpuView};

verus! {

/// The opcode of HALT, which sits where `LD (HL), (HL)` would be.
pub const HALT_OPCODE: u8 = 0x76;

/// The state after the block-1 instruction `instruction`: HALT halts the CPU, any other
/// opcode copies its source operand into its destination operand. PC steps over it.
pub open spec fn after_block1(s: CpuView, instruction: u8) -> CpuView {
    if instruction == HALT_OPCODE {
        CpuView { halted: true, ..s }.advance(1)
    } else {
        let src = R8::spec_from_index(source_field(instruction));
        let dest = R8::spec_from_index(dest_field(instruction));
        s.set_r8(dest, s.r8(src)).advance(1)
    }
}

/// Machine cycles of a block-1 instruction: 8 when `(HL)` is read or written, else 4.
pub open spec fn block1_cycles(instruction: u8) -> u8 {
    if instruction != HALT_OPCODE && (source_field(instruction) == 6 || dest_field(instruction) == 6) { 8 } else { 4 }
}

/// Runs the block-1 opcode `instruction` (0x40 to 0x7F): `LD r, r'`, or HALT.
pub fn execute_instruction_block1(cpu: &mut Cpu, instruction: u8) -> (r: u8)
    ensures
        final(cpu)@ == after_block1(old(cpu)@, instruction),
        r == block1_cycles(instruction),
{
    if instruction == HALT_OPCODE {
        cpu.halted = true;
        cpu.pc = cpu.pc.wrapping_add(1);
        4
    } else {
        let src = convert_source_index_to_r8(instruction);
        let dest = convert_dest_index_to_r8(instruction);
        let value = cpu.get_r8_value(src);
        cpu.set_r8_value(dest, value);
        cpu.pc = cpu.pc.wrapping_add(1);
        if src == R8::HLIndirect || dest == R8::HLIndirect {
            8
        } else {
            4
        }
    }
}

} // verus!
