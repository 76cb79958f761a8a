use vstd::prelude::*;

use crate::cpu::block_prefix::after_block_prefix;
use crate::cpu::conditions::Cond;
use crate::cpu::registers::{R16, R16Mem, R8};
use crate::cpu::{after_instruction, CpuView};
use crate::cpu2::defines::add16;
use crate::cpu2::properties::{lemma_bit_forms, shift_carry, shift_value};

verus! {

/// The three-bit operand codes name B, C, D, E, H, L, `(HL)`, A in this order, and each
/// register's slot is its code; the two-bit pair codes name BC, DE, HL, SP, the memory
/// operands BC, DE, HL with increment, HL with decrement, and the condition codes NZ,
/// Z, NC, C.
pub proof fn lemma_operand_codes(code: u8)
    requires
        code < 8,
    ensures
        R8::spec_from_index(code).spec_index() == code,
        R8::spec_from_index(6) == R8::HLIndirect,
        R8::spec_from_index(7) == R8::A,
        R16::spec_from_index(0) == R16::BC,
        R16::spec_from_index(1) == R16::DE,
        R16::spec_from_index(2) == R16::HL,
        R16::spec_from_index(3) == R16::SP,
        R16Mem::spec_from_index(0) == R16Mem::BC,
        R16Mem::spec_from_index(1) == R16Mem::DE,
        R16Mem::spec_from_index(2) == R16Mem::HLincrement,
        R16Mem::spec_from_index(3) == R16Mem::HLdecrement,
        Cond::spec_from_index(0) == Cond::NZ,
        Cond::spec_from_index(1) == Cond::Z,
        Cond::spec_from_index(2) == Cond::NC,
        Cond::spec_from_index(3) == Cond::C,
{
}

/// The CB rotations and shifts (0x00 to 0x3F) leave in the operand of bits 2 to 0 what
/// the operation of bits 5 to 3 makes of it, set Z from the result, clear N and H, put
/// the bit moved out in C, keep the other registers and step PC over both bytes.
#[verifier::rlimit(100)]
pub proof fn lemma_cb_shift_operations(s: CpuView, instruction: u8)
    requires
        instruction < 0x40,
        s.regs.r8.len() == 8,
        s.mem.len() == 65536,
    ensures
        ({
            let kind = (instruction / 8) as u8;
            let operand = R8::spec_from_index(instruction % 8);
            let v = s.r8(operand);
            let t = after_block_prefix(s, instruction);
            let nv = t.r8(operand);
            &&& nv == shift_value(kind, v, if s.regs.f.carry { 1 } else { 0 })
            &&& t.regs.f.zero == (nv == 0)
            &&& !t.regs.f.subtract && !t.regs.f.half_carry
            &&& t.regs.f.carry == shift_carry(kind, v)
            &&& forall|r: R8| r != operand && r != R8::HLIndirect ==> #[trigger] t.regs.reg(r) == s.regs.reg(r)
            &&& t.regs.sp == s.regs.sp
            &&& t.pc == add16(s.pc as int, 2)
        }),
{
    let kind = (instruction / 8) as u8;
    let operand = R8::spec_from_index(instruction % 8);
    lemma_bit_forms(s.r8(operand), if s.regs.f.carry { 1 } else { 0 }, 0);
    if kind == 0 {
    } else if kind == 1 {
    } else if kind == 2 {
    } else if kind == 3 {
    } else if kind == 4 {
    } else if kind == 5 {
    } else if kind == 6 {
    } else {
    }
}


/// LD r, r' (0x40 to 0x7F but 0x76) copies the operand of bits 2 to 0 into the operand
/// of bits 5 to 3, keeps the flags and the other registers and steps PC by one; 0x76
/// halts the CPU and changes nothing else but PC.
#[verifier::rlimit(100)]
pub proof fn lemma_load_register_operations(s: CpuView, instruction: u8)
    requires
        0x40 <= instruction < 0x80,
        s.regs.r8.len() == 8,
        s.mem.len() == 65536,
    ensures
        ({
            let src = R8::spec_from_index(instruction % 8);
            let dest = R8::spec_from_index((instruction / 8) % 8);
            let t = after_instruction(s, instruction);
            &&& instruction != 0x76 ==> {
                &&& t.r8(dest) == s.r8(src)
                &&& t.regs.f == s.regs.f
                &&& forall|r: R8| r != dest && r != R8::HLIndirect ==> #[trigger] t.regs.reg(r) == s.regs.reg(r)
                &&& dest != R8::HLIndirect ==> t.mem == s.mem
                &&& t.halted == s.halted
            }
            &&& instruction == 0x76 ==> t.halted && t.regs == s.regs && t.mem == s.mem
            &&& t.pc == add16(s.pc as int, 1)
        }),
{
}

/// INC r and DEC r (opcodes 0x04 and 0x05 plus a multiple of 8, below 0x40) add or
/// subtract one, modulo 256, in the operand of bits 5 to 3; Z tells whether the result
/// is zero, N is raised by DEC only, H tells whether bit 3 carried (INC) or bit 4
/// borrowed (DEC), C is kept. LD r, n (0x06 plus a multiple of 8) loads the byte after
/// the opcode into that operand and keeps the flags. PC steps over the instruction.
#[verifier::rlimit(100)]
pub proof fn lemma_register_arithmetic_operations(s: CpuView, instruction: u8)
    requires
        instruction < 0x40,
        instruction % 8 == 4 || instruction % 8 == 5 || instruction % 8 == 6,
        s.regs.r8.len() == 8,
        s.mem.len() == 65536,
        instruction % 8 == 6 ==> s.pc < 0xFFFF,
    ensures
        ({
            let operand = R8::spec_from_index((instruction / 8) % 8);
            let v = s.r8(operand);
            let t = after_instruction(s, instruction);
            let nv = t.r8(operand);
            &&& instruction % 8 == 4 ==> {
                &&& nv == ((v + 1) % 256) as u8
                &&& t.regs.f.zero == (nv == 0)
                &&& !t.regs.f.subtract
                &&& t.regs.f.half_carry == (v % 16 == 15)
                &&& t.regs.f.carry == s.regs.f.carry
                &&& t.pc == add16(s.pc as int, 1)
            }
            &&& instruction % 8 == 5 ==> {
                &&& nv == ((v - 1) % 256) as u8
                &&& t.regs.f.zero == (nv == 0)
                &&& t.regs.f.subtract
                &&& t.regs.f.half_carry == (v % 16 == 0)
                &&& t.regs.f.carry == s.regs.f.carry
                &&& t.pc == add16(s.pc as int, 1)
            }
            &&& instruction % 8 == 6 ==> {
                &&& nv == s.mem[s.pc + 1]
                &&& t.regs.f == s.regs.f
                &&& t.pc == add16(s.pc as int, 2)
            }
            &&& forall|r: R8| r != operand && r != R8::HLIndirect ==> #[trigger] t.regs.reg(r) == s.regs.reg(r)
            &&& t.regs.sp == s.regs.sp
        }),
{
}

/// RLCA (0x07), RRCA (0x0F), RLA (0x17) and RRA (0x1F) rotate A as the CB rotations of
/// the same bits 5 to 3 do, but always clear Z; N and H are cleared and C takes the bit
/// moved out. SCF (0x37) raises C and CCF (0x3F) flips it, both clearing N and H and
/// keeping Z and A. CPL (0x2F) is stated by `lemma_cpl_complements_a`.
#[verifier::rlimit(100)]
pub proof fn lemma_accumulator_operations(s: CpuView, instruction: u8)
    requires
        instruction == 0x07 || instruction == 0x0F || instruction == 0x17 || instruction == 0x1F || instruction == 0x37
            || instruction == 0x3F,
        s.regs.r8.len() == 8,
    ensures
        ({
            let a = s.regs.reg(R8::A);
            let kind = (instruction / 8) as u8;
            let t = after_instruction(s, instruction);
            &&& instruction < 0x20 ==> {
                &&& t.regs.reg(R8::A) == shift_value(kind, a, if s.regs.f.carry { 1 } else { 0 })
                &&& !t.regs.f.zero
                &&& t.regs.f.carry == shift_carry(kind, a)
            }
            &&& instruction == 0x37 ==> t.regs.f.carry && t.regs.reg(R8::A) == a
            &&& instruction == 0x3F ==> t.regs.f.carry == !s.regs.f.carry && t.regs.reg(R8::A) == a
            &&& instruction > 0x20 ==> t.regs.f.zero == s.regs.f.zero
            &&& !t.regs.f.subtract && !t.regs.f.half_carry
            &&& forall|r: R8| r != R8::A ==> #[trigger] t.regs.reg(r) == s.regs.reg(r)
            &&& t.mem == s.mem
            &&& t.pc == add16(s.pc as int, 1)
        }),
{
    lemma_bit_forms(s.regs.reg(R8::A), if s.regs.f.carry { 1 } else { 0 }, 0);
}


#[verifier::rlimit(60)]
proof fn lemma_pair_step_operation(s: CpuView, instruction: u8)
    requires
        instruction < 0x40,
        instruction % 16 == 3 || instruction % 16 == 11,
        s.regs.r8.len() == 8,
    ensures
        ({
            let rr = R16::spec_from_index(instruction / 16);
            let v = s.regs.pair(rr);
            let t = after_instruction(s, instruction);
            &&& instruction % 16 == 3 ==> t.regs.pair(rr) == ((v + 1) % 65536) as u16
            &&& instruction % 16 == 11 ==> t.regs.pair(rr) == ((v - 1) % 65536) as u16
            &&& t.regs.f == s.regs.f
            &&& t.pc == add16(s.pc as int, 1)
            &&& t.mem == s.mem
        }),
{
    let k = instruction / 16;
    let v = s.regs.pair(R16::spec_from_index(k));
    crate::bits::lemma_word_parts(add16(v as int, 1));
    crate::bits::lemma_word_parts(add16(v as int, -1));
    if k == 0 {
    } else if k == 1 {
    } else if k == 2 {
    } else {
    }
}

#[verifier::rlimit(60)]
proof fn lemma_add_hl_operation(s: CpuView, instruction: u8)
    requires
        instruction < 0x40,
        instruction % 16 == 9,
        s.regs.r8.len() == 8,
    ensures
        ({
            let v = s.regs.pair(R16::spec_from_index(instruction / 16));
            let hl = s.regs.pair(R16::HL);
            let t = after_instruction(s, instruction);
            &&& t.regs.pair(R16::HL) == ((hl + v) % 65536) as u16
            &&& !t.regs.f.subtract
            &&& t.regs.f.half_carry == (hl % 4096 + v % 4096 >= 4096)
            &&& t.regs.f.carry == (hl + v >= 65536)
            &&& t.regs.f.zero == s.regs.f.zero
            &&& t.pc == add16(s.pc as int, 1)
            &&& t.mem == s.mem
        }),
{
    let k = instruction / 16;
    let v = s.regs.pair(R16::spec_from_index(k));
    let hl = s.regs.pair(R16::HL);
    crate::bits::lemma_word_parts(add16(hl as int, v as int));
    if k == 0 {
    } else if k == 1 {
    } else if k == 2 {
    } else {
    }
}

#[verifier::rlimit(60)]
proof fn lemma_load_pair_operation(s: CpuView, instruction: u8)
    requires
        instruction < 0x40,
        instruction % 16 == 1,
        s.regs.r8.len() == 8,
        s.pc <= 0xFFFD,
    ensures
        ({
            let rr = R16::spec_from_index(instruction / 16);
            let t = after_instruction(s, instruction);
            &&& t.regs.pair(rr) == s.mem[s.pc + 1] + 256 * s.mem[s.pc + 2]
            &&& t.regs.f == s.regs.f
            &&& t.pc == add16(s.pc as int, 3)
            &&& t.mem == s.mem
        }),
{
    let k = instruction / 16;
    crate::bits::lemma_word(s.mem[s.pc + 2], s.mem[s.pc + 1]);
    crate::bits::lemma_word_parts(crate::cpu::utils::imm16(s));
    if k == 0 {
    } else if k == 1 {
    } else if k == 2 {
    } else {
    }
}

/// INC rr (0x03 plus a multiple of 16) and DEC rr (0x0B plus a multiple of 16) add or
/// subtract one, modulo 65536, in the pair of bits 5 and 4 and keep the flags. ADD HL, rr
/// (0x09 plus a multiple of 16) adds that pair to HL modulo 65536, clears N, sets H from
/// the carry out of bit 11 and C from the carry out of bit 15, and keeps Z. LD rr, nn
/// (0x01 plus a multiple of 16) loads the two bytes after the opcode, low byte first,
/// into the pair and keeps the flags. Memory is kept and PC steps over the instruction.
pub proof fn lemma_pair_operations(s: CpuView, instruction: u8)
    requires
        instruction < 0x40,
        instruction % 16 == 1 || instruction % 16 == 3 || instruction % 16 == 9 || instruction % 16 == 11,
        s.regs.r8.len() == 8,
        instruction % 16 == 1 ==> s.pc <= 0xFFFD,
    ensures
        ({
            let rr = R16::spec_from_index(instruction / 16);
            let v = s.regs.pair(rr);
            let hl = s.regs.pair(R16::HL);
            let t = after_instruction(s, instruction);
            &&& instruction % 16 == 3 ==> t.regs.pair(rr) == ((v + 1) % 65536) as u16 && t.regs.f == s.regs.f
            &&& instruction % 16 == 11 ==> t.regs.pair(rr) == ((v - 1) % 65536) as u16 && t.regs.f == s.regs.f
            &&& instruction % 16 == 9 ==> {
                &&& t.regs.pair(R16::HL) == ((hl + v) % 65536) as u16
                &&& !t.regs.f.subtract
                &&& t.regs.f.half_carry == (hl % 4096 + v % 4096 >= 4096)
                &&& t.regs.f.carry == (hl + v >= 65536)
                &&& t.regs.f.zero == s.regs.f.zero
            }
            &&& instruction % 16 == 1 ==> {
                &&& t.regs.pair(rr) == s.mem[s.pc + 1] + 256 * s.mem[s.pc + 2]
                &&& t.regs.f == s.regs.f
                &&& t.pc == add16(s.pc as int, 3)
            }
            &&& instruction % 16 != 1 ==> t.pc == add16(s.pc as int, 1)
            &&& t.mem == s.mem
        }),
{
    if instruction % 16 == 3 || instruction % 16 == 11 {
        lemma_pair_step_operation(s, instruction);
    } else if instruction % 16 == 9 {
        lemma_add_hl_operation(s, instruction);
    } else {
        lemma_load_pair_operation(s, instruction);
    }
}


/// The address pair of a memory operand code: BC, DE, then HL for `HL+` and `HL-`.
pub open spec fn memory_operand_pair(code: u8) -> R16 {
    if code == 0 {
        R16::BC
    } else if code == 1 {
        R16::DE
    } else {
        R16::HL
    }
}

/// LD (rr), A (0x02 plus a multiple of 16) stores A at the address in BC, DE, HL or
/// HL (bits 5 and 4), and LD A, (rr) (0x0A plus a multiple of 16) loads A from it; the
/// `HL+` forms (0x22, 0x2A) then add one to HL and the `HL-` forms (0x32, 0x3A) subtract
/// one, modulo 65536. Flags are kept and PC steps by one.
#[verifier::rlimit(100)]
pub proof fn lemma_memory_operand_operations(s: CpuView, instruction: u8)
    requires
        instruction < 0x40,
        instruction % 16 == 2 || instruction % 16 == 10,
        s.regs.r8.len() == 8,
        s.mem.len() == 65536,
    ensures
        ({
            let code = (instruction / 16) as u8;
            let hl = s.regs.pair(R16::HL);
            let addr = s.regs.pair(memory_operand_pair(code));
            let t = after_instruction(s, instruction);
            &&& instruction % 16 == 2 ==> t.mem == s.mem.update(addr as int, s.regs.reg(R8::A))
            &&& instruction % 16 == 10 ==> t.regs.reg(R8::A) == s.mem[addr as int] && t.mem == s.mem
            &&& code == 2 ==> t.regs.pair(R16::HL) == ((hl + 1) % 65536) as u16
            &&& code == 3 ==> t.regs.pair(R16::HL) == ((hl - 1) % 65536) as u16
            &&& code < 2 ==> t.regs.pair(R16::HL) == hl
            &&& t.regs.pair(R16::BC) == s.regs.pair(R16::BC)
            &&& t.regs.pair(R16::DE) == s.regs.pair(R16::DE)
            &&& t.regs.sp == s.regs.sp
            &&& t.regs.f == s.regs.f
            &&& t.pc == add16(s.pc as int, 1)
        }),
{
    let hl = s.regs.pair(R16::HL);
    crate::bits::lemma_word_parts(hl);
    crate::bits::lemma_word_parts(add16(hl as int, 1));
    crate::bits::lemma_word_parts(add16(hl as int, -1));
}

/// LD (nn), SP (0x08) stores the low byte of SP at the address given by the two bytes
/// after the opcode and the high byte just above it, keeps the registers and flags and
/// steps PC by three.
#[verifier::rlimit(100)]
pub proof fn lemma_store_sp_operation(s: CpuView)
    requires
        s.regs.r8.len() == 8,
        s.mem.len() == 65536,
        s.pc <= 0xFFFD,
        s.mem[s.pc + 1] + 256 * s.mem[s.pc + 2] < 0xFFFF,
    ensures
        ({
            let a = s.mem[s.pc + 1] + 256 * s.mem[s.pc + 2];
            let t = after_instruction(s, 0x08);
            &&& t.mem[a] == s.regs.sp % 256
            &&& t.mem[a + 1] == s.regs.sp / 256
            &&& forall|i: int| 0 <= i < 65536 && i != a && i != a + 1 ==> #[trigger] t.mem[i] == s.mem[i]
            &&& t.regs == s.regs
            &&& t.pc == add16(s.pc as int, 3)
        }),
{
    crate::bits::lemma_word(s.mem[s.pc + 2], s.mem[s.pc + 1]);
    crate::bits::lemma_word_parts(s.regs.sp);
}

/// JR e (0x18) always jumps, and JR cc, e (0x20, 0x28, 0x30, 0x38) jumps exactly when
/// its condition holds: Z clear, Z set, C clear, C set. A jump moves PC past the two
/// bytes of the instruction and then by the byte after the opcode read as a signed
/// number, modulo 65536; otherwise PC steps over the two bytes. Registers, flags and
/// memory are kept.
#[verifier::rlimit(100)]
pub proof fn lemma_relative_jump_operations(s: CpuView, instruction: u8)
    requires
        instruction == 0x18 || instruction == 0x20 || instruction == 0x28 || instruction == 0x30 || instruction == 0x38,
        s.pc < 0xFFFF,
    ensures
        ({
            let e = s.mem[s.pc + 1];
            let offset: int = if e >= 128 { e - 256 } else { e as int };
            let taken = if instruction == 0x18 {
                true
            } else if instruction == 0x20 {
                !s.regs.f.zero
            } else if instruction == 0x28 {
                s.regs.f.zero
            } else if instruction == 0x30 {
                !s.regs.f.carry
            } else {
                s.regs.f.carry
            };
            let t = after_instruction(s, instruction);
            &&& taken ==> t.pc == ((s.pc + 2 + offset) % 65536) as u16
            &&& !taken ==> t.pc == ((s.pc + 2) % 65536) as u16
            &&& t.regs == s.regs
            &&& t.mem == s.mem
        }),
{
}

} // verus!
