use vstd::prelude::*;

use crate::cpu::cb_instructions::cb_micro_ops;
use crate::cpu::defines::{lemma_pair_set_get, MicroOp, MicroState};
use crate::cpu2::defines::{add16, lo_byte, word};
use crate::cpu::ops::load::af_value;
use crate::cpu::instructions::main_micro_ops;
use crate::cpu2::defines::{flag_mask, has_flag, Flag};
use crate::cpu2::instructions::other::{bcd_value, is_bcd, lemma_daa_after_add, lemma_daa_after_sub};
use crate::cpu2::properties::{
    alu_value, pair_register_slots, carry_bit, carry_value, lemma_bit_forms, lemma_flags_read_back, operand_slot, shift_carry, shift_value,
};
use crate::cpu_def::after_micro_op;

verus! {

/// The effect of a sequence of cycles on registers, flags and memory, one after another.
pub open spec fn run_micro_ops(s: MicroState, ops: Seq<MicroOp>) -> MicroState
    decreases ops.len(),
{
    if ops.len() == 0 {
        s
    } else {
        run_micro_ops(after_micro_op(s, ops[0]), ops.drop_first())
    }
}

/// The value of the operand that a three-bit code names: a register, or for code 6
/// the byte at the address in HL (slots 6 and 7).
pub open spec fn operand_value(s: MicroState, code: u8) -> u8 {
    if code == 6 {
        s.mem[s.reg(6) * 256 + s.reg(7)]
    } else {
        s.reg(operand_slot(code))
    }
}

/// The cycle of this machine that applies operation `group` to A and slot `r`.
spec fn alu_micro_op(group: u8, r: usize) -> MicroOp {
    if group == 0 {
        MicroOp::AddR8R8(0, r)
    } else if group == 1 {
        MicroOp::AddR8R8WithCarry(0, r)
    } else if group == 2 {
        MicroOp::SubR8R8(0, r)
    } else if group == 3 {
        MicroOp::SubR8R8WithCarry(0, r)
    } else if group == 4 {
        MicroOp::AndR8R8(0, r)
    } else if group == 5 {
        MicroOp::XorR8R8(0, r)
    } else if group == 6 {
        MicroOp::OrR8R8(0, r)
    } else {
        MicroOp::CpR8R8(0, r)
    }
}

/// The cycles of an operation on the operand of `code`: an `(HL)` operand is fetched to
/// Z first.
spec fn with_operand(code: u8, op: spec_fn(usize) -> MicroOp) -> Seq<MicroOp> {
    if code == 6 {
        seq![MicroOp::ReadMemory(3, 13), op(13)]
    } else {
        seq![op(operand_slot(code) as usize)]
    }
}

#[verifier::rlimit(100)]
proof fn lemma_alu_table(opcode: u8)
    requires
        0x80 <= opcode < 0xC0,
    ensures
        main_micro_ops(opcode) == with_operand((opcode % 8) as u8, |r: usize| alu_micro_op(((opcode / 8) % 8) as u8, r)),
{
    if opcode == 0x80 {
    } else if opcode == 0x81 {
    } else if opcode == 0x82 {
    } else if opcode == 0x83 {
    } else if opcode == 0x84 {
    } else if opcode == 0x85 {
    } else if opcode == 0x86 {
    } else if opcode == 0x87 {
    } else if opcode == 0x88 {
    } else if opcode == 0x89 {
    } else if opcode == 0x8A {
    } else if opcode == 0x8B {
    } else if opcode == 0x8C {
    } else if opcode == 0x8D {
    } else if opcode == 0x8E {
    } else if opcode == 0x8F {
    } else if opcode == 0x90 {
    } else if opcode == 0x91 {
    } else if opcode == 0x92 {
    } else if opcode == 0x93 {
    } else if opcode == 0x94 {
    } else if opcode == 0x95 {
    } else if opcode == 0x96 {
    } else if opcode == 0x97 {
    } else if opcode == 0x98 {
    } else if opcode == 0x99 {
    } else if opcode == 0x9A {
    } else if opcode == 0x9B {
    } else if opcode == 0x9C {
    } else if opcode == 0x9D {
    } else if opcode == 0x9E {
    } else if opcode == 0x9F {
    } else if opcode == 0xA0 {
    } else if opcode == 0xA1 {
    } else if opcode == 0xA2 {
    } else if opcode == 0xA3 {
    } else if opcode == 0xA4 {
    } else if opcode == 0xA5 {
    } else if opcode == 0xA6 {
    } else if opcode == 0xA7 {
    } else if opcode == 0xA8 {
    } else if opcode == 0xA9 {
    } else if opcode == 0xAA {
    } else if opcode == 0xAB {
    } else if opcode == 0xAC {
    } else if opcode == 0xAD {
    } else if opcode == 0xAE {
    } else if opcode == 0xAF {
    } else if opcode == 0xB0 {
    } else if opcode == 0xB1 {
    } else if opcode == 0xB2 {
    } else if opcode == 0xB3 {
    } else if opcode == 0xB4 {
    } else if opcode == 0xB5 {
    } else if opcode == 0xB6 {
    } else if opcode == 0xB7 {
    } else if opcode == 0xB8 {
    } else if opcode == 0xB9 {
    } else if opcode == 0xBA {
    } else if opcode == 0xBB {
    } else if opcode == 0xBC {
    } else if opcode == 0xBD {
    } else if opcode == 0xBE {
    } else if opcode == 0xBF {
    }
}

#[verifier::rlimit(100)]
proof fn lemma_alu_run(s: MicroState, group: u8, code: u8)
    requires
        s.wf(),
        group < 8,
        code < 8,
    ensures
        ({
            let a = s.reg(0);
            let v = operand_value(s, code);
            let c = carry_value(s.flags);
            let t = run_micro_ops(s, with_operand(code, |r: usize| alu_micro_op(group, r)));
            &&& t.reg(0) == alu_value(group, a, v, c)
            &&& has_flag(t.flags, Flag::Zero) == if group == 7 { a == v } else { alu_value(group, a, v, c) == 0 }
            &&& has_flag(t.flags, Flag::Subtract) == (group == 2 || group == 3 || group == 7)
            &&& has_flag(t.flags, Flag::Carry) == if group == 0 {
                a + v > 255
            } else if group == 1 {
                a + v + c > 255
            } else if group == 2 || group == 7 {
                a < v
            } else if group == 3 {
                a < v + c
            } else {
                false
            }
            &&& forall|i: int| 1 <= i < 13 ==> #[trigger] t.reg(i) == s.reg(i)
            &&& t.mem == s.mem
        }),
{
    lemma_flags_read_back();
    reveal(after_micro_op);
    reveal_with_fuel(run_micro_ops, 3);
    let ops = with_operand(code, |r: usize| alu_micro_op(group, r));
    if code == 6 {
        let s1 = after_micro_op(s, ops[0]);
        assert(ops.drop_first().drop_first().len() == 0);
        assert(s1.reg(13) == operand_value(s, code));
        if group == 0 {
        } else if group == 1 {
        } else if group == 2 {
        } else if group == 3 {
        } else if group == 4 {
        } else if group == 5 {
        } else if group == 6 {
        } else {
        }
    } else {
        assert(ops.drop_first().len() == 0);
        if group == 0 {
        } else if group == 1 {
        } else if group == 2 {
        } else if group == 3 {
        } else if group == 4 {
        } else if group == 5 {
        } else if group == 6 {
        } else {
        }
    }
}

/// Opcodes 0x80 to 0xBF apply the operation of bits 5 to 3 to A and the operand of
/// bits 2 to 0: A receives the result (CP keeps A), Z tells whether the result is zero
/// (for CP, whether A equals the operand), N is raised by SUB, SBC and CP, C tells
/// whether ADD and ADC carried out of bit 7 (ADC counting the carry in) or SUB, SBC and CP borrowed, and AND, XOR and OR clear it.
/// Registers other than A and the scratch slot Z, and memory, are kept.
#[verifier::rlimit(100)]
pub proof fn lemma_alu_opcodes(s: MicroState, opcode: u8)
    requires
        s.wf(),
        0x80 <= opcode < 0xC0,
    ensures
                ({
            let group = ((opcode / 8) % 8) as u8;
            let code = (opcode % 8) as u8;
            let a = s.reg(0);
            let v = operand_value(s, code);
            let c = carry_value(s.flags);
            let t = run_micro_ops(s, main_micro_ops(opcode));
            &&& t.reg(0) == alu_value(group, a, v, c)
            &&& has_flag(t.flags, Flag::Zero) == if group == 7 { a == v } else { alu_value(group, a, v, c) == 0 }
            &&& has_flag(t.flags, Flag::Subtract) == (group == 2 || group == 3 || group == 7)
            &&& has_flag(t.flags, Flag::Carry) == if group == 0 {
                a + v > 255
            } else if group == 1 {
                a + v + c > 255
            } else if group == 2 || group == 7 {
                a < v
            } else if group == 3 {
                a < v + c
            } else {
                false
            }
            &&& forall|i: int| 1 <= i < 13 ==> #[trigger] t.reg(i) == s.reg(i)
            &&& t.mem == s.mem
        }),
{
    lemma_alu_table(opcode);
    lemma_alu_run(s, ((opcode / 8) % 8) as u8, (opcode % 8) as u8);
}


/// The cycles of this machine that load the operand of `src` into the operand of `dest`.
spec fn load_micro_ops(dest: u8, src: u8) -> Seq<MicroOp> {
    if dest == 6 {
        seq![MicroOp::WriteMemory(3, operand_slot(src) as usize), MicroOp::Noop]
    } else {
        with_operand(src, |r: usize| MicroOp::LoadR8R8(operand_slot(dest) as usize, r))
    }
}

#[verifier::rlimit(100)]
proof fn lemma_load_table(opcode: u8)
    requires
        0x40 <= opcode < 0x80,
        opcode != 0x76,
    ensures
        main_micro_ops(opcode) == load_micro_ops(((opcode / 8) % 8) as u8, (opcode % 8) as u8),
{
    if opcode == 0x40 {
    } else if opcode == 0x41 {
    } else if opcode == 0x42 {
    } else if opcode == 0x43 {
    } else if opcode == 0x44 {
    } else if opcode == 0x45 {
    } else if opcode == 0x46 {
    } else if opcode == 0x47 {
    } else if opcode == 0x48 {
    } else if opcode == 0x49 {
    } else if opcode == 0x4A {
    } else if opcode == 0x4B {
    } else if opcode == 0x4C {
    } else if opcode == 0x4D {
    } else if opcode == 0x4E {
    } else if opcode == 0x4F {
    } else if opcode == 0x50 {
    } else if opcode == 0x51 {
    } else if opcode == 0x52 {
    } else if opcode == 0x53 {
    } else if opcode == 0x54 {
    } else if opcode == 0x55 {
    } else if opcode == 0x56 {
    } else if opcode == 0x57 {
    } else if opcode == 0x58 {
    } else if opcode == 0x59 {
    } else if opcode == 0x5A {
    } else if opcode == 0x5B {
    } else if opcode == 0x5C {
    } else if opcode == 0x5D {
    } else if opcode == 0x5E {
    } else if opcode == 0x5F {
    } else if opcode == 0x60 {
    } else if opcode == 0x61 {
    } else if opcode == 0x62 {
    } else if opcode == 0x63 {
    } else if opcode == 0x64 {
    } else if opcode == 0x65 {
    } else if opcode == 0x66 {
    } else if opcode == 0x67 {
    } else if opcode == 0x68 {
    } else if opcode == 0x69 {
    } else if opcode == 0x6A {
    } else if opcode == 0x6B {
    } else if opcode == 0x6C {
    } else if opcode == 0x6D {
    } else if opcode == 0x6E {
    } else if opcode == 0x6F {
    } else if opcode == 0x70 {
    } else if opcode == 0x71 {
    } else if opcode == 0x72 {
    } else if opcode == 0x73 {
    } else if opcode == 0x74 {
    } else if opcode == 0x75 {
    } else if opcode == 0x77 {
    } else if opcode == 0x78 {
    } else if opcode == 0x79 {
    } else if opcode == 0x7A {
    } else if opcode == 0x7B {
    } else if opcode == 0x7C {
    } else if opcode == 0x7D {
    } else if opcode == 0x7E {
    } else if opcode == 0x7F {
    }
}

/// The address held in HL (slots 6 and 7).
pub open spec fn hl_address(s: MicroState) -> int {
    s.reg(6) * 256 + s.reg(7)
}

/// Opcodes 0x40 to 0x7F but HALT (0x76) copy the operand of bits 2 to 0 into the
/// operand of bits 5 to 3, a register or the byte at the address in HL. The flags are
/// kept, and so is every register but the destination and the scratch slot Z; memory
/// changes only where the destination is `(HL)`.
#[verifier::rlimit(100)]
pub proof fn lemma_load_opcodes(s: MicroState, opcode: u8)
    requires
        s.wf(),
        0x40 <= opcode < 0x80,
        opcode != 0x76,
    ensures
                ({
            let dest = ((opcode / 8) % 8) as u8;
            let src = (opcode % 8) as u8;
            let t = run_micro_ops(s, main_micro_ops(opcode));
            &&& dest != 6 ==> t.reg(operand_slot(dest)) == operand_value(s, src)
            &&& dest != 6 ==> t.mem == s.mem
            &&& dest == 6 ==> t.mem == s.mem.update(hl_address(s), s.reg(operand_slot(src)))
            &&& t.flags == s.flags
            &&& forall|i: int| 0 <= i < 13 && (dest == 6 || i != operand_slot(dest)) ==> #[trigger] t.reg(i) == s.reg(i)
        }),
{
    lemma_load_table(opcode);
    reveal(after_micro_op);
    reveal_with_fuel(run_micro_ops, 3);
    let dest = ((opcode / 8) % 8) as u8;
    let src = (opcode % 8) as u8;
    let ops = load_micro_ops(dest, src);
    if dest == 6 {
        assert(ops.drop_first().drop_first().len() == 0);
    } else if src == 6 {
        assert(ops.drop_first().drop_first().len() == 0);
    } else {
        assert(ops.drop_first().len() == 0);
    }
}

/// The cycle of this machine for CB opcode `opcode` on a register in slot `r`.
spec fn cb_register_op(opcode: u8, r: usize) -> MicroOp {
    let g = ((opcode / 8) % 8) as u8;
    if opcode < 0x40 {
        if g == 0 {
            MicroOp::Rlc(r)
        } else if g == 1 {
            MicroOp::Rrc(r)
        } else if g == 2 {
            MicroOp::Rl(r)
        } else if g == 3 {
            MicroOp::Rr(r)
        } else if g == 4 {
            MicroOp::Sla(r)
        } else if g == 5 {
            MicroOp::Sra(r)
        } else if g == 6 {
            MicroOp::Swap(r)
        } else {
            MicroOp::Srl(r)
        }
    } else if opcode < 0x80 {
        MicroOp::TestBit(g, r)
    } else if opcode < 0xC0 {
        MicroOp::ResBit(g, r)
    } else {
        MicroOp::SetBit(g, r)
    }
}

/// The cycle of this machine for CB opcode `opcode` that works on Z and writes it back
/// at the address in HL.
spec fn cb_write_back_op(opcode: u8) -> MicroOp {
    let g = ((opcode / 8) % 8) as u8;
    if opcode < 0x40 {
        if g == 0 {
            MicroOp::WriteRlcMem(3, 13)
        } else if g == 1 {
            MicroOp::WriteRrcMem(3, 13)
        } else if g == 2 {
            MicroOp::WriteRlMem(3, 13)
        } else if g == 3 {
            MicroOp::WriteRrMem(3, 13)
        } else if g == 4 {
            MicroOp::WriteSlaMem(3, 13)
        } else if g == 5 {
            MicroOp::WriteSraMem(3, 13)
        } else if g == 6 {
            MicroOp::WriteSwapMem(3, 13)
        } else {
            MicroOp::WriteSrlMem(3, 13)
        }
    } else if opcode < 0xC0 {
        MicroOp::WriteResMem(g, 3, 13)
    } else {
        MicroOp::WriteSetMem(g, 3, 13)
    }
}

spec fn cb_micro_ops_shape(opcode: u8) -> Seq<MicroOp> {
    let code = (opcode % 8) as u8;
    if code != 6 {
        seq![cb_register_op(opcode, operand_slot(code) as usize)]
    } else if 0x40 <= opcode < 0x80 {
        seq![MicroOp::ReadMemory(3, 13), cb_register_op(opcode, 13)]
    } else {
        seq![MicroOp::ReadMemory(3, 13), cb_write_back_op(opcode), MicroOp::Noop]
    }
}

#[verifier::rlimit(100)]
proof fn lemma_cb_table(opcode: u8)
    requires
    ensures
        cb_micro_ops(opcode) == cb_micro_ops_shape(opcode),
{
    if opcode == 0x00 {
    } else if opcode == 0x01 {
    } else if opcode == 0x02 {
    } else if opcode == 0x03 {
    } else if opcode == 0x04 {
    } else if opcode == 0x05 {
    } else if opcode == 0x06 {
    } else if opcode == 0x07 {
    } else if opcode == 0x08 {
    } else if opcode == 0x09 {
    } else if opcode == 0x0A {
    } else if opcode == 0x0B {
    } else if opcode == 0x0C {
    } else if opcode == 0x0D {
    } else if opcode == 0x0E {
    } else if opcode == 0x0F {
    } else if opcode == 0x10 {
    } else if opcode == 0x11 {
    } else if opcode == 0x12 {
    } else if opcode == 0x13 {
    } else if opcode == 0x14 {
    } else if opcode == 0x15 {
    } else if opcode == 0x16 {
    } else if opcode == 0x17 {
    } else if opcode == 0x18 {
    } else if opcode == 0x19 {
    } else if opcode == 0x1A {
    } else if opcode == 0x1B {
    } else if opcode == 0x1C {
    } else if opcode == 0x1D {
    } else if opcode == 0x1E {
    } else if opcode == 0x1F {
    } else if opcode == 0x20 {
    } else if opcode == 0x21 {
    } else if opcode == 0x22 {
    } else if opcode == 0x23 {
    } else if opcode == 0x24 {
    } else if opcode == 0x25 {
    } else if opcode == 0x26 {
    } else if opcode == 0x27 {
    } else if opcode == 0x28 {
    } else if opcode == 0x29 {
    } else if opcode == 0x2A {
    } else if opcode == 0x2B {
    } else if opcode == 0x2C {
    } else if opcode == 0x2D {
    } else if opcode == 0x2E {
    } else if opcode == 0x2F {
    } else if opcode == 0x30 {
    } else if opcode == 0x31 {
    } else if opcode == 0x32 {
    } else if opcode == 0x33 {
    } else if opcode == 0x34 {
    } else if opcode == 0x35 {
    } else if opcode == 0x36 {
    } else if opcode == 0x37 {
    } else if opcode == 0x38 {
    } else if opcode == 0x39 {
    } else if opcode == 0x3A {
    } else if opcode == 0x3B {
    } else if opcode == 0x3C {
    } else if opcode == 0x3D {
    } else if opcode == 0x3E {
    } else if opcode == 0x3F {
    } else if opcode == 0x40 {
    } else if opcode == 0x41 {
    } else if opcode == 0x42 {
    } else if opcode == 0x43 {
    } else if opcode == 0x44 {
    } else if opcode == 0x45 {
    } else if opcode == 0x46 {
    } else if opcode == 0x47 {
    } else if opcode == 0x48 {
    } else if opcode == 0x49 {
    } else if opcode == 0x4A {
    } else if opcode == 0x4B {
    } else if opcode == 0x4C {
    } else if opcode == 0x4D {
    } else if opcode == 0x4E {
    } else if opcode == 0x4F {
    } else if opcode == 0x50 {
    } else if opcode == 0x51 {
    } else if opcode == 0x52 {
    } else if opcode == 0x53 {
    } else if opcode == 0x54 {
    } else if opcode == 0x55 {
    } else if opcode == 0x56 {
    } else if opcode == 0x57 {
    } else if opcode == 0x58 {
    } else if opcode == 0x59 {
    } else if opcode == 0x5A {
    } else if opcode == 0x5B {
    } else if opcode == 0x5C {
    } else if opcode == 0x5D {
    } else if opcode == 0x5E {
    } else if opcode == 0x5F {
    } else if opcode == 0x60 {
    } else if opcode == 0x61 {
    } else if opcode == 0x62 {
    } else if opcode == 0x63 {
    } else if opcode == 0x64 {
    } else if opcode == 0x65 {
    } else if opcode == 0x66 {
    } else if opcode == 0x67 {
    } else if opcode == 0x68 {
    } else if opcode == 0x69 {
    } else if opcode == 0x6A {
    } else if opcode == 0x6B {
    } else if opcode == 0x6C {
    } else if opcode == 0x6D {
    } else if opcode == 0x6E {
    } else if opcode == 0x6F {
    } else if opcode == 0x70 {
    } else if opcode == 0x71 {
    } else if opcode == 0x72 {
    } else if opcode == 0x73 {
    } else if opcode == 0x74 {
    } else if opcode == 0x75 {
    } else if opcode == 0x76 {
    } else if opcode == 0x77 {
    } else if opcode == 0x78 {
    } else if opcode == 0x79 {
    } else if opcode == 0x7A {
    } else if opcode == 0x7B {
    } else if opcode == 0x7C {
    } else if opcode == 0x7D {
    } else if opcode == 0x7E {
    } else if opcode == 0x7F {
    } else if opcode == 0x80 {
    } else if opcode == 0x81 {
    } else if opcode == 0x82 {
    } else if opcode == 0x83 {
    } else if opcode == 0x84 {
    } else if opcode == 0x85 {
    } else if opcode == 0x86 {
    } else if opcode == 0x87 {
    } else if opcode == 0x88 {
    } else if opcode == 0x89 {
    } else if opcode == 0x8A {
    } else if opcode == 0x8B {
    } else if opcode == 0x8C {
    } else if opcode == 0x8D {
    } else if opcode == 0x8E {
    } else if opcode == 0x8F {
    } else if opcode == 0x90 {
    } else if opcode == 0x91 {
    } else if opcode == 0x92 {
    } else if opcode == 0x93 {
    } else if opcode == 0x94 {
    } else if opcode == 0x95 {
    } else if opcode == 0x96 {
    } else if opcode == 0x97 {
    } else if opcode == 0x98 {
    } else if opcode == 0x99 {
    } else if opcode == 0x9A {
    } else if opcode == 0x9B {
    } else if opcode == 0x9C {
    } else if opcode == 0x9D {
    } else if opcode == 0x9E {
    } else if opcode == 0x9F {
    } else if opcode == 0xA0 {
    } else if opcode == 0xA1 {
    } else if opcode == 0xA2 {
    } else if opcode == 0xA3 {
    } else if opcode == 0xA4 {
    } else if opcode == 0xA5 {
    } else if opcode == 0xA6 {
    } else if opcode == 0xA7 {
    } else if opcode == 0xA8 {
    } else if opcode == 0xA9 {
    } else if opcode == 0xAA {
    } else if opcode == 0xAB {
    } else if opcode == 0xAC {
    } else if opcode == 0xAD {
    } else if opcode == 0xAE {
    } else if opcode == 0xAF {
    } else if opcode == 0xB0 {
    } else if opcode == 0xB1 {
    } else if opcode == 0xB2 {
    } else if opcode == 0xB3 {
    } else if opcode == 0xB4 {
    } else if opcode == 0xB5 {
    } else if opcode == 0xB6 {
    } else if opcode == 0xB7 {
    } else if opcode == 0xB8 {
    } else if opcode == 0xB9 {
    } else if opcode == 0xBA {
    } else if opcode == 0xBB {
    } else if opcode == 0xBC {
    } else if opcode == 0xBD {
    } else if opcode == 0xBE {
    } else if opcode == 0xBF {
    } else if opcode == 0xC0 {
    } else if opcode == 0xC1 {
    } else if opcode == 0xC2 {
    } else if opcode == 0xC3 {
    } else if opcode == 0xC4 {
    } else if opcode == 0xC5 {
    } else if opcode == 0xC6 {
    } else if opcode == 0xC7 {
    } else if opcode == 0xC8 {
    } else if opcode == 0xC9 {
    } else if opcode == 0xCA {
    } else if opcode == 0xCB {
    } else if opcode == 0xCC {
    } else if opcode == 0xCD {
    } else if opcode == 0xCE {
    } else if opcode == 0xCF {
    } else if opcode == 0xD0 {
    } else if opcode == 0xD1 {
    } else if opcode == 0xD2 {
    } else if opcode == 0xD3 {
    } else if opcode == 0xD4 {
    } else if opcode == 0xD5 {
    } else if opcode == 0xD6 {
    } else if opcode == 0xD7 {
    } else if opcode == 0xD8 {
    } else if opcode == 0xD9 {
    } else if opcode == 0xDA {
    } else if opcode == 0xDB {
    } else if opcode == 0xDC {
    } else if opcode == 0xDD {
    } else if opcode == 0xDE {
    } else if opcode == 0xDF {
    } else if opcode == 0xE0 {
    } else if opcode == 0xE1 {
    } else if opcode == 0xE2 {
    } else if opcode == 0xE3 {
    } else if opcode == 0xE4 {
    } else if opcode == 0xE5 {
    } else if opcode == 0xE6 {
    } else if opcode == 0xE7 {
    } else if opcode == 0xE8 {
    } else if opcode == 0xE9 {
    } else if opcode == 0xEA {
    } else if opcode == 0xEB {
    } else if opcode == 0xEC {
    } else if opcode == 0xED {
    } else if opcode == 0xEE {
    } else if opcode == 0xEF {
    } else if opcode == 0xF0 {
    } else if opcode == 0xF1 {
    } else if opcode == 0xF2 {
    } else if opcode == 0xF3 {
    } else if opcode == 0xF4 {
    } else if opcode == 0xF5 {
    } else if opcode == 0xF6 {
    } else if opcode == 0xF7 {
    } else if opcode == 0xF8 {
    } else if opcode == 0xF9 {
    } else if opcode == 0xFA {
    } else if opcode == 0xFB {
    } else if opcode == 0xFC {
    } else if opcode == 0xFD {
    } else if opcode == 0xFE {
    } else if opcode == 0xFF {
    }
}


/// What a CB opcode does, from the state `s` before its cycles to the state `t` after
/// them. Bits 2 to 0 name the operand (B, C, D, E, H, L, the byte at the address in HL,
/// A) and bits 5 to 3 the rotation or shift (0x00 to 0x3F) or the bit (BIT from 0x40,
/// RES from 0x80, SET from 0xC0). A rotation or shift leaves its result in the operand,
/// sets Z from it, clears N and H and puts the bit moved out in C. BIT sets Z exactly
/// when the bit is clear, clears N, raises H and keeps C and the operand. RES clears the
/// bit and SET raises it, each keeping every other bit and the flags. Registers but the
/// operand and the scratch slot Z are kept; memory changes only at the address in HL,
/// and only when that is the operand of a write.
pub open spec fn cb_effect(s: MicroState, t: MicroState, opcode: u8) -> bool {
    let g = ((opcode / 8) % 8) as u8;
    let code = (opcode % 8) as u8;
    let v = operand_value(s, code);
    let nv = operand_value(t, code);
    let mask = 1u8 << g;
    &&& opcode < 0x40 ==> {
        &&& nv == shift_value(g, v, carry_bit(s.flags))
        &&& has_flag(t.flags, Flag::Zero) == (nv == 0)
        &&& !has_flag(t.flags, Flag::Subtract)
        &&& !has_flag(t.flags, Flag::HalfCarry)
        &&& has_flag(t.flags, Flag::Carry) == shift_carry(g, v)
    }
    &&& 0x40 <= opcode < 0x80 ==> {
        &&& has_flag(t.flags, Flag::Zero) == (v & mask == 0)
        &&& !has_flag(t.flags, Flag::Subtract)
        &&& has_flag(t.flags, Flag::HalfCarry)
        &&& has_flag(t.flags, Flag::Carry) == has_flag(s.flags, Flag::Carry)
        &&& nv == v
        &&& t.mem == s.mem
    }
    &&& 0x80 <= opcode < 0xC0 ==> {
        &&& nv & mask == 0
        &&& nv | mask == v | mask
        &&& t.flags == s.flags
    }
    &&& 0xC0 <= opcode ==> {
        &&& nv & mask == mask
        &&& nv & !mask == v & !mask
        &&& t.flags == s.flags
    }
    &&& forall|i: int| 0 <= i < 13 && (code == 6 || i != operand_slot(code)) ==> #[trigger] t.reg(i) == s.reg(i)
    &&& code != 6 ==> t.mem == s.mem
    &&& code == 6 && !(0x40 <= opcode < 0x80) ==> t.mem == s.mem.update(hl_address(s), nv)
}

#[verifier::rlimit(100)]
proof fn lemma_cb_run_shift_register(s: MicroState, opcode: u8)
    requires
        s.wf(),
        opcode < 0x40,
        opcode % 8 != 6,
    ensures
        cb_effect(s, run_micro_ops(s, cb_micro_ops_shape(opcode)), opcode),
{
    lemma_flags_read_back();
    reveal(after_micro_op);
    reveal_with_fuel(run_micro_ops, 4);
    let g = ((opcode / 8) % 8) as u8;
    let code = (opcode % 8) as u8;
    lemma_bit_forms(operand_value(s, code), carry_bit(s.flags), g);
    let ops = cb_micro_ops_shape(opcode);
    assert(ops.drop_first().len() == 0);
    if g == 0 {
    } else if g == 1 {
    } else if g == 2 {
    } else if g == 3 {
    } else if g == 4 {
    } else if g == 5 {
    } else if g == 6 {
    } else {
    }
}

#[verifier::rlimit(100)]
proof fn lemma_cb_run_shift_at_hl(s: MicroState, opcode: u8)
    requires
        s.wf(),
        opcode < 0x40,
        opcode % 8 == 6,
    ensures
        cb_effect(s, run_micro_ops(s, cb_micro_ops_shape(opcode)), opcode),
{
    lemma_flags_read_back();
    reveal(after_micro_op);
    reveal_with_fuel(run_micro_ops, 4);
    let g = ((opcode / 8) % 8) as u8;
    let code = (opcode % 8) as u8;
    lemma_bit_forms(operand_value(s, code), carry_bit(s.flags), g);
    let ops = cb_micro_ops_shape(opcode);
    assert(ops.drop_first().drop_first().drop_first().len() == 0);
    if g == 0 {
    } else if g == 1 {
    } else if g == 2 {
    } else if g == 3 {
    } else if g == 4 {
    } else if g == 5 {
    } else if g == 6 {
    } else {
    }
}

proof fn lemma_cb_run_shift(s: MicroState, opcode: u8)
    requires
        s.wf(),
        opcode < 0x40,
    ensures
        cb_effect(s, run_micro_ops(s, cb_micro_ops_shape(opcode)), opcode),
{
    if opcode % 8 != 6 {
        lemma_cb_run_shift_register(s, opcode);
    } else {
        lemma_cb_run_shift_at_hl(s, opcode);
    }
}

#[verifier::rlimit(100)]
proof fn lemma_cb_run_bit_register(s: MicroState, opcode: u8)
    requires
        s.wf(),
        0x40 <= opcode < 0x80,
        opcode % 8 != 6,
    ensures
        cb_effect(s, run_micro_ops(s, cb_micro_ops_shape(opcode)), opcode),
{
    lemma_flags_read_back();
    reveal(after_micro_op);
    reveal_with_fuel(run_micro_ops, 4);
    let g = ((opcode / 8) % 8) as u8;
    let code = (opcode % 8) as u8;
    lemma_bit_forms(operand_value(s, code), carry_bit(s.flags), g);
    let ops = cb_micro_ops_shape(opcode);
    assert(ops.drop_first().len() == 0);
}

#[verifier::rlimit(100)]
proof fn lemma_cb_run_bit_at_hl(s: MicroState, opcode: u8)
    requires
        s.wf(),
        0x40 <= opcode < 0x80,
        opcode % 8 == 6,
    ensures
        cb_effect(s, run_micro_ops(s, cb_micro_ops_shape(opcode)), opcode),
{
    lemma_flags_read_back();
    reveal(after_micro_op);
    reveal_with_fuel(run_micro_ops, 4);
    let g = ((opcode / 8) % 8) as u8;
    let code = (opcode % 8) as u8;
    lemma_bit_forms(operand_value(s, code), carry_bit(s.flags), g);
    let ops = cb_micro_ops_shape(opcode);
    assert(ops.drop_first().drop_first().len() == 0);
}

proof fn lemma_cb_run_bit(s: MicroState, opcode: u8)
    requires
        s.wf(),
        0x40 <= opcode < 0x80,
    ensures
        cb_effect(s, run_micro_ops(s, cb_micro_ops_shape(opcode)), opcode),
{
    if opcode % 8 != 6 {
        lemma_cb_run_bit_register(s, opcode);
    } else {
        lemma_cb_run_bit_at_hl(s, opcode);
    }
}

#[verifier::rlimit(100)]
proof fn lemma_cb_run_res_register(s: MicroState, opcode: u8)
    requires
        s.wf(),
        0x80 <= opcode < 0xC0,
        opcode % 8 != 6,
    ensures
        cb_effect(s, run_micro_ops(s, cb_micro_ops_shape(opcode)), opcode),
{
    lemma_flags_read_back();
    reveal(after_micro_op);
    reveal_with_fuel(run_micro_ops, 4);
    let g = ((opcode / 8) % 8) as u8;
    let code = (opcode % 8) as u8;
    lemma_bit_forms(operand_value(s, code), carry_bit(s.flags), g);
    let ops = cb_micro_ops_shape(opcode);
    assert(ops.drop_first().len() == 0);
    if g == 0 {
    } else if g == 1 {
    } else if g == 2 {
    } else if g == 3 {
    } else if g == 4 {
    } else if g == 5 {
    } else if g == 6 {
    } else {
    }
}

#[verifier::rlimit(100)]
proof fn lemma_cb_run_res_at_hl(s: MicroState, opcode: u8)
    requires
        s.wf(),
        0x80 <= opcode < 0xC0,
        opcode % 8 == 6,
    ensures
        cb_effect(s, run_micro_ops(s, cb_micro_ops_shape(opcode)), opcode),
{
    lemma_flags_read_back();
    reveal(after_micro_op);
    reveal_with_fuel(run_micro_ops, 4);
    let g = ((opcode / 8) % 8) as u8;
    let code = (opcode % 8) as u8;
    lemma_bit_forms(operand_value(s, code), carry_bit(s.flags), g);
    let ops = cb_micro_ops_shape(opcode);
    assert(ops.drop_first().drop_first().drop_first().len() == 0);
    if g == 0 {
    } else if g == 1 {
    } else if g == 2 {
    } else if g == 3 {
    } else if g == 4 {
    } else if g == 5 {
    } else if g == 6 {
    } else {
    }
}

proof fn lemma_cb_run_res(s: MicroState, opcode: u8)
    requires
        s.wf(),
        0x80 <= opcode < 0xC0,
    ensures
        cb_effect(s, run_micro_ops(s, cb_micro_ops_shape(opcode)), opcode),
{
    if opcode % 8 != 6 {
        lemma_cb_run_res_register(s, opcode);
    } else {
        lemma_cb_run_res_at_hl(s, opcode);
    }
}

#[verifier::rlimit(100)]
proof fn lemma_cb_run_set_register(s: MicroState, opcode: u8)
    requires
        s.wf(),
        0xC0 <= opcode,
        opcode % 8 != 6,
    ensures
        cb_effect(s, run_micro_ops(s, cb_micro_ops_shape(opcode)), opcode),
{
    lemma_flags_read_back();
    reveal(after_micro_op);
    reveal_with_fuel(run_micro_ops, 4);
    let g = ((opcode / 8) % 8) as u8;
    let code = (opcode % 8) as u8;
    lemma_bit_forms(operand_value(s, code), carry_bit(s.flags), g);
    let ops = cb_micro_ops_shape(opcode);
    assert(ops.drop_first().len() == 0);
    if g == 0 {
    } else if g == 1 {
    } else if g == 2 {
    } else if g == 3 {
    } else if g == 4 {
    } else if g == 5 {
    } else if g == 6 {
    } else {
    }
}

#[verifier::rlimit(100)]
proof fn lemma_cb_run_set_at_hl(s: MicroState, opcode: u8)
    requires
        s.wf(),
        0xC0 <= opcode,
        opcode % 8 == 6,
    ensures
        cb_effect(s, run_micro_ops(s, cb_micro_ops_shape(opcode)), opcode),
{
    lemma_flags_read_back();
    reveal(after_micro_op);
    reveal_with_fuel(run_micro_ops, 4);
    let g = ((opcode / 8) % 8) as u8;
    let code = (opcode % 8) as u8;
    lemma_bit_forms(operand_value(s, code), carry_bit(s.flags), g);
    let ops = cb_micro_ops_shape(opcode);
    assert(ops.drop_first().drop_first().drop_first().len() == 0);
    if g == 0 {
    } else if g == 1 {
    } else if g == 2 {
    } else if g == 3 {
    } else if g == 4 {
    } else if g == 5 {
    } else if g == 6 {
    } else {
    }
}

proof fn lemma_cb_run_set(s: MicroState, opcode: u8)
    requires
        s.wf(),
        0xC0 <= opcode,
    ensures
        cb_effect(s, run_micro_ops(s, cb_micro_ops_shape(opcode)), opcode),
{
    if opcode % 8 != 6 {
        lemma_cb_run_set_register(s, opcode);
    } else {
        lemma_cb_run_set_at_hl(s, opcode);
    }
}

proof fn lemma_cb_run(s: MicroState, opcode: u8)
    requires
        s.wf(),
    ensures
        cb_effect(s, run_micro_ops(s, cb_micro_ops_shape(opcode)), opcode),
{
    if opcode < 0x40 {
        lemma_cb_run_shift(s, opcode);
    } else if opcode < 0x80 {
        lemma_cb_run_bit(s, opcode);
    } else if opcode < 0xC0 {
        lemma_cb_run_res(s, opcode);
    } else {
        lemma_cb_run_set(s, opcode);
    }
}

/// Every CB opcode does what `cb_effect` says of its operand, bit and flags.
pub proof fn lemma_cb_opcodes(s: MicroState, opcode: u8)
    requires
        s.wf(),
    ensures
        cb_effect(s, run_micro_ops(s, cb_micro_ops(opcode)), opcode),
{
    lemma_cb_table(opcode);
    lemma_cb_run(s, opcode);
}


/// CPL (0x2F) complements every bit of A and raises N and H; SCF (0x37) raises C and
/// CCF (0x3F) flips it, both clearing N and H. Each keeps Z, every other register and
/// memory, and SCF and CCF keep A.
#[verifier::rlimit(100)]
pub proof fn lemma_flag_and_complement_opcodes(s: MicroState)
    requires
        s.wf(),
    ensures
        ({
            let a = s.reg(0);
            let t = run_micro_ops(s, main_micro_ops(0x2F));
            &&& t.reg(0) == !a
            &&& t.reg(0) ^ a == 0xFF
            &&& has_flag(t.flags, Flag::Subtract) && has_flag(t.flags, Flag::HalfCarry)
            &&& has_flag(t.flags, Flag::Zero) == has_flag(s.flags, Flag::Zero)
            &&& has_flag(t.flags, Flag::Carry) == has_flag(s.flags, Flag::Carry)
            &&& forall|i: int| 1 <= i < 14 ==> #[trigger] t.reg(i) == s.reg(i)
            &&& t.mem == s.mem
        }),
        ({
            let t = run_micro_ops(s, main_micro_ops(0x37));
            &&& has_flag(t.flags, Flag::Carry)
            &&& !has_flag(t.flags, Flag::Subtract) && !has_flag(t.flags, Flag::HalfCarry)
            &&& has_flag(t.flags, Flag::Zero) == has_flag(s.flags, Flag::Zero)
            &&& t.r8 == s.r8
            &&& t.mem == s.mem
        }),
        ({
            let t = run_micro_ops(s, main_micro_ops(0x3F));
            &&& has_flag(t.flags, Flag::Carry) == !has_flag(s.flags, Flag::Carry)
            &&& !has_flag(t.flags, Flag::Subtract) && !has_flag(t.flags, Flag::HalfCarry)
            &&& has_flag(t.flags, Flag::Zero) == has_flag(s.flags, Flag::Zero)
            &&& t.r8 == s.r8
            &&& t.mem == s.mem
        }),
{
    lemma_flags_read_back();
    reveal(after_micro_op);
    reveal_with_fuel(run_micro_ops, 2);
    let a = s.reg(0);
    assert(((255 - a) as u8) == !a && (!a) ^ a == 0xFF) by (bit_vector);
    assert(s.set_reg(0, a).r8 =~= s.r8);
}

/// DAA (0x27) after a binary addition of the BCD bytes `x` and `y` (A, N, H and C as
/// the addition leaves them) puts the decimal sum modulo 100 in A, in BCD, and raises C
/// exactly when the decimal sum reaches 100; after a subtraction of `y` from `x` it
/// puts the decimal difference modulo 100 in A and keeps C raised exactly when the
/// subtraction borrowed. Z tells whether A is zero and H is cleared.
#[verifier::rlimit(100)]
pub proof fn lemma_daa_opcode(s: MicroState, x: u8, y: u8)
    requires
        s.wf(),
        is_bcd(x),
        is_bcd(y),
        has_flag(s.flags, Flag::Subtract) ==> {
            &&& s.reg(0) == ((x - y) % 256) as u8
            &&& has_flag(s.flags, Flag::HalfCarry) == (x % 16 < y % 16)
            &&& has_flag(s.flags, Flag::Carry) == (x < y)
        },
        !has_flag(s.flags, Flag::Subtract) ==> {
            &&& s.reg(0) == ((x + y) % 256) as u8
            &&& has_flag(s.flags, Flag::HalfCarry) == (x % 16 + y % 16 > 15)
            &&& has_flag(s.flags, Flag::Carry) == (x + y > 255)
        },
    ensures
        ({
            let t = run_micro_ops(s, main_micro_ops(0x27));
            let r = t.reg(0);
            let n = has_flag(s.flags, Flag::Subtract);
            &&& is_bcd(r)
            &&& !n ==> bcd_value(r) == (bcd_value(x) + bcd_value(y)) % 100
            &&& !n ==> has_flag(t.flags, Flag::Carry) == (bcd_value(x) + bcd_value(y) >= 100)
            &&& n ==> bcd_value(r) == (bcd_value(x) - bcd_value(y)) % 100
            &&& n ==> has_flag(t.flags, Flag::Carry) == (bcd_value(x) < bcd_value(y))
            &&& has_flag(t.flags, Flag::Zero) == (r == 0)
            &&& !has_flag(t.flags, Flag::HalfCarry)
            &&& has_flag(t.flags, Flag::Subtract) == n
        }),
{
    lemma_flags_read_back();
    reveal(after_micro_op);
    reveal_with_fuel(run_micro_ops, 2);
    lemma_daa_after_add(x, y);
    lemma_daa_after_sub(x, y);
    crate::bits::lemma_low_nibble(x);
    crate::bits::lemma_low_nibble(y);
}


/// The cycles of INC r (`inc`) or DEC r on the operand of `code`: an `(HL)` operand is
/// fetched to Z, changed there and written back.
spec fn inc_dec_micro_ops(code: u8, inc: bool) -> Seq<MicroOp> {
    if code == 6 {
        if inc {
            seq![MicroOp::ReadMemory(3, 13), MicroOp::IncAddr(3, 13), MicroOp::Noop]
        } else {
            seq![MicroOp::ReadMemory(3, 13), MicroOp::DecAddr(3, 13), MicroOp::Noop]
        }
    } else if inc {
        seq![MicroOp::IncR8(operand_slot(code) as usize)]
    } else {
        seq![MicroOp::DecR8(operand_slot(code) as usize)]
    }
}

#[verifier::rlimit(100)]
proof fn lemma_inc_dec_table(opcode: u8)
    requires
        opcode < 0x40,
        opcode % 8 == 4 || opcode % 8 == 5,
    ensures
        main_micro_ops(opcode) == inc_dec_micro_ops(((opcode / 8) % 8) as u8, opcode % 8 == 4),
{
    if opcode == 0x04 {
    } else if opcode == 0x05 {
    } else if opcode == 0x0C {
    } else if opcode == 0x0D {
    } else if opcode == 0x14 {
    } else if opcode == 0x15 {
    } else if opcode == 0x1C {
    } else if opcode == 0x1D {
    } else if opcode == 0x24 {
    } else if opcode == 0x25 {
    } else if opcode == 0x2C {
    } else if opcode == 0x2D {
    } else if opcode == 0x34 {
    } else if opcode == 0x35 {
    } else if opcode == 0x3C {
    } else if opcode == 0x3D {
    }
}

/// INC r and DEC r (opcodes 0x04 and 0x05 plus a multiple of 8, below 0x40) add or
/// subtract one, modulo 256, in the operand of bits 5 to 3 (B, C, D, E, H, L, the byte
/// at the address in HL, A); Z tells whether the result is zero, N is raised by DEC only, H tells
/// whether bit 3 carried (INC) or bit 4 borrowed (DEC), and C is kept. Registers but the operand and the scratch slot Z are
/// kept, and memory changes only where the operand is `(HL)`.
#[verifier::rlimit(100)]
pub proof fn lemma_inc_dec_opcodes(s: MicroState, opcode: u8)
    requires
        s.wf(),
        opcode < 0x40,
        opcode % 8 == 4 || opcode % 8 == 5,
    ensures
        ({
            let code = ((opcode / 8) % 8) as u8;
            let v = operand_value(s, code);
            let t = run_micro_ops(s, main_micro_ops(opcode));
            let nv = operand_value(t, code);
            &&& opcode % 8 == 4 ==> nv == ((v + 1) % 256) as u8
            &&& opcode % 8 == 5 ==> nv == ((v - 1) % 256) as u8
            &&& has_flag(t.flags, Flag::Zero) == (nv == 0)
            &&& has_flag(t.flags, Flag::Subtract) == (opcode % 8 == 5)
            &&& has_flag(t.flags, Flag::HalfCarry) == if opcode % 8 == 4 { v % 16 == 15 } else { v % 16 == 0 }
            &&& has_flag(t.flags, Flag::Carry) == has_flag(s.flags, Flag::Carry)
            &&& forall|i: int| 0 <= i < 13 && (code == 6 || i != operand_slot(code)) ==> #[trigger] t.reg(i) == s.reg(i)
            &&& code != 6 ==> t.mem == s.mem
            &&& code == 6 ==> t.mem == s.mem.update(hl_address(s), nv)
        }),
{
    lemma_inc_dec_table(opcode);
    lemma_flags_read_back();
    reveal(after_micro_op);
    reveal_with_fuel(run_micro_ops, 4);
    let code = ((opcode / 8) % 8) as u8;
    let ops = inc_dec_micro_ops(code, opcode % 8 == 4);
    if code == 6 {
        assert(ops.drop_first().drop_first().drop_first().len() == 0);
        if opcode % 8 == 4 {
        } else {
        }
    } else {
        assert(ops.drop_first().len() == 0);
        if opcode % 8 == 4 {
        } else {
        }
    }
}

/// RLCA (0x07), RRCA (0x0F), RLA (0x17) and RRA (0x1F) rotate A as the CB rotations of
/// the same bits 5 to 3 do, but clear Z; N and H are cleared and C takes the bit moved
/// out. The other registers and memory are kept.
#[verifier::rlimit(100)]
pub proof fn lemma_rotate_accumulator_opcodes(s: MicroState, opcode: u8)
    requires
        s.wf(),
        opcode == 0x07 || opcode == 0x0F || opcode == 0x17 || opcode == 0x1F,
    ensures
        ({
            let a = s.reg(0);
            let kind = (opcode / 8) as u8;
            let t = run_micro_ops(s, main_micro_ops(opcode));
            &&& t.reg(0) == shift_value(kind, a, carry_bit(s.flags))
            &&& !has_flag(t.flags, Flag::Zero)
            &&& !has_flag(t.flags, Flag::Subtract) && !has_flag(t.flags, Flag::HalfCarry)
            &&& has_flag(t.flags, Flag::Carry) == shift_carry(kind, a)
            &&& forall|i: int| 1 <= i < 14 ==> #[trigger] t.reg(i) == s.reg(i)
            &&& t.mem == s.mem
        }),
{
    lemma_flags_read_back();
    reveal(after_micro_op);
    reveal_with_fuel(run_micro_ops, 2);
    lemma_bit_forms(s.reg(0), carry_bit(s.flags), 0);
}


/// A 16-bit sum computed a byte at a time: the low bytes first, then the high bytes
/// with the carry out of the low ones.
proof fn lemma_word_sum(h: u8, l: u8, hi: u8, lo: u8)
    ensures
        ({
            let c1: int = if l + lo > 255 { 1 } else { 0 };
            let x = h * 256 + l;
            let y = hi * 256 + lo;
            &&& ((h + hi + c1) % 256) * 256 + (l + lo) % 256 == (x + y) % 65536
            &&& (h % 16 + hi % 16 + c1 > 15) == (x % 4096 + y % 4096 >= 4096)
            &&& (h + hi + c1 > 255) == (x + y >= 65536)
        }),
{
    let c1: int = if l + lo > 255 { 1 } else { 0 };
    assert((l + lo) % 256 == l + lo - 256 * c1);
    let t = h + hi + c1;
    if t >= 256 {
        assert(t % 256 == t - 256);
    } else {
        assert(t % 256 == t);
    }
    assert(h * 256 + l == (h / 16) * 4096 + (h % 16) * 256 + l);
    assert(hi * 256 + lo == (hi / 16) * 4096 + (hi % 16) * 256 + lo);
    assert((h * 256 + l) % 4096 == (h % 16) * 256 + l);
    assert((hi * 256 + lo) % 4096 == (hi % 16) * 256 + lo);
}


#[verifier::rlimit(100)]
proof fn lemma_pair_step_run(s: MicroState, opcode: u8)
    requires
        s.wf(),
        opcode < 0x40,
        opcode % 16 == 3 || opcode % 16 == 11,
    ensures
        ({
            let j = opcode / 16 + 1;
            let v = s.pair(j);
            let t = run_micro_ops(s, main_micro_ops(opcode));
            &&& opcode % 16 == 3 ==> t.pair(j) == ((v + 1) % 65536) as u16
            &&& opcode % 16 == 11 ==> t.pair(j) == ((v - 1) % 65536) as u16
            &&& t.flags == s.flags
            &&& t.mem == s.mem
        }),
{
    reveal(after_micro_op);
    reveal_with_fuel(run_micro_ops, 3);
    let j = opcode / 16 + 1;
    let delta: int = if opcode % 16 == 3 { 1 } else { -1 };
    lemma_pair_set_get(s, j, j, add16(s.pair(j) as int, delta));
    if opcode == 0x03 {
    } else if opcode == 0x0B {
    } else if opcode == 0x13 {
    } else if opcode == 0x1B {
    } else if opcode == 0x23 {
    } else if opcode == 0x2B {
    } else if opcode == 0x33 {
    } else {
    }
}

#[verifier::rlimit(100)]
proof fn lemma_pair_add_run(s: MicroState, opcode: u8)
    requires
        s.wf(),
        opcode < 0x40,
        opcode % 16 == 9,
    ensures
        ({
            let w = s.reg(pair_register_slots(opcode / 16).0) * 256 + s.reg(pair_register_slots(opcode / 16).1);
            let hl = s.reg(6) * 256 + s.reg(7);
            let t = run_micro_ops(s, main_micro_ops(opcode));
            &&& t.reg(6) * 256 + t.reg(7) == (hl + w) % 65536
            &&& !has_flag(t.flags, Flag::Subtract)
            &&& has_flag(t.flags, Flag::Zero) == has_flag(s.flags, Flag::Zero)
            &&& has_flag(t.flags, Flag::HalfCarry) == (hl % 4096 + w % 4096 >= 4096)
            &&& has_flag(t.flags, Flag::Carry) == (hl + w >= 65536)
            &&& t.mem == s.mem
        }),
{
    lemma_flags_read_back();
    reveal(after_micro_op);
    reveal_with_fuel(run_micro_ops, 3);
    let h = s.reg(6);
    let l = s.reg(7);
    let hs = pair_register_slots(opcode / 16).0;
    let ls = pair_register_slots(opcode / 16).1;
    let hi = s.reg(hs);
    let lo = s.reg(ls);
    lemma_word_sum(h, l, hi, lo);
    let ops = main_micro_ops(opcode);
    assert(ops =~= seq![MicroOp::AddR8R8NoZeroFlag(ls as usize, 7), MicroOp::AddR8R8WithCarryAndNoZeroFlag(hs as usize, 6)]) by {
        if opcode == 0x09 {
        } else if opcode == 0x19 {
        } else if opcode == 0x29 {
        } else {
        }
    }
    let s1 = after_micro_op(s, ops[0]);
    assert(s1.reg(6) == h);
    assert(s1.reg(7) == ((l + lo) % 256) as u8);
    assert(s1.reg(hs) == hi);
    assert(has_flag(s1.flags, Flag::Carry) == (l + lo > 255));
    assert(ops.drop_first().drop_first().len() == 0);
}

/// INC rr (0x03 plus a multiple of 16) and DEC rr (0x0B plus a multiple of 16) add or
/// subtract one, modulo 65536, in the pair of bits 5 and 4 (BC, DE, HL, SP: pairs 1 to
/// 4) and keep the flags; ADD HL, rr (0x09 plus a multiple of 16) adds the registers B:C, D:E, H:L
/// or S:P of bits 5 and 4 to H:L
/// modulo 65536, clears N and keeps Z, sets H from the carry out of bit 11 and C from the carry out of bit 15. Memory is kept.
pub proof fn lemma_pair_arithmetic_opcodes(s: MicroState, opcode: u8)
    requires
        s.wf(),
        opcode < 0x40,
        opcode % 16 == 3 || opcode % 16 == 9 || opcode % 16 == 11,
    ensures
        ({
            let j = opcode / 16 + 1;
            let v = s.pair(j);
            let w = s.reg(pair_register_slots(opcode / 16).0) * 256 + s.reg(pair_register_slots(opcode / 16).1);
            let hl = s.reg(6) * 256 + s.reg(7);
            let t = run_micro_ops(s, main_micro_ops(opcode));
            &&& opcode % 16 == 3 ==> t.pair(j) == ((v + 1) % 65536) as u16 && t.flags == s.flags
            &&& opcode % 16 == 11 ==> t.pair(j) == ((v - 1) % 65536) as u16 && t.flags == s.flags
            &&& opcode % 16 == 9 ==> {
                &&& t.reg(6) * 256 + t.reg(7) == (hl + w) % 65536
                &&& !has_flag(t.flags, Flag::Subtract)
                &&& has_flag(t.flags, Flag::Zero) == has_flag(s.flags, Flag::Zero)
                &&& has_flag(t.flags, Flag::HalfCarry) == (hl % 4096 + w % 4096 >= 4096)
                &&& has_flag(t.flags, Flag::Carry) == (hl + w >= 65536)
            }
            &&& t.mem == s.mem
        }),
{
    if opcode % 16 == 9 {
        lemma_pair_add_run(s, opcode);
    } else {
        lemma_pair_step_run(s, opcode);
    }
}


#[verifier::rlimit(100)]
proof fn lemma_immediate_table(opcode: u8)
    requires
        opcode % 8 == 6,
        opcode < 0x40 || opcode >= 0xC0,
    ensures
        opcode >= 0xC0 ==> main_micro_ops(opcode) == seq![MicroOp::ReadMemoryIncr(5, 13), alu_micro_op(((opcode / 8) % 8) as u8, 13)],
        opcode < 0x40 && opcode != 0x36 ==> main_micro_ops(opcode)
            == seq![MicroOp::ReadMemoryIncr(5, 13), MicroOp::LoadR8R8(operand_slot(((opcode / 8) % 8) as u8) as usize, 13)],
        opcode == 0x36 ==> main_micro_ops(opcode) == seq![MicroOp::ReadMemoryIncr(5, 13), MicroOp::WriteMemory(3, 13), MicroOp::Noop],
{
    if opcode == 0x06 {
    } else if opcode == 0x0E {
    } else if opcode == 0x16 {
    } else if opcode == 0x1E {
    } else if opcode == 0x26 {
    } else if opcode == 0x2E {
    } else if opcode == 0x36 {
    } else if opcode == 0x3E {
    } else if opcode == 0xC6 {
    } else if opcode == 0xCE {
    } else if opcode == 0xD6 {
    } else if opcode == 0xDE {
    } else if opcode == 0xE6 {
    } else if opcode == 0xEE {
    } else if opcode == 0xF6 {
    } else if opcode == 0xFE {
    }
}

/// The operations of bits 5 to 3 on A and the byte at PC (0xC6 plus a multiple of 8:
/// ADD, ADC, SUB, SBC, AND, XOR, OR, CP with an immediate) give A, Z, N and C as the
/// same operations on a register do (see `lemma_alu_opcodes`) and step PC by one;
/// LD r, n (0x06 plus a multiple of 8, below 0x40) loads the byte at PC into the operand
/// of bits 5 to 3, steps PC by one and keeps the flags. Registers but the destination,
/// PC and the scratch slot Z are kept; memory changes only where LD writes `(HL)`.
#[verifier::rlimit(100)]
pub proof fn lemma_immediate_opcodes(s: MicroState, opcode: u8)
    requires
        s.wf(),
        opcode % 8 == 6,
        opcode < 0x40 || opcode >= 0xC0,
    ensures
        ({
            let group = ((opcode / 8) % 8) as u8;
            let a = s.reg(0);
            let n = s.mem[s.pair(5) as int];
            let c = carry_value(s.flags);
            let t = run_micro_ops(s, main_micro_ops(opcode));
            &&& opcode >= 0xC0 ==> {
                &&& t.reg(0) == alu_value(group, a, n, c)
                &&& has_flag(t.flags, Flag::Zero) == if group == 7 { a == n } else { alu_value(group, a, n, c) == 0 }
                &&& has_flag(t.flags, Flag::Subtract) == (group == 2 || group == 3 || group == 7)
                &&& has_flag(t.flags, Flag::Carry) == if group == 0 {
                    a + n > 255
                } else if group == 1 {
                    a + n + c > 255
                } else if group == 2 || group == 7 {
                    a < n
                } else if group == 3 {
                    a < n + c
                } else {
                    false
                }
                &&& forall|i: int| 1 <= i < 10 ==> #[trigger] t.reg(i) == s.reg(i)
            }
            &&& opcode < 0x40 && group != 6 ==> {
                &&& t.reg(operand_slot(group)) == n
                &&& forall|i: int| 0 <= i < 10 && i != operand_slot(group) ==> #[trigger] t.reg(i) == s.reg(i)
            }
            &&& opcode < 0x40 ==> t.flags == s.flags
            &&& opcode == 0x36 ==> t.mem == s.mem.update(hl_address(s), n)
            &&& opcode != 0x36 ==> t.mem == s.mem
            &&& t.pair(5) == ((s.pair(5) + 1) % 65536) as u16
        }),
{
    lemma_immediate_table(opcode);
    lemma_flags_read_back();
    reveal(after_micro_op);
    reveal_with_fuel(run_micro_ops, 4);
    let ops = main_micro_ops(opcode);
    lemma_pair_set_get(s, 5, 5, add16(s.pair(5) as int, 1));
    let s1 = after_micro_op(s, ops[0]);
    assert(s1.reg(13) == s.mem[s.pair(5) as int]);
    assert(s1.mem == s.mem);
    assert(s1.flags == s.flags);
    assert(forall|i: int| 0 <= i < 10 ==> #[trigger] s1.reg(i) == s.reg(i));
    assert(s1.pair(5) == add16(s.pair(5) as int, 1));
    if opcode == 0x36 {
        assert(ops.drop_first().drop_first().drop_first().len() == 0);
    } else {
        assert(ops.drop_first().drop_first().len() == 0);
        let g = ((opcode / 8) % 8) as u8;
        if g == 0 {
        } else if g == 1 {
        } else if g == 2 {
        } else if g == 3 {
        } else if g == 4 {
        } else if g == 5 {
        } else if g == 6 {
        } else {
        }
    }
}


/// The slots of the pair that PUSH and POP of code `k` (bits 5 and 4) move: B:C, D:E,
/// H:L, then A with F, whose slot stores the flags byte.
pub open spec fn stack_pair_slots(k: u8) -> (int, int) {
    if k == 0 {
        (1, 2)
    } else if k == 1 {
        (3, 4)
    } else if k == 2 {
        (6, 7)
    } else {
        (0, 5)
    }
}

#[verifier::rlimit(60)]
proof fn lemma_push_run(s: MicroState, k: u8)
    requires
        s.wf(),
        k < 4,
    ensures
        ({
            let sp = s.pair(4);
            let hi = s.reg(stack_pair_slots(k).0);
            let lo = s.stored_byte(stack_pair_slots(k).1);
            let t = run_micro_ops(s, main_micro_ops((0xC5 + 16 * k) as u8));
            &&& t.wf()
            &&& t.pair(4) == ((sp - 2) % 65536) as u16
            &&& t.mem == s.mem.update((sp - 1) % 65536, hi).update((sp - 2) % 65536, lo)
            &&& t.flags == s.flags
            &&& forall|i: int| 0 <= i < 14 && i != 8 && i != 9 ==> #[trigger] t.reg(i) == s.reg(i)
        }),
{
    reveal(after_micro_op);
    reveal_with_fuel(run_micro_ops, 5);
    let sp = s.pair(4);
    let sp1 = add16(sp as int, -1);
    let sp2 = add16(sp1 as int, -1);
    lemma_pair_set_get(s, 4, 4, sp1);
    let s1 = s.set_pair(4, sp1);
    let s2 = s1.set_mem(sp1, s.stored_byte(stack_pair_slots(k).1));
    assert(s2.wf());
    lemma_pair_set_get(s2, 4, 4, sp2);
    if k == 0 {
    } else if k == 1 {
    } else if k == 2 {
    } else {
    }
}


#[verifier::rlimit(60)]
proof fn lemma_pop_run(s: MicroState, k: u8)
    requires
        s.wf(),
        k < 4,
    ensures
        ({
            let sp = s.pair(4);
            let low = s.mem[sp as int];
            let high = s.mem[(sp + 1) % 65536];
            let t = run_micro_ops(s, main_micro_ops((0xC1 + 16 * k) as u8));
            &&& t.pair(4) == ((sp + 2) % 65536) as u16
            &&& t.mem == s.mem
            &&& t.reg(stack_pair_slots(k).0) == high
            &&& k < 3 ==> t.reg(stack_pair_slots(k).1) == low && t.flags == s.flags
            &&& k == 3 ==> {
                &&& t.reg(5) == low & 0xF0
                &&& has_flag(t.flags, Flag::Zero) == (low & 0x80 != 0)
                &&& has_flag(t.flags, Flag::Subtract) == (low & 0x40 != 0)
                &&& has_flag(t.flags, Flag::HalfCarry) == (low & 0x20 != 0)
                &&& has_flag(t.flags, Flag::Carry) == (low & 0x10 != 0)
            }
            &&& forall|i: int|
                0 <= i < 12 && i != 8 && i != 9 && i != stack_pair_slots(k).0 && i != stack_pair_slots(k).1
                    ==> #[trigger] t.reg(i) == s.reg(i)
        }),
{
    lemma_flags_read_back();
    reveal(after_micro_op);
    reveal_with_fuel(run_micro_ops, 4);
    let sp = s.pair(4);
    let sp1 = add16(sp as int, 1);
    let sp2 = add16(sp1 as int, 1);
    let low = s.mem[sp as int];
    let high = s.mem[sp1 as int];
    let s1 = s.set_reg(13, low);
    lemma_pair_set_get(s1, 4, 4, sp1);
    let s2 = s1.set_pair(4, sp1).set_reg(12, high);
    lemma_pair_set_get(s2, 4, 4, sp2);
    let s3 = s2.set_pair(4, sp2);
    assert(s3.pair(6) == word(high, low));
    crate::bits::lemma_word_parts(word(high, low));
    lemma_pair_set_get(s3, 6, 4, word(high, low));
    if k == 3 {
        let v = af_value(word(high, low));
        lemma_pair_set_get(s3, 0, 4, v);
        assert(lo_byte(v) == low & 0xF0) by {
            assert(low & 0xF0 == (low / 16) * 16) by (bit_vector);
        }
        let f = lo_byte(v);
        assert(f & 0x80 != 0 <==> low & 0x80 != 0) by (bit_vector)
            requires f == low & 0xF0;
        assert(f & 0x40 != 0 <==> low & 0x40 != 0) by (bit_vector)
            requires f == low & 0xF0;
        assert(f & 0x20 != 0 <==> low & 0x20 != 0) by (bit_vector)
            requires f == low & 0xF0;
        assert(f & 0x10 != 0 <==> low & 0x10 != 0) by (bit_vector)
            requires f == low & 0xF0;
    } else {
        lemma_pair_set_get(s3, (k + 1) as int, 4, word(high, low));
    }
}


/// PUSH (0xC5 plus 16 times `k`: BC, DE, HL, AF) lowers SP by two, modulo 65536, and
/// stores the high register just below the old SP and the low one (for AF, the flags
/// byte) below that, keeping the registers and flags. POP (0xC1 plus 16 times `k`)
/// loads the low register from the byte at SP and the high one from the byte above and
/// raises SP by two; POP AF takes Z, N, H and C from bits 7 to 4 of the low byte and
/// keeps its low nibble clear. A POP right after a PUSH of the same pair gives back the
/// pair, the flags and SP.
#[verifier::rlimit(100)]
pub proof fn lemma_push_pop_opcodes(s: MicroState, k: u8)
    requires
        s.wf(),
        k < 4,
    ensures
        ({
            let sp = s.pair(4);
            let hs = stack_pair_slots(k).0;
            let ls = stack_pair_slots(k).1;
            let pushed = run_micro_ops(s, main_micro_ops((0xC5 + 16 * k) as u8));
            let popped = run_micro_ops(s, main_micro_ops((0xC1 + 16 * k) as u8));
            let low = s.mem[sp as int];
            let high = s.mem[(sp + 1) % 65536];
            let back = run_micro_ops(pushed, main_micro_ops((0xC1 + 16 * k) as u8));
            &&& pushed.pair(4) == ((sp - 2) % 65536) as u16
            &&& pushed.mem == s.mem.update((sp - 1) % 65536, s.reg(hs)).update((sp - 2) % 65536, s.stored_byte(ls))
            &&& pushed.flags == s.flags
            &&& forall|i: int| 0 <= i < 14 && i != 8 && i != 9 ==> #[trigger] pushed.reg(i) == s.reg(i)
            &&& popped.pair(4) == ((sp + 2) % 65536) as u16
            &&& popped.mem == s.mem
            &&& popped.reg(hs) == high
            &&& k < 3 ==> popped.reg(ls) == low && popped.flags == s.flags
            &&& k == 3 ==> {
                &&& popped.reg(5) == low & 0xF0
                &&& has_flag(popped.flags, Flag::Zero) == (low & 0x80 != 0)
                &&& has_flag(popped.flags, Flag::Subtract) == (low & 0x40 != 0)
                &&& has_flag(popped.flags, Flag::HalfCarry) == (low & 0x20 != 0)
                &&& has_flag(popped.flags, Flag::Carry) == (low & 0x10 != 0)
            }
            &&& back.pair(4) == sp
            &&& back.reg(hs) == s.reg(hs)
            &&& k < 3 ==> back.reg(ls) == s.reg(ls) && back.flags == s.flags
            &&& k == 3 ==> forall|f: Flag| #[trigger] has_flag(back.flags, f) == has_flag(s.flags, f)
        }),
{
    lemma_push_run(s, k);
    lemma_pop_run(s, k);
    let pushed = run_micro_ops(s, main_micro_ops((0xC5 + 16 * k) as u8));
    assert(pushed.wf());
    lemma_pop_run(pushed, k);
    let sp = s.pair(4);
    let fl = s.flags;
    assert(has_flag(fl, Flag::Zero) == (fl & 0x80 != 0));
    assert(has_flag(fl, Flag::Subtract) == (fl & 0x40 != 0));
    assert(has_flag(fl, Flag::HalfCarry) == (fl & 0x20 != 0));
    assert(has_flag(fl, Flag::Carry) == (fl & 0x10 != 0));
    assert(forall|f: Flag| #[trigger] has_flag(fl, f) == (fl & flag_mask(f) != 0));
}


/// LD (rr), A (0x02 plus a multiple of 16) stores A at the address in pair 1, pair 2,
/// HL or HL (bits 5 and 4), and LD A, (rr) (0x0A plus a multiple of 16) loads A from
/// it; the `HL+` forms (0x22, 0x2A) then add one to HL and the `HL-` forms (0x32, 0x3A)
/// subtract one, modulo 65536. The flags are kept.
#[verifier::rlimit(100)]
pub proof fn lemma_indirect_memory_opcodes(s: MicroState, opcode: u8)
    requires
        s.wf(),
        opcode < 0x40,
        opcode % 16 == 2 || opcode % 16 == 10,
    ensures
        ({
            let k = opcode / 16;
            let addr = s.pair(if k < 2 { k + 1 } else { 3 });
            let t = run_micro_ops(s, main_micro_ops(opcode));
            &&& opcode % 16 == 2 ==> t.mem == s.mem.update(addr as int, s.reg(0))
            &&& opcode % 16 == 10 ==> t.reg(0) == s.mem[addr as int] && t.mem == s.mem
            &&& k == 2 ==> t.pair(3) == ((addr + 1) % 65536) as u16
            &&& k == 3 ==> t.pair(3) == ((addr - 1) % 65536) as u16
            &&& k < 2 ==> t.pair(3) == s.pair(3)
            &&& t.flags == s.flags
        }),
{
    reveal(after_micro_op);
    reveal_with_fuel(run_micro_ops, 3);
    let k = opcode / 16;
    let j: int = if k < 2 { k + 1 } else { 3 };
    let addr = s.pair(j);
    let s1 = s.set_mem(addr, s.reg(0));
    let s2 = s.set_reg(13, s.mem[addr as int]);
    lemma_pair_set_get(s1, 3, 3, add16(addr as int, 1));
    lemma_pair_set_get(s1, 3, 3, add16(addr as int, -1));
    lemma_pair_set_get(s2, 3, 3, add16(addr as int, 1));
    lemma_pair_set_get(s2, 3, 3, add16(addr as int, -1));
    if opcode == 0x02 {
    } else if opcode == 0x0A {
    } else if opcode == 0x12 {
    } else if opcode == 0x1A {
    } else if opcode == 0x22 {
    } else if opcode == 0x2A {
    } else if opcode == 0x32 {
    } else {
    }
}

#[verifier::rlimit(100)]
proof fn lemma_direct_memory_run(s: MicroState, opcode: u8, low: u8)
    requires
        s.wf(),
        opcode == 0xE0 || opcode == 0xF0 || opcode == 0xE2 || opcode == 0xF2 || opcode == 0xEA || opcode == 0xFA,
        opcode % 16 == low,
    ensures
        ({
            let pc = s.pair(5);
            let n = s.mem[pc as int];
            let n2 = s.mem[(pc + 1) % 65536];
            let addr: int = if opcode == 0xE0 || opcode == 0xF0 {
                0xFF00 + n
            } else if opcode == 0xE2 || opcode == 0xF2 {
                0xFF00 + s.reg(2)
            } else {
                n2 * 256 + n
            };
            let t = run_micro_ops(s, main_micro_ops(opcode));
            &&& opcode == 0xE0 || opcode == 0xE2 || opcode == 0xEA ==> t.mem == s.mem.update(addr, s.reg(0))
            &&& opcode == 0xF0 || opcode == 0xF2 || opcode == 0xFA ==> t.reg(0) == s.mem[addr] && t.mem == s.mem
            &&& t.pair(5) == ((pc + if opcode % 16 == 0 { 1int } else if opcode % 16 == 2 { 0 } else { 2 }) % 65536) as u16
            &&& t.flags == s.flags
        }),
{
    reveal(after_micro_op);
    reveal_with_fuel(run_micro_ops, 5);
    let pc = s.pair(5);
    let pc1 = add16(pc as int, 1);
    let pc2 = add16(pc1 as int, 1);
    let n = s.mem[pc as int];
    let n2 = s.mem[pc1 as int];
    crate::bits::lemma_word(0xFF, n);
    crate::bits::lemma_word(0xFF, s.reg(2));
    let s1 = s.set_reg(13, n);
    lemma_pair_set_get(s1, 5, 5, pc1);
    let s2 = s1.set_pair(5, pc1).set_reg(12, n2);
    lemma_pair_set_get(s2, 5, 5, pc2);
    lemma_pair_set_get(s2.set_pair(5, pc2), 6, 5, word(n2, n));
    let t = run_micro_ops(s, main_micro_ops(opcode));
    if opcode == 0xE0 {
        assert(t.mem == s.mem.update(0xFF00 + n, s.reg(0)));
        assert(t.pair(5) == pc1);
    } else if opcode == 0xF0 {
        assert(t.reg(0) == s.mem[0xFF00 + n]);
        assert(t.pair(5) == pc1);
    } else if opcode == 0xE2 {
        assert(t.mem == s.mem.update(0xFF00 + s.reg(2), s.reg(0)));
        assert(t.pair(5) == pc);
    } else if opcode == 0xF2 {
        assert(t.reg(0) == s.mem[0xFF00 + s.reg(2)]);
        assert(t.pair(5) == pc);
    } else if opcode == 0xEA {
        assert(t.mem == s.mem.update(n2 * 256 + n, s.reg(0)));
        assert(t.pair(5) == pc2);
    } else {
        assert(t.reg(0) == s.mem[n2 * 256 + n]);
        assert(t.pair(5) == pc2);
    }
}

/// LDH (n), A (0xE0) and LDH A, (n) (0xF0) store A at, or load A from, 0xFF00 plus
/// the byte at PC and step PC by one; LD (C), A (0xE2) and LD A, (C) (0xF2) do so at
/// 0xFF00 plus C; LD (nn), A (0xEA) and LD A, (nn) (0xFA) at the address given by the
/// two bytes at PC, low byte first, and step PC by two. The flags are kept.
#[verifier::rlimit(100)]
pub proof fn lemma_direct_memory_opcodes(s: MicroState, opcode: u8)
    requires
        s.wf(),
        opcode == 0xE0 || opcode == 0xF0 || opcode == 0xE2 || opcode == 0xF2 || opcode == 0xEA || opcode == 0xFA,
    ensures
        ({
            let pc = s.pair(5);
            let n = s.mem[pc as int];
            let n2 = s.mem[(pc + 1) % 65536];
            let addr: int = if opcode == 0xE0 || opcode == 0xF0 {
                0xFF00 + n
            } else if opcode == 0xE2 || opcode == 0xF2 {
                0xFF00 + s.reg(2)
            } else {
                n2 * 256 + n
            };
            let t = run_micro_ops(s, main_micro_ops(opcode));
            &&& opcode == 0xE0 || opcode == 0xE2 || opcode == 0xEA ==> t.mem == s.mem.update(addr, s.reg(0))
            &&& opcode == 0xF0 || opcode == 0xF2 || opcode == 0xFA ==> t.reg(0) == s.mem[addr] && t.mem == s.mem
            &&& t.pair(5) == ((pc + if opcode % 16 == 0 { 1int } else if opcode % 16 == 2 { 0 } else { 2 }) % 65536) as u16
            &&& t.flags == s.flags
        }),
{
    if opcode % 16 == 0 {
        lemma_direct_memory_run(s, opcode, 0);
    } else if opcode % 16 == 2 {
        lemma_direct_memory_run(s, opcode, 2);
    } else {
        lemma_direct_memory_run(s, opcode, 10);
    }
}


/// LD rr, nn (0x01 plus a multiple of 16) loads pair 1 to 4 (bits 5 and 4, plus one)
/// with the two bytes at PC, low byte first, and steps PC by two; LD SP, HL (0xF9)
/// copies HL into SP; LD (nn), SP (0x08) stores the low byte of SP at the address given
/// by the two bytes at PC and the high byte just above, and steps PC by two. The flags
/// are kept, and memory but for LD (nn), SP.
#[verifier::rlimit(100)]
pub proof fn lemma_load_pair_opcodes(s: MicroState, opcode: u8)
    requires
        s.wf(),
        opcode == 0x01 || opcode == 0x11 || opcode == 0x21 || opcode == 0x31 || opcode == 0xF9 || opcode == 0x08,
    ensures
        ({
            let pc = s.pair(5);
            let n = s.mem[pc as int];
            let n2 = s.mem[(pc + 1) % 65536];
            let t = run_micro_ops(s, main_micro_ops(opcode));
            &&& opcode % 16 == 1 ==> {
                &&& t.pair(opcode / 16 + 1) == n2 * 256 + n
                &&& t.pair(5) == ((pc + 2) % 65536) as u16
                &&& t.mem == s.mem
            }
            &&& opcode == 0xF9 ==> t.pair(4) == s.pair(3) && t.pair(5) == pc && t.mem == s.mem
            &&& opcode == 0x08 ==> {
                &&& t.mem == s.mem.update(n2 * 256 + n, s.reg(9)).update((n2 * 256 + n + 1) % 65536, s.reg(8))
                &&& t.pair(5) == ((pc + 2) % 65536) as u16
            }
            &&& t.flags == s.flags
        }),
{
    reveal(after_micro_op);
    reveal_with_fuel(run_micro_ops, 6);
    let pc = s.pair(5);
    let pc1 = add16(pc as int, 1);
    let pc2 = add16(pc1 as int, 1);
    let n = s.mem[pc as int];
    let n2 = s.mem[pc1 as int];
    let ops = main_micro_ops(opcode);
    if opcode == 0xF9 {
        lemma_pair_set_get(s, 4, 4, s.pair(3));
        lemma_pair_set_get(s, 4, 5, s.pair(3));
    } else {
        let s1 = s.set_reg(13, n);
        lemma_pair_set_get(s1, 5, 5, pc1);
        let s2 = s1.set_pair(5, pc1).set_reg(12, n2);
        lemma_pair_set_get(s2, 5, 5, pc2);
        lemma_pair_set_get(s2, 5, 6, pc2);
        let s3 = s2.set_pair(5, pc2);
        assert(s3.pair(6) == word(n2, n));
        if opcode == 0x08 {
            let a = word(n2, n);
            let m1 = s3.set_mem(a, s.reg(9));
            lemma_pair_set_get(m1, 6, 5, add16(a as int, 1));
            lemma_pair_set_get(m1, 6, 6, add16(a as int, 1));
        } else {
            let j = opcode / 16 + 1;
            lemma_pair_set_get(s3, j as int, j as int, word(n2, n));
            lemma_pair_set_get(s3, j as int, 5, word(n2, n));
            if opcode == 0x01 {
            } else if opcode == 0x11 {
            } else if opcode == 0x21 {
            } else {
            }
        }
    }
}


/// SP plus a signed offset computed a byte at a time: the low byte of SP plus the
/// offset byte, then the high byte plus the sign fill and the carry.
proof fn lemma_offset_sum(sh: u8, sl: u8, e: u8)
    ensures
        ({
            let c: int = if sl + e > 255 { 1 } else { 0 };
            let fill: int = if e >= 0x80 { 0xFF } else { 0 };
            let offset: int = if e >= 128 { e - 256 } else { e as int };
            ((sh + fill + c) % 256) * 256 + (sl + e) % 256 == (sh * 256 + sl + offset) % 65536
        }),
{
    let fill: u8 = if e >= 0x80 { 0xFF } else { 0 };
    lemma_word_sum(sh, sl, fill, e);
    let x = sh * 256 + sl;
    if e >= 128 {
        assert((x + 65280 + e) % 65536 == (x + e - 256) % 65536) by {
            assert(x + 65280 + e == (x + e - 256) + 65536);
        }
    }
}

/// LD HL, SP + e (0xF8) puts SP plus the byte at PC read as a signed number, modulo
/// 65536, in HL, and steps PC by one; ADD SP, e (0xE8) puts that sum in SP. Both
/// clear Z and N, set H from the carry out of bit 3 and C from the carry out of bit 7 of
/// the low byte of SP plus the offset byte.
#[verifier::rlimit(100)]
pub proof fn lemma_stack_offset_opcodes(s: MicroState, opcode: u8)
    requires
        s.wf(),
        opcode == 0xF8 || opcode == 0xE8,
    ensures
        ({
            let pc = s.pair(5);
            let sp = s.reg(8) * 256 + s.reg(9);
            let e = s.mem[pc as int];
            let offset: int = if e >= 128 { e - 256 } else { e as int };
            let t = run_micro_ops(s, main_micro_ops(opcode));
            &&& opcode == 0xF8 ==> t.reg(6) * 256 + t.reg(7) == (sp + offset) % 65536
            &&& opcode == 0xE8 ==> t.pair(4) == (sp + offset) % 65536
            &&& !has_flag(t.flags, Flag::Zero) && !has_flag(t.flags, Flag::Subtract)
            &&& has_flag(t.flags, Flag::HalfCarry) == (sp % 16 + e % 16 > 15)
            &&& has_flag(t.flags, Flag::Carry) == (sp % 256 + e > 255)
            &&& t.pair(5) == ((pc + 1) % 65536) as u16
            &&& t.mem == s.mem
        }),
{
    lemma_flags_read_back();
    reveal(after_micro_op);
    reveal_with_fuel(run_micro_ops, 5);
    let pc = s.pair(5);
    let pc1 = add16(pc as int, 1);
    let e = s.mem[pc as int];
    let p = s.reg(9);
    lemma_offset_sum(s.reg(8), p, e);
    crate::bits::lemma_low_nibble(p);
    crate::bits::lemma_low_nibble(e);
    assert((s.reg(8) * 256 + p) % 16 == p % 16);
    assert((s.reg(8) * 256 + p) % 256 == p as int);
    let s1 = s.set_reg(13, e);
    lemma_pair_set_get(s1, 5, 5, pc1);
    let r = s1.set_pair(5, pc1);
    assert(r.reg(8) == s.reg(8) && r.reg(9) == p && r.reg(13) == e);
    if opcode == 0xE8 {
        let z = ((p + e) % 256) as u8;
        assert(((z - p) % 256) as u8 == e);
    }
}

} // verus!
