use vstd::prelude::*;

use crate::cpu2::defines::{add16, cond_holds, has_flag, hi_byte, lo_byte, word, CpuState, Flag, MicroOp};
use crate::cpu2::implemenation::{after_current_op, after_micro_op, lemma_pair_set_get};
use crate::cpu2::instructions::cond::{after_check_cond, after_relative_jump, signed_offset};
use crate::cpu2::instructions::load::{after_load_r16_r16, after_read_memory_incr};
use crate::cpu2::operations::opcode_micro_ops;

verus! {

/// The cycles in the queue run one after another from the current one, as ticks run
/// them, until the instruction ends or `fuel` cycles have run.
pub open spec fn run_queue(s: CpuState, fuel: nat) -> CpuState
    decreases fuel,
{
    if fuel == 0 || s.op_index >= s.queue.len() {
        s
    } else {
        run_queue(after_current_op(s), (fuel - 1) as nat)
    }
}

/// The state in which the cycles of `opcode` start, its opcode byte already fetched.
pub open spec fn start_instruction(s: CpuState, opcode: u8) -> CpuState {
    s.set_queue(opcode_micro_ops(opcode)->0).set_op_index(0)
}

/// Whether the condition of bits 4 and 3 (NZ, Z, NC, C) holds for the flags byte.
pub open spec fn condition_holds(opcode: u8, flags: u8) -> bool {
    let k = (opcode / 8) % 4;
    if k == 0 {
        !has_flag(flags, Flag::Zero)
    } else if k == 1 {
        has_flag(flags, Flag::Zero)
    } else if k == 2 {
        !has_flag(flags, Flag::Carry)
    } else {
        has_flag(flags, Flag::Carry)
    }
}

proof fn lemma_queue_step(s: CpuState, fuel: nat)
    requires
        0 <= s.op_index < s.queue.len(),
        fuel > 0,
    ensures
        run_queue(s, fuel) == run_queue(after_current_op(s), (fuel - 1) as nat),
{
}

proof fn lemma_queue_end(s: CpuState, fuel: nat)
    requires
        s.op_index >= s.queue.len(),
    ensures
        run_queue(s, fuel) == s,
{
}

proof fn lemma_cycle(s: CpuState, op: MicroOp)
    ensures
        op == MicroOp::Noop ==> after_micro_op(s, op) == s,
        op is ReadMemoryIncr ==> after_micro_op(s, op) == after_read_memory_incr(
            s,
            op->ReadMemoryIncr_0 as int,
            op->ReadMemoryIncr_1 as int,
        ),
        op is CheckCond ==> after_micro_op(s, op) == after_check_cond(s, op->CheckCond_0),
        op == MicroOp::RelativeJump ==> after_micro_op(s, op) == after_relative_jump(s),
        op is LoadR16R16 ==> after_micro_op(s, op) == after_load_r16_r16(
            s,
            op->LoadR16R16_0 as int,
            op->LoadR16R16_1 as int,
        ),
{
}

/// Two operand reads at PC: Z and then W take the bytes at PC and PC + 1, and PC
/// steps by two.
#[verifier::rlimit(100)]
proof fn lemma_read_two(s: CpuState, ops: Seq<MicroOp>, first: int)
    requires
        s.wf(),
        s.queue == ops,
        s.op_index == first,
        0 <= first,
        first + 2 <= ops.len(),
        ops[first] == MicroOp::ReadMemoryIncr(5, 13),
        ops[first + 1] == MicroOp::ReadMemoryIncr(5, 12),
    ensures
        ({
            let pc = s.pair(5);
            let pc1 = add16(pc as int, 1);
            let t = after_current_op(after_current_op(s));
            &&& t.op_index == first + 2
            &&& t.queue == ops
            &&& t.pair(5) == add16(pc1 as int, 1)
            &&& t.pair(6) == word(s.bus[pc1 as int], s.bus[pc as int])
            &&& t.wf()
            &&& t.flags == s.flags
            &&& t.bus == s.bus
            &&& forall|i: int| 0 <= i < 10 ==> #[trigger] t.reg(i) == s.reg(i)
        }),
{
    let pc = s.pair(5);
    let pc1 = add16(pc as int, 1);
    let pc2 = add16(pc1 as int, 1);
    lemma_cycle(s.set_op_index(first + 1), ops[first]);
    let r1 = s.set_op_index(first + 1).set_reg(13, s.bus[pc as int]);
    lemma_pair_set_get(r1, 5, 5, pc1);
    lemma_pair_set_get(r1, 5, 6, pc1);
    let s1 = after_current_op(s);
    assert(s1 == r1.set_pair(5, pc1));
    lemma_cycle(s1.set_op_index(first + 2), ops[first + 1]);
    let r2 = s1.set_op_index(first + 2).set_reg(12, s.bus[pc1 as int]);
    lemma_pair_set_get(r2, 5, 5, pc2);
    lemma_pair_set_get(r2, 5, 6, pc2);
    let s2 = after_current_op(s1);
    assert(s2 == r2.set_pair(5, pc2));
}


/// Once the instruction has ended, more fuel changes nothing.
proof fn lemma_queue_more_fuel(s: CpuState, f: nat, g: nat)
    requires
        f <= g,
        run_queue(s, f).op_index >= run_queue(s, f).queue.len(),
    ensures
        run_queue(s, g) == run_queue(s, f),
    decreases f,
{
    if s.op_index >= s.queue.len() {
    } else if f == 0 {
    } else {
        lemma_queue_more_fuel(after_current_op(s), (f - 1) as nat, (g - 1) as nat);
    }
}

#[verifier::rlimit(100)]
proof fn lemma_relative_jump_run(s: CpuState, opcode: u8)
    requires
        s.wf(),
        opcode == 0x18 || opcode == 0x20 || opcode == 0x28 || opcode == 0x30 || opcode == 0x38,
    ensures
        ({
            let pc = s.pair(5);
            let n = s.bus[pc as int];
            let offset: int = if n >= 128 { n - 256 } else { n as int };
            let taken = opcode == 0x18 || condition_holds(opcode, s.flags);
            let t = run_queue(start_instruction(s, opcode), 8);
            &&& taken ==> t.pair(5) == ((pc + 1 + offset) % 65536) as u16
            &&& !taken ==> t.pair(5) == ((pc + 1) % 65536) as u16
            &&& t.flags == s.flags
            &&& t.bus == s.bus
            &&& forall|i: int| 0 <= i < 10 ==> #[trigger] t.reg(i) == s.reg(i)
        }),
{
    let pc = s.pair(5);
    let n = s.bus[pc as int];
    let pc1 = add16(pc as int, 1);
    let s0 = start_instruction(s, opcode);
    let ops = opcode_micro_ops(opcode)->0;
    assert(ops.len() == 3 && ops[0] == MicroOp::ReadMemoryIncr(5, 13));
    assert(opcode == 0x18 ==> ops[1] == MicroOp::RelativeJump && ops[2] == MicroOp::Noop);
    assert(opcode != 0x18 ==> ops[1] is CheckCond && cond_holds(ops[1]->CheckCond_0, s.flags) == condition_holds(
        opcode,
        s.flags,
    ) && ops[2] == MicroOp::RelativeJump);
    let taken = opcode == 0x18 || condition_holds(opcode, s.flags);
    lemma_queue_step(s0, 8);
    lemma_cycle(s0.set_op_index(1), ops[0]);
    let r = s0.set_op_index(1).set_reg(13, n);
    lemma_pair_set_get(r, 5, 5, pc1);
    let s1 = after_current_op(s0);
    assert(s1 == r.set_pair(5, pc1));
    let target = add16(pc1 as int, signed_offset(n));
    if opcode == 0x18 {
        lemma_queue_step(s1, 7);
        lemma_cycle(s1.set_op_index(2), ops[1]);
        let j = s1.set_op_index(2).set_reg(13, lo_byte(target)).set_reg(12, hi_byte(target));
        lemma_pair_set_get(j, 5, 5, target);
        let s2 = after_current_op(s1);
        lemma_queue_step(s2, 6);
        lemma_cycle(s2.set_op_index(3), ops[2]);
        let s3 = after_current_op(s2);
        lemma_queue_end(s3, 5);
    } else {
        lemma_queue_step(s1, 7);
        lemma_cycle(s1.set_op_index(2), ops[1]);
        let s2 = after_current_op(s1);
        if taken {
            lemma_queue_step(s2, 6);
            lemma_cycle(s2.set_op_index(3), ops[2]);
            let j = s2.set_op_index(3).set_reg(13, lo_byte(target)).set_reg(12, hi_byte(target));
            lemma_pair_set_get(j, 5, 5, target);
            let s3 = after_current_op(s2);
            lemma_queue_end(s3, 5);
        } else {
            lemma_queue_end(s2, 6);
        }
    }
}

#[verifier::rlimit(100)]
proof fn lemma_absolute_jump_run(s: CpuState, opcode: u8)
    requires
        s.wf(),
        opcode == 0xC3 || opcode == 0xC2 || opcode == 0xCA || opcode == 0xD2 || opcode == 0xDA,
    ensures
        ({
            let pc = s.pair(5);
            let n = s.bus[pc as int];
            let n2 = s.bus[(pc + 1) % 65536];
            let taken = opcode == 0xC3 || condition_holds(opcode, s.flags);
            let t = run_queue(start_instruction(s, opcode), 8);
            &&& taken ==> t.pair(5) == n2 * 256 + n
            &&& !taken ==> t.pair(5) == ((pc + 2) % 65536) as u16
            &&& t.flags == s.flags
            &&& t.bus == s.bus
            &&& forall|i: int| 0 <= i < 10 ==> #[trigger] t.reg(i) == s.reg(i)
        }),
{
    let s0 = start_instruction(s, opcode);
    let ops = opcode_micro_ops(opcode)->0;
    assert(ops[0] == MicroOp::ReadMemoryIncr(5, 13) && ops[1] == MicroOp::ReadMemoryIncr(5, 12));
    assert(opcode == 0xC3 ==> ops.len() == 4 && ops[2] == MicroOp::LoadR16R16(5, 6) && ops[3] == MicroOp::Noop);
    assert(opcode != 0xC3 ==> ops.len() == 5 && ops[2] is CheckCond && cond_holds(ops[2]->CheckCond_0, s.flags)
        == condition_holds(opcode, s.flags) && ops[3] == MicroOp::LoadR16R16(5, 6) && ops[4] == MicroOp::Noop);
    let taken = opcode == 0xC3 || condition_holds(opcode, s.flags);
    lemma_queue_step(s0, 8);
    lemma_queue_step(after_current_op(s0), 7);
    lemma_read_two(s0, ops, 0);
    let s2 = after_current_op(after_current_op(s0));
    let target = s2.pair(6);
    if opcode == 0xC3 {
        lemma_queue_step(s2, 6);
        lemma_cycle(s2.set_op_index(3), ops[2]);
        lemma_pair_set_get(s2.set_op_index(3), 5, 5, target);
        let s3 = after_current_op(s2);
        lemma_queue_step(s3, 5);
        lemma_cycle(s3.set_op_index(4), ops[3]);
        lemma_queue_end(after_current_op(s3), 4);
    } else {
        lemma_queue_step(s2, 6);
        lemma_cycle(s2.set_op_index(3), ops[2]);
        let s3 = after_current_op(s2);
        if taken {
            lemma_queue_step(s3, 5);
            lemma_cycle(s3.set_op_index(4), ops[3]);
            lemma_pair_set_get(s3.set_op_index(4), 5, 5, target);
            let s4 = after_current_op(s3);
            lemma_queue_step(s4, 4);
            lemma_cycle(s4.set_op_index(5), ops[4]);
            lemma_queue_end(after_current_op(s4), 3);
        } else {
            lemma_queue_end(s3, 5);
        }
    }
}


#[verifier::rlimit(100)]
proof fn lemma_pop_pc_cycles(s: CpuState, ops: Seq<MicroOp>)
    requires
        s.wf(),
        0 <= s.op_index,
        s.op_index + 4 == s.queue.len(),
        s.queue == ops,
        ops[s.op_index] == MicroOp::ReadMemoryIncr(4, 13),
        ops[s.op_index + 1] == MicroOp::ReadMemoryIncr(4, 12),
        ops[s.op_index + 2] == MicroOp::LoadR16R16(5, 6),
        ops[s.op_index + 3] == MicroOp::Noop,
    ensures
        ({
            let sp = s.pair(4);
            let t = run_queue(s, 4);
            &&& t.op_index >= t.queue.len()
            &&& t.pair(5) == s.bus[(sp + 1) % 65536] * 256 + s.bus[sp as int]
            &&& t.pair(4) == ((sp + 2) % 65536) as u16
            &&& t.bus == s.bus
            &&& t.flags == s.flags
            &&& forall|i: int| 0 <= i < 8 ==> #[trigger] t.reg(i) == s.reg(i)
        }),
{
    let k = s.op_index;
    let sp = s.pair(4);
    let sp1 = add16(sp as int, 1);
    let sp2 = add16(sp1 as int, 1);
    let lo = s.bus[sp as int];
    let hi = s.bus[sp1 as int];
    lemma_queue_step(s, 4);
    lemma_cycle(s.set_op_index(k + 1), ops[k]);
    let r1 = s.set_op_index(k + 1).set_reg(13, lo);
    lemma_pair_set_get(r1, 4, 4, sp1);
    let s1 = after_current_op(s);
    assert(s1 == r1.set_pair(4, sp1));
    lemma_queue_step(s1, 3);
    lemma_cycle(s1.set_op_index(k + 2), ops[k + 1]);
    let r2 = s1.set_op_index(k + 2).set_reg(12, hi);
    lemma_pair_set_get(r2, 4, 4, sp2);
    let s2 = after_current_op(s1);
    assert(s2 == r2.set_pair(4, sp2));
    lemma_queue_step(s2, 2);
    lemma_cycle(s2.set_op_index(k + 3), ops[k + 2]);
    assert(s2.pair(6) == word(hi, lo));
    lemma_pair_set_get(s2.set_op_index(k + 3), 5, 5, s2.pair(6));
    lemma_pair_set_get(s2.set_op_index(k + 3), 5, 4, s2.pair(6));
    let s3 = after_current_op(s2);
    lemma_queue_step(s3, 1);
    lemma_cycle(s3.set_op_index(k + 4), ops[k + 3]);
    lemma_queue_end(after_current_op(s3), 0);
}

#[verifier::rlimit(100)]
proof fn lemma_return_run(s: CpuState, opcode: u8)
    requires
        s.wf(),
        opcode == 0xC9 || opcode == 0xC0 || opcode == 0xC8 || opcode == 0xD0 || opcode == 0xD8,
    ensures
        ({
            let pc = s.pair(5);
            let sp = s.pair(4);
            let taken = opcode == 0xC9 || condition_holds(opcode, s.flags);
            let t = run_queue(start_instruction(s, opcode), 8);
            &&& taken ==> {
                &&& t.pair(5) == s.bus[(sp + 1) % 65536] * 256 + s.bus[sp as int]
                &&& t.pair(4) == ((sp + 2) % 65536) as u16
            }
            &&& !taken ==> t.pair(5) == pc && t.pair(4) == sp
            &&& t.bus == s.bus
            &&& t.flags == s.flags
            &&& forall|i: int| 0 <= i < 8 ==> #[trigger] t.reg(i) == s.reg(i)
        }),
{
    let s0 = start_instruction(s, opcode);
    let ops = opcode_micro_ops(opcode)->0;
    if opcode == 0xC9 {
        assert(ops.len() == 4 && ops[0] == MicroOp::ReadMemoryIncr(4, 13) && ops[1] == MicroOp::ReadMemoryIncr(4, 12)
            && ops[2] == MicroOp::LoadR16R16(5, 6) && ops[3] == MicroOp::Noop);
        lemma_pop_pc_cycles(s0, ops);
        lemma_queue_more_fuel(s0, 4, 8);
    } else {
        assert(ops.len() == 5 && ops[0] is CheckCond && cond_holds(ops[0]->CheckCond_0, s.flags) == condition_holds(
            opcode,
            s.flags,
        ) && ops[1] == MicroOp::ReadMemoryIncr(4, 13) && ops[2] == MicroOp::ReadMemoryIncr(4, 12) && ops[3]
            == MicroOp::LoadR16R16(5, 6) && ops[4] == MicroOp::Noop);
        lemma_queue_step(s0, 8);
        lemma_cycle(s0.set_op_index(1), ops[0]);
        let s1 = after_current_op(s0);
        if condition_holds(opcode, s.flags) {
            lemma_pop_pc_cycles(s1, ops);
            lemma_queue_more_fuel(s1, 4, 7);
        } else {
            lemma_queue_end(s1, 7);
        }
    }
}

/// JR e (0x18) and JP nn (0xC3) always jump; JR cc, e (0x20, 0x28, 0x30, 0x38) and
/// JP cc, nn (0xC2, 0xCA, 0xD2, 0xDA) jump exactly when the condition of bits 4 and 3
/// holds. PC stands on the byte after the opcode when the cycles start. JR moves PC
/// past its operand byte and then by that byte read as a signed number, modulo 65536;
/// JP goes to the address of its two operand bytes, low byte first; a jump not taken
/// leaves PC past the operands. RET (0xC9) always returns and RET cc (0xC0, 0xC8, 0xD0,
/// 0xD8) returns exactly when its condition holds: PC is loaded from the two bytes at
/// SP, low byte first, and SP rises by two; not taken, nothing moves. Flags, memory and
/// the registers A to L are kept.
pub proof fn lemma_jump_return_opcodes(s: CpuState, opcode: u8)
    requires
        s.wf(),
        opcode == 0x18 || opcode == 0x20 || opcode == 0x28 || opcode == 0x30 || opcode == 0x38 || opcode == 0xC3
            || opcode == 0xC2 || opcode == 0xCA || opcode == 0xD2 || opcode == 0xDA || opcode == 0xC9 || opcode == 0xC0
            || opcode == 0xC8 || opcode == 0xD0 || opcode == 0xD8,
    ensures
        opcode_micro_ops(opcode) is Some,
        ({
            let pc = s.pair(5);
            let sp = s.pair(4);
            let n = s.bus[pc as int];
            let n2 = s.bus[(pc + 1) % 65536];
            let offset: int = if n >= 128 { n - 256 } else { n as int };
            let ret = opcode % 8 == 0 && opcode >= 0xC0 || opcode == 0xC9;
            let taken = opcode == 0x18 || opcode == 0xC3 || opcode == 0xC9 || condition_holds(opcode, s.flags);
            let t = run_queue(start_instruction(s, opcode), 8);
            &&& opcode < 0x40 && taken ==> t.pair(5) == ((pc + 1 + offset) % 65536) as u16
            &&& opcode < 0x40 && !taken ==> t.pair(5) == ((pc + 1) % 65536) as u16
            &&& opcode >= 0xC0 && !ret && taken ==> t.pair(5) == n2 * 256 + n
            &&& opcode >= 0xC0 && !ret && !taken ==> t.pair(5) == ((pc + 2) % 65536) as u16
            &&& ret && taken ==> {
                &&& t.pair(5) == s.bus[(sp + 1) % 65536] * 256 + s.bus[sp as int]
                &&& t.pair(4) == ((sp + 2) % 65536) as u16
            }
            &&& ret && !taken ==> t.pair(5) == pc && t.pair(4) == sp
            &&& t.flags == s.flags
            &&& t.bus == s.bus
            &&& forall|i: int| 0 <= i < 8 ==> #[trigger] t.reg(i) == s.reg(i)
        }),
{
    if opcode < 0x40 {
        lemma_relative_jump_run(s, opcode);
    } else if opcode % 8 == 0 || opcode == 0xC9 {
        lemma_return_run(s, opcode);
    } else {
        lemma_absolute_jump_run(s, opcode);
    }
}

} // verus!
