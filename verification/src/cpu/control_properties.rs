use vstd::prelude::*;

use crate::cpu::defines::{MicroOp, MicroState};
use crate::cpu::ops::cond::{after_check_cond, after_read_memory_incr_check, after_relative_jump};
use crate::cpu::ops::load::{after_load_r16_r16, after_read_memory_incr, after_write_memory_decr, after_write_memory_reassign_pc, after_write_memory_rst, bump_pair};
use crate::cpu::instructions::main_micro_ops;
use crate::cpu2::defines::{add16, cond_holds, has_flag, hi_byte, lo_byte, Flag};
use crate::cpu::defines::lemma_pair_set_get;
use crate::cpu2::instructions::cond::signed_offset;
use crate::cpu_def::{after_current_op, after_ime_state, after_micro_op};
use crate::mmu::{lemma_interrupt_priority, next_request, IE_ADDR, IF_ADDR};

verus! {

/// The cycles in the queue run one after another from the current one, as ticks run
/// them, until the instruction ends or `fuel` cycles have run.
pub open spec fn run_queue(s: MicroState, fuel: nat) -> MicroState
    decreases fuel,
{
    if fuel == 0 || s.op_index >= s.queue_len {
        s
    } else {
        run_queue(after_current_op(s), (fuel - 1) as nat)
    }
}

/// The state in which the cycles of `opcode` start, its opcode byte already read.
pub open spec fn start_instruction(s: MicroState, opcode: u8) -> MicroState {
    s.set_queue(main_micro_ops(opcode)).set_op_index(0)
}

/// Whether the condition of bits 4 and 3 (NZ, Z, NC, C) holds for the flags byte.
pub open spec fn condition_holds(opcode: u8, flags: u8) -> bool {
    let k = (opcode / 8) % 4;
    if k == 0 {
        !has_flag(flags, Flag::Zero)
    } else if k == 1 {
        has_flag(flags, Flag::Zero)
    } else if k == 2 {
        !has_flag(flags, Flag::Carry)
    } else {
        has_flag(flags, Flag::Carry)
    }
}

proof fn lemma_queue_step(s: MicroState, fuel: nat)
    requires
        0 <= s.op_index < s.queue_len,
        fuel > 0,
    ensures
        run_queue(s, fuel) == run_queue(after_current_op(s), (fuel - 1) as nat),
{
}

proof fn lemma_queue_end(s: MicroState, fuel: nat)
    requires
        s.op_index >= s.queue_len,
    ensures
        run_queue(s, fuel) == s,
{
}

/// Once the instruction has ended, more fuel changes nothing.
proof fn lemma_queue_more_fuel(s: MicroState, f: nat, g: nat)
    requires
        f <= g,
        run_queue(s, f).op_index >= run_queue(s, f).queue_len,
    ensures
        run_queue(s, g) == run_queue(s, f),
    decreases f,
{
    if s.op_index >= s.queue_len {
    } else if f == 0 {
    } else {
        lemma_queue_more_fuel(after_current_op(s), (f - 1) as nat, (g - 1) as nat);
    }
}

proof fn lemma_cycle(s: MicroState, op: MicroOp)
    ensures
        op == MicroOp::Noop ==> after_micro_op(s, op) == s,
        op is ReadMemoryIncr ==> after_micro_op(s, op) == after_read_memory_incr(
            s,
            op->ReadMemoryIncr_0 as int,
            op->ReadMemoryIncr_1 as int,
        ),
        op is ReadMemoryIncrCheck ==> after_micro_op(s, op) == after_read_memory_incr_check(
            s,
            op->ReadMemoryIncrCheck_0 as int,
            op->ReadMemoryIncrCheck_1 as int,
            op->ReadMemoryIncrCheck_2,
        ),
        op is CheckCond ==> after_micro_op(s, op) == after_check_cond(s, op->CheckCond_0),
        op == MicroOp::RelativeJump ==> after_micro_op(s, op) == after_relative_jump(s),
        op is LoadR16R16 ==> after_micro_op(s, op) == after_load_r16_r16(
            s,
            op->LoadR16R16_0 as int,
            op->LoadR16R16_1 as int,
        ),
        op is DecR16 ==> after_micro_op(s, op) == bump_pair(s, op->DecR16_0 as int, -1),
        op is WriteMemoryDecr ==> after_micro_op(s, op) == after_write_memory_decr(
            s,
            op->WriteMemoryDecr_0 as int,
            op->WriteMemoryDecr_1 as int,
        ),
        op is WriteMemoryReassignPc ==> after_micro_op(s, op) == after_write_memory_reassign_pc(
            s,
            op->WriteMemoryReassignPc_0 as int,
            op->WriteMemoryReassignPc_1 as int,
        ),
        op is WriteMemoryRst ==> after_micro_op(s, op) == after_write_memory_rst(
            s,
            op->WriteMemoryRst_0,
            op->WriteMemoryRst_1 as int,
            op->WriteMemoryRst_2 as int,
        ),
{
    reveal(after_micro_op);
}

/// What a jump leaves unchanged: flags, memory and the registers but PC and W:Z.
pub open spec fn keeps_all_but_pc(s: MicroState, t: MicroState) -> bool {
    &&& t.flags == s.flags
    &&& t.mem == s.mem
    &&& forall|i: int| 0 <= i < 10 ==> #[trigger] t.reg(i) == s.reg(i)
}

#[verifier::rlimit(100)]
proof fn lemma_relative_jump_run(s: MicroState, opcode: u8)
    requires
        s.wf(),
        opcode == 0x18 || opcode == 0x20 || opcode == 0x28 || opcode == 0x30 || opcode == 0x38,
    ensures
        ({
            let pc = s.pair(5);
            let n = s.mem[pc as int];
            let offset: int = if n >= 128 { n - 256 } else { n as int };
            let taken = opcode == 0x18 || condition_holds(opcode, s.flags);
            let t = run_queue(start_instruction(s, opcode), 8);
            &&& taken ==> t.pair(5) == ((pc + 1 + offset) % 65536) as u16
            &&& !taken ==> t.pair(5) == ((pc + 1) % 65536) as u16
            &&& keeps_all_but_pc(s, t)
        }),
{
    let pc = s.pair(5);
    let n = s.mem[pc as int];
    let s0 = start_instruction(s, opcode);
    let ops = main_micro_ops(opcode);
    assert(ops.len() == 3 && ops[1] == MicroOp::RelativeJump && ops[2] == MicroOp::Noop);
    assert(opcode == 0x18 ==> ops[0] == MicroOp::ReadMemoryIncr(5, 13));
    assert(opcode != 0x18 ==> ops[0] is ReadMemoryIncrCheck && ops[0]->ReadMemoryIncrCheck_0 == 5
        && ops[0]->ReadMemoryIncrCheck_1 == 13 && cond_holds(ops[0]->ReadMemoryIncrCheck_2, s.flags) == condition_holds(
        opcode,
        s.flags,
    ));
    let taken = opcode == 0x18 || condition_holds(opcode, s.flags);
    lemma_queue_step(s0, 8);
    lemma_cycle(s0.set_op_index(1), ops[0]);
    let pc1 = add16(pc as int, 1);
    let r = s0.set_op_index(1).set_reg(13, n);
    lemma_pair_set_get(r, 5, 5, pc1);
    let read = r.set_pair(5, pc1);
    let s1 = after_current_op(s0);
    if taken {
        assert(s1 == read);
        lemma_queue_step(s1, 7);
        lemma_cycle(s1.set_op_index(2), ops[1]);
        let target = add16(pc1 as int, signed_offset(n));
        let j = s1.set_op_index(2).set_reg(13, lo_byte(target)).set_reg(12, hi_byte(target));
        lemma_pair_set_get(j, 5, 5, target);
        let s2 = after_current_op(s1);
        assert(s2 == j.set_pair(5, target));
        lemma_queue_step(s2, 6);
        lemma_cycle(s2.set_op_index(3), ops[2]);
        let s3 = after_current_op(s2);
        lemma_queue_end(s3, 5);
    } else {
        assert(s1 == read.set_queue(seq![MicroOp::Noop]).set_op_index(0));
        lemma_queue_step(s1, 7);
        lemma_cycle(s1.set_op_index(1), MicroOp::Noop);
        let s2 = after_current_op(s1);
        lemma_queue_end(s2, 6);
    }
}


#[verifier::rlimit(100)]
proof fn lemma_absolute_jump_run(s: MicroState, opcode: u8)
    requires
        s.wf(),
        opcode == 0xC3 || opcode == 0xC2 || opcode == 0xCA || opcode == 0xD2 || opcode == 0xDA,
    ensures
        ({
            let pc = s.pair(5);
            let n = s.mem[pc as int];
            let n2 = s.mem[(pc + 1) % 65536];
            let taken = opcode == 0xC3 || condition_holds(opcode, s.flags);
            let t = run_queue(start_instruction(s, opcode), 8);
            &&& taken ==> t.pair(5) == n2 * 256 + n
            &&& !taken ==> t.pair(5) == ((pc + 2) % 65536) as u16
            &&& keeps_all_but_pc(s, t)
        }),
{
    let pc = s.pair(5);
    let pc1 = add16(pc as int, 1);
    let pc2 = add16(pc1 as int, 1);
    let n = s.mem[pc as int];
    let n2 = s.mem[pc1 as int];
    let s0 = start_instruction(s, opcode);
    let ops = main_micro_ops(opcode);
    assert(ops.len() == 4 && ops[0] == MicroOp::ReadMemoryIncr(5, 13) && ops[2] == MicroOp::LoadR16R16(5, 6)
        && ops[3] == MicroOp::Noop);
    assert(opcode == 0xC3 ==> ops[1] == MicroOp::ReadMemoryIncr(5, 12));
    assert(opcode != 0xC3 ==> ops[1] is ReadMemoryIncrCheck && ops[1]->ReadMemoryIncrCheck_0 == 5
        && ops[1]->ReadMemoryIncrCheck_1 == 12 && cond_holds(ops[1]->ReadMemoryIncrCheck_2, s.flags) == condition_holds(
        opcode,
        s.flags,
    ));
    let taken = opcode == 0xC3 || condition_holds(opcode, s.flags);
    lemma_queue_step(s0, 8);
    lemma_cycle(s0.set_op_index(1), ops[0]);
    let r1 = s0.set_op_index(1).set_reg(13, n);
    lemma_pair_set_get(r1, 5, 5, pc1);
    let s1 = after_current_op(s0);
    assert(s1 == r1.set_pair(5, pc1));
    lemma_queue_step(s1, 7);
    lemma_cycle(s1.set_op_index(2), ops[1]);
    let r2 = s1.set_op_index(2).set_reg(12, n2);
    lemma_pair_set_get(r2, 5, 5, pc2);
    let read = r2.set_pair(5, pc2);
    let s2 = after_current_op(s1);
    if taken {
        assert(s2 == read);
        lemma_queue_step(s2, 6);
        lemma_cycle(s2.set_op_index(3), ops[2]);
        assert(read.pair(6) == crate::cpu2::defines::word(n2, n));
        lemma_pair_set_get(s2.set_op_index(3), 5, 5, read.pair(6));
        let s3 = after_current_op(s2);
        lemma_queue_step(s3, 5);
        lemma_cycle(s3.set_op_index(4), ops[3]);
        let s4 = after_current_op(s3);
        lemma_queue_end(s4, 4);
    } else {
        assert(s2 == read.set_queue(seq![MicroOp::Noop]).set_op_index(0));
        lemma_queue_step(s2, 6);
        lemma_cycle(s2.set_op_index(1), MicroOp::Noop);
        let s3 = after_current_op(s2);
        lemma_queue_end(s3, 5);
    }
}

#[verifier::rlimit(100)]
proof fn lemma_jump_hl_run(s: MicroState)
    requires
        s.wf(),
    ensures
        ({
            let t = run_queue(start_instruction(s, 0xE9), 8);
            &&& t.pair(5) == s.pair(3)
            &&& keeps_all_but_pc(s, t)
        }),
{
    let s0 = start_instruction(s, 0xE9);
    let ops = main_micro_ops(0xE9);
    assert(ops.len() == 1 && ops[0] == MicroOp::LoadR16R16(5, 3));
    lemma_queue_step(s0, 8);
    lemma_cycle(s0.set_op_index(1), ops[0]);
    lemma_pair_set_get(s0.set_op_index(1), 5, 5, s.pair(3));
    let s1 = after_current_op(s0);
    lemma_queue_end(s1, 7);
}

/// JR e (0x18) and JP nn (0xC3) always jump; JR cc, e (0x20, 0x28, 0x30, 0x38) and
/// JP cc, nn (0xC2, 0xCA, 0xD2, 0xDA) jump exactly when the condition of bits 4 and 3
/// holds; JP HL (0xE9) jumps to HL. PC stands on the byte after the opcode when the
/// cycles start. JR moves PC past its operand byte and then by that byte read as a
/// signed number, modulo 65536; JP goes to the address of its two operand bytes, low
/// byte first; a jump not taken leaves PC past the operands. Flags, memory and the
/// registers other than PC and the scratch pair W:Z are kept.
pub proof fn lemma_jump_opcodes(s: MicroState, opcode: u8)
    requires
        s.wf(),
        opcode == 0x18 || opcode == 0x20 || opcode == 0x28 || opcode == 0x30 || opcode == 0x38 || opcode == 0xC3
            || opcode == 0xC2 || opcode == 0xCA || opcode == 0xD2 || opcode == 0xDA || opcode == 0xE9,
    ensures
        ({
            let pc = s.pair(5);
            let n = s.mem[pc as int];
            let n2 = s.mem[(pc + 1) % 65536];
            let offset: int = if n >= 128 { n - 256 } else { n as int };
            let taken = opcode == 0x18 || opcode == 0xC3 || opcode == 0xE9 || condition_holds(opcode, s.flags);
            let t = run_queue(start_instruction(s, opcode), 8);
            &&& opcode < 0x40 && taken ==> t.pair(5) == ((pc + 1 + offset) % 65536) as u16
            &&& opcode < 0x40 && !taken ==> t.pair(5) == ((pc + 1) % 65536) as u16
            &&& 0xC0 <= opcode < 0xE0 && taken ==> t.pair(5) == n2 * 256 + n
            &&& 0xC0 <= opcode < 0xE0 && !taken ==> t.pair(5) == ((pc + 2) % 65536) as u16
            &&& opcode == 0xE9 ==> t.pair(5) == s.pair(3)
            &&& t.flags == s.flags
            &&& t.mem == s.mem
            &&& forall|i: int| 0 <= i < 10 ==> #[trigger] t.reg(i) == s.reg(i)
        }),
{
    if opcode < 0x40 {
        lemma_relative_jump_run(s, opcode);
    } else if opcode == 0xE9 {
        lemma_jump_hl_run(s);
    } else {
        lemma_absolute_jump_run(s, opcode);
    }
}


/// What a call, return or restart leaves unchanged: flags and the registers but SP, PC
/// and W:Z.
pub open spec fn keeps_all_but_sp_pc(s: MicroState, t: MicroState) -> bool {
    &&& t.flags == s.flags
    &&& forall|i: int| 0 <= i < 8 ==> #[trigger] t.reg(i) == s.reg(i)
}

/// The memory after pushing `v` below `sp`: the high byte just below, the low byte
/// below that.
pub open spec fn pushed_word(mem: Seq<u8>, sp: u16, v: u16) -> Seq<u8> {
    mem.update((sp - 1) % 65536, (v / 256) as u8).update((sp - 2) % 65536, (v % 256) as u8)
}

/// The pushing cycles of CALL and RST, from the state where SP has its old value and
/// the return address is in PC: SP lowered by two, the address stored, PC loaded.
#[verifier::rlimit(100)]
proof fn lemma_push_pc_cycles(s: MicroState, ops: Seq<MicroOp>, target: u16)
    requires
        s.wf(),
        0 <= s.op_index,
        s.op_index + 4 == s.queue_len,
        s.queue == ops,
        ops[s.op_index] == MicroOp::DecR16(4),
        ops[s.op_index + 1] == MicroOp::WriteMemoryDecr(4, 10),
        ops[s.op_index + 2] == MicroOp::WriteMemoryReassignPc(4, 11) || ops[s.op_index + 2] == MicroOp::WriteMemoryRst(
            target,
            4,
            11,
        ),
        ops[s.op_index + 2] == MicroOp::WriteMemoryReassignPc(4, 11) ==> s.pair(6) == target,
        ops[s.op_index + 3] == MicroOp::Noop,
    ensures
        ({
            let t = run_queue(s, 4);
            &&& t.op_index >= t.queue_len
            &&& t.pair(5) == target
            &&& t.pair(4) == ((s.pair(4) - 2) % 65536) as u16
            &&& t.mem == pushed_word(s.mem, s.pair(4), s.pair(5))
            &&& keeps_all_but_sp_pc(s, t)
        }),
{
    let k = s.op_index;
    let sp = s.pair(4);
    let sp1 = add16(sp as int, -1);
    let sp2 = add16(sp1 as int, -1);
    let pc = s.pair(5);
    crate::bits::lemma_word_parts(pc);
    lemma_queue_step(s, 4);
    lemma_cycle(s.set_op_index(k + 1), ops[k]);
    lemma_pair_set_get(s.set_op_index(k + 1), 4, 4, sp1);
    lemma_pair_set_get(s.set_op_index(k + 1), 4, 5, sp1);
    let s1 = after_current_op(s);
    lemma_queue_step(s1, 3);
    lemma_cycle(s1.set_op_index(k + 2), ops[k + 1]);
    let w1 = s1.set_op_index(k + 2).set_mem(sp1, s.reg(10));
    lemma_pair_set_get(w1, 4, 4, sp2);
    lemma_pair_set_get(w1, 4, 5, sp2);
    let s2 = after_current_op(s1);
    assert(s2 == w1.set_pair(4, sp2));
    lemma_queue_step(s2, 2);
    lemma_cycle(s2.set_op_index(k + 3), ops[k + 2]);
    let w2 = s2.set_op_index(k + 3).set_mem(sp2, s.reg(11));
    lemma_pair_set_get(w2, 5, 5, target);
    lemma_pair_set_get(w2, 5, 4, target);
    let s3 = after_current_op(s2);
    assert(s3 == w2.set_pair(5, target));
    lemma_queue_step(s3, 1);
    lemma_cycle(s3.set_op_index(k + 4), ops[k + 3]);
    let s4 = after_current_op(s3);
    lemma_queue_end(s4, 0);
}


#[verifier::rlimit(100)]
proof fn lemma_call_run(s: MicroState, opcode: u8)
    requires
        s.wf(),
        opcode == 0xCD || opcode == 0xC4 || opcode == 0xCC || opcode == 0xD4 || opcode == 0xDC,
    ensures
        ({
            let pc = s.pair(5);
            let sp = s.pair(4);
            let n = s.mem[pc as int];
            let n2 = s.mem[(pc + 1) % 65536];
            let taken = opcode == 0xCD || condition_holds(opcode, s.flags);
            let t = run_queue(start_instruction(s, opcode), 8);
            &&& taken ==> {
                &&& t.pair(5) == n2 * 256 + n
                &&& t.pair(4) == ((sp - 2) % 65536) as u16
                &&& t.mem == pushed_word(s.mem, sp, ((pc + 2) % 65536) as u16)
            }
            &&& !taken ==> t.pair(5) == ((pc + 2) % 65536) as u16 && t.pair(4) == sp && t.mem == s.mem
            &&& keeps_all_but_sp_pc(s, t)
        }),
{
    let pc = s.pair(5);
    let pc1 = add16(pc as int, 1);
    let pc2 = add16(pc1 as int, 1);
    let n = s.mem[pc as int];
    let n2 = s.mem[pc1 as int];
    let s0 = start_instruction(s, opcode);
    let ops = main_micro_ops(opcode);
    assert(ops.len() == 6 && ops[0] == MicroOp::ReadMemoryIncr(5, 13) && ops[2] == MicroOp::DecR16(4) && ops[3]
        == MicroOp::WriteMemoryDecr(4, 10) && ops[4] == MicroOp::WriteMemoryReassignPc(4, 11) && ops[5] == MicroOp::Noop);
    assert(opcode == 0xCD ==> ops[1] == MicroOp::ReadMemoryIncr(5, 12));
    assert(opcode != 0xCD ==> ops[1] is ReadMemoryIncrCheck && ops[1]->ReadMemoryIncrCheck_0 == 5
        && ops[1]->ReadMemoryIncrCheck_1 == 12 && cond_holds(ops[1]->ReadMemoryIncrCheck_2, s.flags) == condition_holds(
        opcode,
        s.flags,
    ));
    let taken = opcode == 0xCD || condition_holds(opcode, s.flags);
    lemma_queue_step(s0, 8);
    lemma_cycle(s0.set_op_index(1), ops[0]);
    let r1 = s0.set_op_index(1).set_reg(13, n);
    lemma_pair_set_get(r1, 5, 5, pc1);
    lemma_pair_set_get(r1, 5, 4, pc1);
    let s1 = after_current_op(s0);
    assert(s1 == r1.set_pair(5, pc1));
    lemma_queue_step(s1, 7);
    lemma_cycle(s1.set_op_index(2), ops[1]);
    let r2 = s1.set_op_index(2).set_reg(12, n2);
    lemma_pair_set_get(r2, 5, 5, pc2);
    lemma_pair_set_get(r2, 5, 4, pc2);
    let read = r2.set_pair(5, pc2);
    let s2 = after_current_op(s1);
    if taken {
        assert(s2 == read);
        assert(read.pair(6) == crate::cpu2::defines::word(n2, n));
        lemma_push_pc_cycles(s2, ops, read.pair(6));
        lemma_queue_more_fuel(s2, 4, 6);
    } else {
        assert(s2 == read.set_queue(seq![MicroOp::Noop]).set_op_index(0));
        lemma_queue_step(s2, 6);
        lemma_cycle(s2.set_op_index(1), MicroOp::Noop);
        let s3 = after_current_op(s2);
        lemma_queue_end(s3, 5);
    }
}

#[verifier::rlimit(100)]
proof fn lemma_restart_run(s: MicroState, opcode: u8)
    requires
        s.wf(),
        opcode >= 0xC0,
        opcode % 8 == 7,
    ensures
        ({
            let pc = s.pair(5);
            let sp = s.pair(4);
            let t = run_queue(start_instruction(s, opcode), 8);
            &&& t.pair(5) == opcode - 0xC7
            &&& t.pair(4) == ((sp - 2) % 65536) as u16
            &&& t.mem == pushed_word(s.mem, sp, pc)
            &&& keeps_all_but_sp_pc(s, t)
        }),
{
    let s0 = start_instruction(s, opcode);
    let ops = main_micro_ops(opcode);
    let v = (opcode - 0xC7) as u16;
    assert(ops.len() == 4 && ops[0] == MicroOp::DecR16(4) && ops[1] == MicroOp::WriteMemoryDecr(4, 10) && ops[2]
        == MicroOp::WriteMemoryRst(v, 4, 11) && ops[3] == MicroOp::Noop);
    lemma_push_pc_cycles(s0, ops, v);
    lemma_queue_more_fuel(s0, 4, 8);
}


/// The popping cycles of RET: PC loaded from the two bytes at SP, low byte first, and
/// SP raised by two.
#[verifier::rlimit(100)]
proof fn lemma_pop_pc_cycles(s: MicroState, ops: Seq<MicroOp>)
    requires
        s.wf(),
        0 <= s.op_index,
        s.op_index + 4 == s.queue_len,
        s.queue == ops,
        ops[s.op_index] == MicroOp::ReadMemoryIncr(4, 13),
        ops[s.op_index + 1] == MicroOp::ReadMemoryIncr(4, 12),
        ops[s.op_index + 2] == MicroOp::LoadR16R16(5, 6),
        ops[s.op_index + 3] == MicroOp::Noop,
    ensures
        ({
            let sp = s.pair(4);
            let t = run_queue(s, 4);
            &&& t.op_index >= t.queue_len
            &&& t.pair(5) == s.mem[(sp + 1) % 65536] * 256 + s.mem[sp as int]
            &&& t.pair(4) == ((sp + 2) % 65536) as u16
            &&& t.mem == s.mem
            &&& keeps_all_but_sp_pc(s, t)
        }),
{
    let k = s.op_index;
    let sp = s.pair(4);
    let sp1 = add16(sp as int, 1);
    let sp2 = add16(sp1 as int, 1);
    let lo = s.mem[sp as int];
    let hi = s.mem[sp1 as int];
    lemma_queue_step(s, 4);
    lemma_cycle(s.set_op_index(k + 1), ops[k]);
    let r1 = s.set_op_index(k + 1).set_reg(13, lo);
    lemma_pair_set_get(r1, 4, 4, sp1);
    let s1 = after_current_op(s);
    assert(s1 == r1.set_pair(4, sp1));
    lemma_queue_step(s1, 3);
    lemma_cycle(s1.set_op_index(k + 2), ops[k + 1]);
    let r2 = s1.set_op_index(k + 2).set_reg(12, hi);
    lemma_pair_set_get(r2, 4, 4, sp2);
    let s2 = after_current_op(s1);
    assert(s2 == r2.set_pair(4, sp2));
    lemma_queue_step(s2, 2);
    lemma_cycle(s2.set_op_index(k + 3), ops[k + 2]);
    assert(s2.pair(6) == crate::cpu2::defines::word(hi, lo));
    lemma_pair_set_get(s2.set_op_index(k + 3), 5, 5, s2.pair(6));
    lemma_pair_set_get(s2.set_op_index(k + 3), 5, 4, s2.pair(6));
    let s3 = after_current_op(s2);
    lemma_queue_step(s3, 1);
    lemma_cycle(s3.set_op_index(k + 4), ops[k + 3]);
    let s4 = after_current_op(s3);
    lemma_queue_end(s4, 0);
}

#[verifier::rlimit(100)]
proof fn lemma_return_run(s: MicroState, opcode: u8)
    requires
        s.wf(),
        opcode == 0xC9 || opcode == 0xC0 || opcode == 0xC8 || opcode == 0xD0 || opcode == 0xD8,
    ensures
        ({
            let pc = s.pair(5);
            let sp = s.pair(4);
            let taken = opcode == 0xC9 || condition_holds(opcode, s.flags);
            let t = run_queue(start_instruction(s, opcode), 8);
            &&& taken ==> {
                &&& t.pair(5) == s.mem[(sp + 1) % 65536] * 256 + s.mem[sp as int]
                &&& t.pair(4) == ((sp + 2) % 65536) as u16
            }
            &&& !taken ==> t.pair(5) == pc && t.pair(4) == sp
            &&& t.mem == s.mem
            &&& keeps_all_but_sp_pc(s, t)
        }),
{
    let s0 = start_instruction(s, opcode);
    let ops = main_micro_ops(opcode);
    if opcode == 0xC9 {
        assert(ops.len() == 4 && ops[0] == MicroOp::ReadMemoryIncr(4, 13) && ops[1] == MicroOp::ReadMemoryIncr(4, 12)
            && ops[2] == MicroOp::LoadR16R16(5, 6) && ops[3] == MicroOp::Noop);
        lemma_pop_pc_cycles(s0, ops);
        lemma_queue_more_fuel(s0, 4, 8);
    } else {
        assert(ops.len() == 5 && ops[0] is CheckCond && cond_holds(ops[0]->CheckCond_0, s.flags) == condition_holds(
            opcode,
            s.flags,
        ) && ops[1] == MicroOp::ReadMemoryIncr(4, 13) && ops[2] == MicroOp::ReadMemoryIncr(4, 12) && ops[3]
            == MicroOp::LoadR16R16(5, 6) && ops[4] == MicroOp::Noop);
        lemma_queue_step(s0, 8);
        lemma_cycle(s0.set_op_index(1), ops[0]);
        let s1 = after_current_op(s0);
        if condition_holds(opcode, s.flags) {
            assert(s1 == s0.set_op_index(1));
            lemma_pop_pc_cycles(s1, ops);
            lemma_queue_more_fuel(s1, 4, 7);
        } else {
            assert(s1 == s0.set_op_index(1).set_queue(seq![MicroOp::Noop]).set_op_index(0));
            lemma_queue_step(s1, 7);
            lemma_cycle(s1.set_op_index(1), MicroOp::Noop);
            let s2 = after_current_op(s1);
            lemma_queue_end(s2, 6);
        }
    }
}

/// CALL nn (0xCD) always calls and CALL cc, nn (0xC4, 0xCC, 0xD4, 0xDC) calls exactly
/// when the condition of bits 4 and 3 holds: it pushes the address past its two
/// operand bytes (high byte just below SP, low byte below that), lowers SP by two and
/// jumps to the operand address, low byte first; not taken, it only steps PC past the
/// operands. RET (0xC9) always returns and RET cc (0xC0, 0xC8, 0xD0, 0xD8) returns
/// exactly when its condition holds: PC is loaded from the two bytes at SP, low byte
/// first, and SP rises by two; not taken, nothing moves. RST (0xC7 plus a multiple of
/// 8) pushes PC and jumps to the opcode minus 0xC7. Flags and the registers but SP,
/// PC and W:Z are kept.
pub proof fn lemma_call_return_opcodes(s: MicroState, opcode: u8)
    requires
        s.wf(),
        opcode == 0xCD || opcode == 0xC4 || opcode == 0xCC || opcode == 0xD4 || opcode == 0xDC || opcode == 0xC9
            || opcode == 0xC0 || opcode == 0xC8 || opcode == 0xD0 || opcode == 0xD8 || (opcode >= 0xC0 && opcode % 8
            == 7),
    ensures
        ({
            let pc = s.pair(5);
            let sp = s.pair(4);
            let n = s.mem[pc as int];
            let n2 = s.mem[(pc + 1) % 65536];
            let call = opcode % 8 == 4 || opcode == 0xCD;
            let restart = opcode % 8 == 7;
            let ret = !call && !restart;
            let taken = opcode == 0xCD || opcode == 0xC9 || restart || condition_holds(opcode, s.flags);
            let t = run_queue(start_instruction(s, opcode), 8);
            &&& call && taken ==> {
                &&& t.pair(5) == n2 * 256 + n
                &&& t.pair(4) == ((sp - 2) % 65536) as u16
                &&& t.mem == pushed_word(s.mem, sp, ((pc + 2) % 65536) as u16)
            }
            &&& call && !taken ==> t.pair(5) == ((pc + 2) % 65536) as u16 && t.pair(4) == sp && t.mem == s.mem
            &&& ret && taken ==> {
                &&& t.pair(5) == s.mem[(sp + 1) % 65536] * 256 + s.mem[sp as int]
                &&& t.pair(4) == ((sp + 2) % 65536) as u16
                &&& t.mem == s.mem
            }
            &&& ret && !taken ==> t.pair(5) == pc && t.pair(4) == sp && t.mem == s.mem
            &&& restart ==> {
                &&& t.pair(5) == opcode - 0xC7
                &&& t.pair(4) == ((sp - 2) % 65536) as u16
                &&& t.mem == pushed_word(s.mem, sp, pc)
            }
            &&& t.flags == s.flags
            &&& forall|i: int| 0 <= i < 8 ==> #[trigger] t.reg(i) == s.reg(i)
        }),
{
    if opcode % 8 == 7 {
        lemma_restart_run(s, opcode);
    } else if opcode % 8 == 4 || opcode == 0xCD {
        lemma_call_run(s, opcode);
    } else {
        lemma_return_run(s, opcode);
    }
}


/// Serving an interrupt: with IME on and an interrupt both enabled and requested (the
/// one of lowest bit, see `lemma_interrupt_priority`), IME goes off, the request bit is
/// withdrawn from IF, PC is pushed (high byte just below SP, low byte below that), SP
/// falls by two and PC takes the handler's address; with IME off or nothing pending,
/// nothing changes.
pub proof fn lemma_interrupt_dispatch(s: MicroState)
    requires
        s.wf(),
    ensures
        ({
            let (t, served) = after_ime_state(s);
            let pending = s.mem[IE_ADDR as int] & s.mem[IF_ADDR as int];
            let pc = s.pair(5);
            let sp = s.pair(4);
            let i = next_request(pending)->0;
            &&& served == (s.ime && pending & 0x1F != 0)
            &&& !served ==> t == s
            &&& served ==> {
                &&& !t.ime
                &&& t.pair(5) == i.spec_vector()
                &&& t.pair(4) == (sp - 2) % 65536
                &&& t.mem[(sp - 2) % 65536] == pc % 256
                &&& (sp - 1) % 65536 != (sp - 2) % 65536 ==> t.mem[(sp - 1) % 65536] == pc / 256
                &&& (sp - 1) % 65536 != IF_ADDR && (sp - 2) % 65536 != IF_ADDR ==> t.mem[IF_ADDR as int]
                    == s.mem[IF_ADDR as int] & !i.spec_mask()
                &&& t.flags == s.flags
                &&& forall|j: int| 0 <= j < 8 ==> #[trigger] t.reg(j) == s.reg(j)
            }
        }),
{
    let pending = s.mem[IE_ADDR as int] & s.mem[IF_ADDR as int];
    lemma_interrupt_priority(pending);
    if s.ime && pending & 0x1F != 0 {
        let i = next_request(pending)->0;
        let pc = s.pair(5);
        let sp1 = add16(s.pair(4) as int, -1);
        let sp2 = add16(s.pair(4) as int, -2);
        let s1 = MicroState { ime: false, ..s }.set_mem(IF_ADDR, s.mem[IF_ADDR as int] & !i.spec_mask());
        lemma_pair_set_get(s1, 4, 4, sp1);
        lemma_pair_set_get(s1, 4, 5, sp1);
        let s2 = s1.set_pair(4, sp1).set_mem(sp1, hi_byte(pc));
        lemma_pair_set_get(s2, 4, 4, sp2);
        lemma_pair_set_get(s2, 4, 5, sp2);
        let s3 = s2.set_pair(4, sp2).set_mem(sp2, lo_byte(pc));
        lemma_pair_set_get(s3, 5, 5, i.spec_vector());
        lemma_pair_set_get(s3, 5, 4, i.spec_vector());
    }
}

} // verus!
