use vstd::prelude::*;

pub use crate::cpu2::implemenation::{
    A, AF, B, BC, C, D, DE, E, F, H, HL, L, P, PC, PcC, PcP, Reg16, Reg8, S, SP, W, WZ, Z,
};
use crate::cpu::cb_instructions::{after_decode_cb, build_cb_instructions, cb_micro_ops, cb_name};
use crate::cpu::defines::{micro, pair_slots, r16, r8, Cpu, Instruction, MicroOp, MicroState};
use crate::cpu::instructions::{build_instructions, main_micro_ops, main_name};
use crate::cpu::ops::add::{
    add_r8_r8_at, add_r8_r8_no_zero_flag_at, add_r8_r8_with_carry_and_no_zero_flag_at, add_r8_r8_with_carry_at,
    after_add_hl_sp_e_high, after_add_hl_sp_e_low, after_add_r8_r8, after_add_r8_r8_no_zero_flag,
    after_add_r8_r8_with_carry, after_add_r8_r8_with_carry_and_no_zero_flag,
};
use crate::cpu::ops::and_or_xor::{after_and_r8_r8, after_or_r8_r8, after_xor_r8_r8, and_r8_r8_at, or_r8_r8_at, xor_r8_r8_at};
use crate::cpu::ops::cond::{
    after_check_cond, after_read_memory_incr_check, after_relative_jump, check_cond_at, read_memory_incr_check_at,
};
use crate::cpu::ops::cp::{after_cp_r8_r8, cp_r8_r8_at};
use crate::cpu::ops::inc_dec::{
    after_dec_addr, after_dec_r8, after_inc_addr, after_inc_r8, dec_addr_at, dec_r8_at, inc_addr_at, inc_r8_at,
};
use crate::cpu::ops::load::{
    after_ld_hl_sp_e_high, after_ld_hl_sp_e_low, after_load_r16_r16, after_load_r16_r16_af_flags,
    after_load_r16_r16_and_ime, after_load_r8_r8, after_read_memory, after_read_memory_0xff, after_read_memory_decr,
    after_read_memory_incr, after_write_memory, after_write_memory_0xff, after_write_memory_decr,
    after_write_memory_incr, after_write_memory_reassign_pc, after_write_memory_rst, bump_pair, load_r16_r16_af_flags_at,
    load_r16_r16_and_ime_at, load_r16_r16_at, load_r8_r8_at, read_memory_0xff_at, read_memory_at, read_memory_decr_at,
    read_memory_incr_at, step_pair, write_memory_0xff_at, write_memory_at, write_memory_decr_at, write_memory_incr_at,
    write_memory_reassign_pc_at, write_memory_rst_at,
};
use crate::cpu::ops::other::{
    after_bit, after_ccf, after_cpl, after_daa, after_halt, after_res, after_rl, after_rla, after_rlc, after_rlca,
    after_rr, after_rra, after_rrc, after_rrca, after_scf, after_set, after_set_ime, after_set_ime_delay, after_sla,
    after_sra, after_srl, after_swap, bit_at, res_at, rl_at, rlc_at, rr_at, rrc_at, set_at, sla_at, sra_at, srl_at,
    swap_at,
};
use crate::cpu::ops::sub::{after_sub_r8_r8, after_sub_r8_r8_with_carry, sub_r8_r8_at, sub_r8_r8_with_carry_at};
use crate::cpu2::defines::{add16, hi_byte, lo_byte, word};
use crate::communications::CpuState;
use crate::mmu::{next_request, Mmu, IE_ADDR, IF_ADDR};

verus! {

/// Whether two opcode tables are those of `build_instructions` and
/// `build_cb_instructions`.
pub open spec fn tables_ok(instructions: Seq<Instruction>, cb_instructions: Seq<Instruction>) -> bool {
    &&& instructions.len() == 256
    &&& cb_instructions.len() == 256
    &&& forall|i: int| 0 <= i < 256 ==> (#[trigger] instructions[i]).micro_ops@ == main_micro_ops(i as u8)
    &&& forall|i: int| 0 <= i < 256 ==> (#[trigger] cb_instructions[i]).micro_ops@ == cb_micro_ops(i as u8)
}

/// Whether `s` is a state the machine can be in: the queue holds at most eight
/// cycles, the next cycle is within it, and the opcode tables are in place.
pub open spec fn machine_ok(s: MicroState) -> bool {
    &&& s.wf()
    &&& 0 <= s.queue_len <= 8
    &&& s.queue.len() == s.queue_len
    &&& 0 <= s.op_index <= s.queue_len
    &&& tables_ok(s.instructions, s.cb_instructions)
}

/// No instruction of either table takes more than eight cycles.
pub proof fn lemma_table_lengths(opcode: u8)
    ensures
        main_micro_ops(opcode).len() <= 8,
        cb_micro_ops(opcode).len() <= 8,
{
}

/// Whether the operands of a micro-op name existing slots, pairs and bits.
pub open spec fn micro_op_wf(op: MicroOp) -> bool {
    match op {
        MicroOp::DecrementR16(r) | MicroOp::IncR16(r) | MicroOp::DecR16(r) => r < 7,
        MicroOp::Rlc(r) | MicroOp::Rrc(r) | MicroOp::Rl(r) | MicroOp::Rr(r) | MicroOp::Sla(r)
        | MicroOp::Sra(r) | MicroOp::Swap(r) | MicroOp::Srl(r) | MicroOp::IncR8(r) | MicroOp::DecR8(r) => r < 14,
        MicroOp::TestBit(b, r) | MicroOp::ResBit(b, r) | MicroOp::SetBit(b, r) => b < 8 && r < 14,
        MicroOp::WriteRlcMem(a, r) | MicroOp::WriteRrcMem(a, r) | MicroOp::WriteRlMem(a, r)
        | MicroOp::WriteRrMem(a, r) | MicroOp::WriteSlaMem(a, r) | MicroOp::WriteSraMem(a, r)
        | MicroOp::WriteSwapMem(a, r) | MicroOp::WriteSrlMem(a, r) => a < 7 && r < 14,
        MicroOp::WriteResMem(b, a, r) | MicroOp::WriteSetMem(b, a, r) => b < 8 && a < 7 && r < 14,
        MicroOp::AddR8R8(x, y) | MicroOp::AddR8R8WithCarry(x, y) | MicroOp::AddR8R8NoZeroFlag(x, y)
        | MicroOp::AddR8R8WithCarryAndNoZeroFlag(x, y) | MicroOp::AndR8R8(x, y) | MicroOp::OrR8R8(x, y)
        | MicroOp::XorR8R8(x, y) | MicroOp::CpR8R8(x, y) | MicroOp::LoadR8R8(x, y)
        | MicroOp::ReadMemory0xff(x, y) | MicroOp::WriteMemory0xff(x, y) | MicroOp::SubR8R8(x, y)
        | MicroOp::SubR8R8WithCarry(x, y) => x < 14 && y < 14,
        MicroOp::IncAddr(a, v) | MicroOp::DecAddr(a, v) | MicroOp::ReadMemory(a, v) | MicroOp::WriteMemory(a, v)
        | MicroOp::ReadMemoryDecr(a, v) | MicroOp::WriteMemoryDecr(a, v) | MicroOp::ReadMemoryIncr(a, v)
        | MicroOp::WriteMemoryIncr(a, v) | MicroOp::WriteMemoryReassignPc(a, v) | MicroOp::WriteMemoryRst(_, a, v)
        | MicroOp::ReadMemoryIncrCheck(a, v, _) => a < 7 && v < 14,
        MicroOp::LoadR16R16(x, y) | MicroOp::LoadR16R16AndIme(x, y) | MicroOp::LoadR16R16AfFlags(x, y) => x < 7 && y < 7,
        _ => true,
    }
}

/// Whether a micro-op can run: its operands exist and it is not STOP, which has no
/// behaviour yet.
pub open spec fn micro_op_runs(op: MicroOp) -> bool {
    micro_op_wf(op) && !(op is Stop)
}

/// The state after one micro-op.
#[verifier::opaque]
pub open spec fn after_micro_op(s: MicroState, op: MicroOp) -> MicroState {
    match op {
        MicroOp::Noop | MicroOp::Stop => s,
        MicroOp::Halt => after_halt(s),
        MicroOp::DecrementR16(r) => bump_pair(s, r as int, -1),
        MicroOp::SetIme0 => after_set_ime(s, false),
        MicroOp::SetImeDelay1 => after_set_ime_delay(s),
        MicroOp::SetIme1 => after_set_ime(s, true),
        MicroOp::Cpl => after_cpl(s),
        MicroOp::Scf => after_scf(s),
        MicroOp::Ccf => after_ccf(s),
        MicroOp::Daa => after_daa(s),
        MicroOp::Rlca => after_rlca(s),
        MicroOp::Rrca => after_rrca(s),
        MicroOp::Rla => after_rla(s),
        MicroOp::Rra => after_rra(s),
        MicroOp::Rlc(r) => after_rlc(s, r as int),
        MicroOp::Rrc(r) => after_rrc(s, r as int),
        MicroOp::Rl(r) => after_rl(s, r as int),
        MicroOp::Rr(r) => after_rr(s, r as int),
        MicroOp::Sla(r) => after_sla(s, r as int),
        MicroOp::Sra(r) => after_sra(s, r as int),
        MicroOp::Swap(r) => after_swap(s, r as int),
        MicroOp::Srl(r) => after_srl(s, r as int),
        MicroOp::TestBit(b, r) => after_bit(s, b, r as int),
        MicroOp::ResBit(b, r) => after_res(s, b, r as int),
        MicroOp::SetBit(b, r) => after_set(s, b, r as int),
        MicroOp::WriteRlcMem(a, r) => after_write_memory(after_rlc(s, r as int), a as int, r as int),
        MicroOp::WriteRrcMem(a, r) => after_write_memory(after_rrc(s, r as int), a as int, r as int),
        MicroOp::WriteRlMem(a, r) => after_write_memory(after_rl(s, r as int), a as int, r as int),
        MicroOp::WriteRrMem(a, r) => after_write_memory(after_rr(s, r as int), a as int, r as int),
        MicroOp::WriteSlaMem(a, r) => after_write_memory(after_sla(s, r as int), a as int, r as int),
        MicroOp::WriteSraMem(a, r) => after_write_memory(after_sra(s, r as int), a as int, r as int),
        MicroOp::WriteSwapMem(a, r) => after_write_memory(after_swap(s, r as int), a as int, r as int),
        MicroOp::WriteSrlMem(a, r) => after_write_memory(after_srl(s, r as int), a as int, r as int),
        MicroOp::WriteResMem(b, a, r) => after_write_memory(after_res(s, b, r as int), a as int, r as int),
        MicroOp::WriteSetMem(b, a, r) => after_write_memory(after_set(s, b, r as int), a as int, r as int),
        MicroOp::AddR8R8(x, y) => after_add_r8_r8(s, x as int, y as int),
        MicroOp::AddR8R8WithCarry(x, y) => after_add_r8_r8_with_carry(s, x as int, y as int),
        MicroOp::AddR8R8NoZeroFlag(x, y) => after_add_r8_r8_no_zero_flag(s, x as int, y as int),
        MicroOp::AddR8R8WithCarryAndNoZeroFlag(x, y) => after_add_r8_r8_with_carry_and_no_zero_flag(s, x as int, y as int),
        MicroOp::AddHlSpELow => after_add_hl_sp_e_low(s),
        MicroOp::AddHlSpEHigh => after_add_hl_sp_e_high(s),
        MicroOp::AndR8R8(x, y) => after_and_r8_r8(s, x as int, y as int),
        MicroOp::OrR8R8(x, y) => after_or_r8_r8(s, x as int, y as int),
        MicroOp::XorR8R8(x, y) => after_xor_r8_r8(s, x as int, y as int),
        MicroOp::ReadMemoryIncrCheck(a, v, k) => after_read_memory_incr_check(s, a as int, v as int, k),
        MicroOp::CheckCond(k) | MicroOp::CheckCondAndExecute(k) => after_check_cond(s, k),
        MicroOp::RelativeJump => after_relative_jump(s),
        MicroOp::CpR8R8(x, y) => after_cp_r8_r8(s, x as int, y as int),
        MicroOp::IncR8(r) => after_inc_r8(s, r as int),
        MicroOp::IncAddr(a, v) => after_inc_addr(s, a as int, v as int),
        MicroOp::DecR8(r) => after_dec_r8(s, r as int),
        MicroOp::DecAddr(a, v) => after_dec_addr(s, a as int, v as int),
        MicroOp::IncR16(r) => bump_pair(s, r as int, 1),
        MicroOp::DecR16(r) => bump_pair(s, r as int, -1),
        MicroOp::LoadR8R8(x, y) => after_load_r8_r8(s, x as int, y as int),
        MicroOp::ReadMemory(a, v) => after_read_memory(s, a as int, v as int),
        MicroOp::ReadMemory0xff(x, y) => after_read_memory_0xff(s, x as int, y as int),
        MicroOp::WriteMemory0xff(x, y) => after_write_memory_0xff(s, x as int, y as int),
        MicroOp::WriteMemory(a, v) => after_write_memory(s, a as int, v as int),
        MicroOp::LoadR16R16(x, y) => after_load_r16_r16(s, x as int, y as int),
        MicroOp::LoadR16R16AndIme(x, y) => after_load_r16_r16_and_ime(s, x as int, y as int),
        MicroOp::LoadR16R16AfFlags(x, y) => after_load_r16_r16_af_flags(s, x as int, y as int),
        MicroOp::ReadMemoryDecr(a, v) => after_read_memory_decr(s, a as int, v as int),
        MicroOp::WriteMemoryDecr(a, v) => after_write_memory_decr(s, a as int, v as int),
        MicroOp::ReadMemoryIncr(a, v) => after_read_memory_incr(s, a as int, v as int),
        MicroOp::WriteMemoryIncr(a, v) => after_write_memory_incr(s, a as int, v as int),
        MicroOp::LdHlSpELow => after_ld_hl_sp_e_low(s),
        MicroOp::LdHlSpEHigh => after_ld_hl_sp_e_high(s),
        MicroOp::WriteMemoryReassignPc(a, v) => after_write_memory_reassign_pc(s, a as int, v as int),
        MicroOp::WriteMemoryRst(b, a, v) => after_write_memory_rst(s, b, a as int, v as int),
        MicroOp::SubR8R8(x, y) => after_sub_r8_r8(s, x as int, y as int),
        MicroOp::SubR8R8WithCarry(x, y) => after_sub_r8_r8_with_carry(s, x as int, y as int),
        MicroOp::DecodeCb => after_decode_cb(s),
    }
}


/// A micro-op keeps the machine in order: the opcode tables and the sizes of the
/// register file and of the memory stay, the queue keeps within eight cycles and the
/// cycle index within the queue.
pub proof fn lemma_micro_op_keeps_machine_ok(s: MicroState, op: MicroOp)
    requires
        machine_ok(s),
        micro_op_runs(op),
    ensures
        machine_ok(after_micro_op(s, op)),
        after_micro_op(s, op).instructions == s.instructions,
        after_micro_op(s, op).cb_instructions == s.cb_instructions,
{
    reveal(after_micro_op);
    if let MicroOp::DecodeCb = op {
        lemma_table_lengths(s.mem(s.pair(r16::PC as int)));
    }
}

/// The state after the current micro-op, before any fetch.
pub open spec fn after_current_op(s: MicroState) -> MicroState {
    after_micro_op(s.set_op_index(s.op_index + 1), s.queue[s.op_index])
}

/// After HALT was left with interrupts disabled, PC steps back once so that the next
/// byte is read twice.
pub open spec fn after_halt_bug(s: MicroState) -> MicroState {
    if s.halt_bug {
        MicroState { halt_bug: false, ..bump_pair(s, r16::PC as int, -1) }
    } else {
        s
    }
}

/// A delayed EI takes effect.
pub open spec fn after_ime_delay(s: MicroState) -> MicroState {
    if s.ime_delay {
        MicroState { ime: true, ime_delay: false, ..s }
    } else {
        s
    }
}

/// The opcode at PC is read, PC steps, the HALT bug and a delayed EI are handled, and
/// the opcode's cycles become the queue; the cycle index is left as it is.
pub open spec fn after_first_read(s: MicroState) -> MicroState {
    let pc = s.pair(r16::PC as int);
    let opcode = s.mem(pc);
    after_ime_delay(after_halt_bug(bump_pair(s, r16::PC as int, 1))).set_queue(main_micro_ops(opcode))
}

/// One tick: with PC at 0 the first opcode is read; then the current micro-op runs,
/// and when it ends the instruction the next opcode is read the same way and its
/// cycles start from the first.
pub open spec fn after_tick(s: MicroState) -> MicroState {
    let s0 = if s.pair(r16::PC as int) == 0 { after_first_read(s) } else { s };
    let s1 = after_current_op(s0);
    if s1.op_index == s1.queue_len {
        after_first_read(s1).set_op_index(0)
    } else {
        s1
    }
}

/// Whether a tick can run: the machine is in order and a runnable micro-op is next.
pub open spec fn can_tick(s: MicroState) -> bool {
    let s0 = if s.pair(r16::PC as int) == 0 { after_first_read(s) } else { s };
    &&& machine_ok(s)
    &&& 0 <= s0.op_index < s0.queue_len
    &&& micro_op_runs(s0.queue[s0.op_index])
}

/// Whether HALT keeps the machine waiting, and what leaving HALT changes: with an
/// interrupt both requested and enabled it leaves HALT, and arms the HALT bug when
/// interrupts are disabled.
pub open spec fn after_halt_state(s: MicroState) -> (MicroState, bool) {
    if s.halted {
        if s.mem[IE_ADDR as int] & s.mem[IF_ADDR as int] == 0 {
            (s, true)
        } else {
            (MicroState { halted: false, halt_bug: s.halt_bug || !s.ime, ..s }, false)
        }
    } else {
        (s, false)
    }
}

/// The interrupt dispatch: with IME on and an interrupt pending, IME goes off, the
/// request is withdrawn, PC is pushed (high byte at `SP - 1`, low at `SP - 2`) and PC
/// jumps to the handler; the flag tells whether this happened.
pub open spec fn after_ime_state(s: MicroState) -> (MicroState, bool) {
    if s.ime {
        match next_request(s.mem[IE_ADDR as int] & s.mem[IF_ADDR as int]) {
            Some(i) => {
                let pc = s.pair(r16::PC as int);
                let sp1 = add16(s.pair(r16::SP as int) as int, -1);
                let sp2 = add16(s.pair(r16::SP as int) as int, -2);
                let s1 = MicroState { ime: false, ..s }.set_mem(IF_ADDR, s.mem[IF_ADDR as int] & !i.spec_mask());
                let s2 = s1.set_pair(r16::SP as int, sp1).set_mem(sp1, hi_byte(pc));
                (s2.set_pair(r16::SP as int, sp2).set_mem(sp2, lo_byte(pc)).set_pair(r16::PC as int, i.spec_vector()), true)
            },
            None => (s, false),
        }
    } else {
        (s, false)
    }
}

/// Every tick keeps the machine in order, so that the state it leaves is again one
/// the machine can be in.
pub proof fn lemma_tick_keeps_machine_ok(s: MicroState)
    requires
        can_tick(s),
    ensures
        machine_ok(after_tick(s)),
{
    let s0 = if s.pair(r16::PC as int) == 0 { after_first_read(s) } else { s };
    lemma_table_lengths(s.mem(s.pair(r16::PC as int)));
    assert(machine_ok(s0.set_op_index(s0.op_index + 1)));
    lemma_micro_op_keeps_machine_ok(s0.set_op_index(s0.op_index + 1), s0.queue[s0.op_index]);
    let s1 = after_current_op(s0);
    lemma_table_lengths(s1.mem(s1.pair(r16::PC as int)));
}

impl Cpu {
    /// A machine with registers and flags cleared, an empty queue, interrupts off,
    /// and both opcode tables built.
    pub fn new() -> (r: Self)
        ensures
            r.r8@ == Seq::new(14, |i: int| 0u8),
            r.flags == 0,
            r.queue_len == 0,
            r.op_index == 0,
            !r.ime && !r.ime_delay && !r.halted && !r.halt_bug && !r.stopped,
            r.stopped_for == 0,
            !r.is_in_fast_mode,
            tables_ok(r.instructions@, r.cb_instructions@),
            forall|i: int|
                #![trigger r.instructions@[i]]
                0 <= i < 256 ==> r.instructions@[i].opcode == i && r.instructions@[i].name@ == main_name(i as u8),
            forall|i: int|
                #![trigger r.cb_instructions@[i]]
                0 <= i < 256 ==> r.cb_instructions@[i].opcode == i && r.cb_instructions@[i].name@ == cb_name(i as u8),
    {
        let instructions = build_instructions();
        let cb_instructions = build_cb_instructions();
        let r = Cpu {
            queue: [MicroOp::Noop; 8],
            r8: [0; 14],
            queue_len: 0,
            instructions,
            cb_instructions,
            flags: 0,
            op_index: 0,
            ime: false,
            ime_delay: false,
            halted: false,
            halt_bug: false,
            stopped: false,
            stopped_for: 0,
            is_in_fast_mode: false,
        };
        assert(r.r8@ =~= Seq::new(14, |i: int| 0u8));
        r
    }

    /// The registers shown by the debugger.
    pub fn dump_state(&self) -> (r: CpuState)
        ensures
            r.a == self.r8@[0],
            r.b == self.r8@[1],
            r.c == self.r8@[2],
            r.d == self.r8@[3],
            r.e == self.r8@[4],
            r.h == self.r8@[6],
            r.l == self.r8@[7],
            r.hl == word(self.r8@[6], self.r8@[7]),
            r.sp == word(self.r8@[8], self.r8@[9]),
            r.pc == word(self.r8@[10], self.r8@[11]),
    {
        CpuState {
            a: self.reg(r8::A),
            b: self.reg(r8::B),
            c: self.reg(r8::C),
            d: self.reg(r8::D),
            e: self.reg(r8::E),
            h: self.reg(r8::H),
            l: self.reg(r8::L),
            hl: self.pair(r16::HL),
            sp: self.pair(r16::SP),
            pc: self.pair(r16::PC),
        }
    }

    /// While halted, tells whether the machine keeps waiting; an interrupt both
    /// requested and enabled ends HALT.
    fn handle_halt_state(&mut self, bus: &mut Mmu) -> (halted: bool)
        ensures
            (micro(*final(self), *final(bus)), halted) == after_halt_state(micro(*old(self), *old(bus))),
    {
        if self.halted {
            let iflag = bus.read_interrupt_flag();
            let ienable = bus.read_interrupt_enable();
            if ienable & iflag == 0 {
                return true;
            }
            self.halted = false;
            if !self.ime {
                self.halt_bug = true;
            }
        }
        false
    }

    /// Services the pending interrupt of highest priority when IME is on.
    fn handle_ime_state(&mut self, bus: &mut Mmu) -> (serviced: bool)
        ensures
            (micro(*final(self), *final(bus)), serviced) == after_ime_state(micro(*old(self), *old(bus))),
    {
        if self.ime {
            if let Some(interrupt) = bus.interrupts_next_request() {
                self.ime = false;
                bus.interrupts_clear_request(interrupt);
                let ret_addr = self.pair(r16::PC);
                proof {
                    crate::bits::lemma_word_parts(ret_addr);
                }
                let sp1 = self.pair(r16::SP).wrapping_sub(1);
                self.set_pair(r16::SP, sp1);
                bus.write_byte(sp1, (ret_addr >> 8) as u8);
                let sp2 = sp1.wrapping_sub(1);
                self.set_pair(r16::SP, sp2);
                bus.write_byte(sp2, (ret_addr & 0xFF) as u8);
                self.set_pair(r16::PC, interrupt.vector());
                true
            } else {
                false
            }
        } else {
            false
        }
    }

    /// The byte in slot `i`.
    pub fn reg(&self, i: usize) -> (r: u8)
        requires
            i < 14,
        ensures
            r == self.r8@[i as int],
    {
        self.r8[i]
    }

    /// Stores `value` in slot `i`.
    pub fn set_reg(&mut self, i: usize, value: u8)
        requires
            i < 14,
        ensures
            *final(self) == (Cpu { r8: final(self).r8, ..*old(self) }),
            final(self).r8@ == old(self).r8@.update(i as int, value),
    {
        self.r8[i] = value;
    }

    /// The two slots of pair `j`, high first.
    fn slots(j: usize) -> (r: (usize, usize))
        requires
            j < 7,
        ensures
            r.0 == pair_slots(j as int).0,
            r.1 == pair_slots(j as int).1,
            r.0 < 14,
            r.1 < 14,
    {
        if j == 0 {
            (0, 5)
        } else if j == 1 {
            (1, 2)
        } else if j == 2 {
            (3, 4)
        } else if j == 3 {
            (6, 7)
        } else if j == 4 {
            (8, 9)
        } else if j == 5 {
            (10, 11)
        } else {
            (12, 13)
        }
    }

    /// The 16-bit pair `j`.
    pub fn pair(&self, j: usize) -> (r: u16)
        requires
            j < 7,
        ensures
            r == word(self.r8@[pair_slots(j as int).0], self.r8@[pair_slots(j as int).1]),
    {
        let (hi, lo) = Cpu::slots(j);
        let h = self.r8[hi];
        let l = self.r8[lo];
        proof {
            crate::bits::lemma_word(h, l);
        }
        (h as u16) << 8 | l as u16
    }

    /// Stores `value` in pair `j`, high byte first.
    pub fn set_pair(&mut self, j: usize, value: u16)
        requires
            j < 7,
        ensures
            *final(self) == (Cpu { r8: final(self).r8, ..*old(self) }),
            final(self).r8@ == old(self).r8@.update(pair_slots(j as int).0, hi_byte(value)).update(
                pair_slots(j as int).1,
                lo_byte(value),
            ),
    {
        proof {
            crate::bits::lemma_word_parts(value);
        }
        let (hi, lo) = Cpu::slots(j);
        self.r8[hi] = (value >> 8) as u8;
        self.r8[lo] = (value & 0xFF) as u8;
    }

    /// The register named by `R`.
    pub fn get_r8<R: Reg8>(&self) -> (r: u8)
        ensures
            r == self.r8@[R::USIZE as int],
    {
        proof {
            R::lemma_index_in_range();
        }
        self.reg(R::USIZE)
    }

    /// Stores `value` in the register named by `R`.
    pub fn set_r8<R: Reg8>(&mut self, value: u8)
        ensures
            *final(self) == (Cpu { r8: final(self).r8, ..*old(self) }),
            final(self).r8@ == old(self).r8@.update(R::USIZE as int, value),
    {
        proof {
            R::lemma_index_in_range();
        }
        self.set_reg(R::USIZE, value)
    }

    /// The pair named by `R`.
    pub fn get_r16<R: Reg16>(&self) -> (r: u16)
        ensures
            r == word(self.r8@[pair_slots(R::USIZE as int).0], self.r8@[pair_slots(R::USIZE as int).1]),
    {
        proof {
            R::lemma_index_in_range();
        }
        self.pair(R::USIZE)
    }

    /// Stores `value` in the pair named by `R`.
    pub fn set_r16<R: Reg16>(&mut self, value: u16)
        ensures
            *final(self) == (Cpu { r8: final(self).r8, ..*old(self) }),
            final(self).r8@ == old(self).r8@.update(pair_slots(R::USIZE as int).0, hi_byte(value)).update(
                pair_slots(R::USIZE as int).1,
                lo_byte(value),
            ),
    {
        proof {
            R::lemma_index_in_range();
        }
        self.set_pair(R::USIZE, value)
    }

    /// Runs one micro-op.
    pub fn run_micro_op(&mut self, bus: &mut Mmu, op: MicroOp)
        requires
            machine_ok(micro(*old(self), *old(bus))),
            micro_op_runs(op),
        ensures
            micro(*final(self), *final(bus)) == after_micro_op(micro(*old(self), *old(bus)), op),
    {
        proof {
            reveal(after_micro_op);
        }
        match op {
            MicroOp::Noop => self.noop(bus),
            MicroOp::Halt => self.halt(bus),
            MicroOp::DecrementR16(r) => step_pair(self, bus, r, false),
            MicroOp::SetIme0 => self.set_ime_0(bus),
            MicroOp::SetImeDelay1 => self.set_ime_delay_1(bus),
            MicroOp::SetIme1 => self.set_ime_1(bus),
            MicroOp::Cpl => self.cpl(bus),
            MicroOp::Scf => self.scf(bus),
            MicroOp::Ccf => self.ccf(bus),
            MicroOp::Daa => self.daa(bus),
            MicroOp::Rlca => self.rlca(bus),
            MicroOp::Rrca => self.rrca(bus),
            MicroOp::Rla => self.rla(bus),
            MicroOp::Rra => self.rra(bus),
            MicroOp::Rlc(r) => rlc_at(self, bus, r),
            MicroOp::Rrc(r) => rrc_at(self, bus, r),
            MicroOp::Rl(r) => rl_at(self, bus, r),
            MicroOp::Rr(r) => rr_at(self, bus, r),
            MicroOp::Sla(r) => sla_at(self, bus, r),
            MicroOp::Sra(r) => sra_at(self, bus, r),
            MicroOp::Swap(r) => swap_at(self, bus, r),
            MicroOp::Srl(r) => srl_at(self, bus, r),
            MicroOp::TestBit(b, r) => bit_at(self, bus, b, r),
            MicroOp::ResBit(b, r) => res_at(self, bus, b, r),
            MicroOp::SetBit(b, r) => set_at(self, bus, b, r),
            MicroOp::WriteRlcMem(a, r) => {
                rlc_at(self, bus, r);
                write_memory_at(self, bus, a, r);
            },
            MicroOp::WriteRrcMem(a, r) => {
                rrc_at(self, bus, r);
                write_memory_at(self, bus, a, r);
            },
            MicroOp::WriteRlMem(a, r) => {
                rl_at(self, bus, r);
                write_memory_at(self, bus, a, r);
            },
            MicroOp::WriteRrMem(a, r) => {
                rr_at(self, bus, r);
                write_memory_at(self, bus, a, r);
            },
            MicroOp::WriteSlaMem(a, r) => {
                sla_at(self, bus, r);
                write_memory_at(self, bus, a, r);
            },
            MicroOp::WriteSraMem(a, r) => {
                sra_at(self, bus, r);
                write_memory_at(self, bus, a, r);
            },
            MicroOp::WriteSwapMem(a, r) => {
                swap_at(self, bus, r);
                write_memory_at(self, bus, a, r);
            },
            MicroOp::WriteSrlMem(a, r) => {
                srl_at(self, bus, r);
                write_memory_at(self, bus, a, r);
            },
            MicroOp::WriteResMem(b, a, r) => {
                res_at(self, bus, b, r);
                write_memory_at(self, bus, a, r);
            },
            MicroOp::WriteSetMem(b, a, r) => {
                set_at(self, bus, b, r);
                write_memory_at(self, bus, a, r);
            },
            MicroOp::AddR8R8(x, y) => add_r8_r8_at(self, bus, x, y),
            MicroOp::AddR8R8WithCarry(x, y) => add_r8_r8_with_carry_at(self, bus, x, y),
            MicroOp::AddR8R8NoZeroFlag(x, y) => add_r8_r8_no_zero_flag_at(self, bus, x, y),
            MicroOp::AddR8R8WithCarryAndNoZeroFlag(x, y) => add_r8_r8_with_carry_and_no_zero_flag_at(self, bus, x, y),
            MicroOp::AddHlSpELow => self.add_hl_sp_e_low(bus),
            MicroOp::AddHlSpEHigh => self.add_hl_sp_e_high(bus),
            MicroOp::AndR8R8(x, y) => and_r8_r8_at(self, bus, x, y),
            MicroOp::OrR8R8(x, y) => or_r8_r8_at(self, bus, x, y),
            MicroOp::XorR8R8(x, y) => xor_r8_r8_at(self, bus, x, y),
            MicroOp::ReadMemoryIncrCheck(a, v, k) => read_memory_incr_check_at(self, bus, a, v, k),
            MicroOp::CheckCond(k) | MicroOp::CheckCondAndExecute(k) => check_cond_at(self, bus, k),
            MicroOp::RelativeJump => self.relative_jump(bus),
            MicroOp::CpR8R8(x, y) => cp_r8_r8_at(self, bus, x, y),
            MicroOp::IncR8(r) => inc_r8_at(self, bus, r),
            MicroOp::IncAddr(a, v) => inc_addr_at(self, bus, a, v),
            MicroOp::DecR8(r) => dec_r8_at(self, bus, r),
            MicroOp::DecAddr(a, v) => dec_addr_at(self, bus, a, v),
            MicroOp::IncR16(r) => step_pair(self, bus, r, true),
            MicroOp::DecR16(r) => step_pair(self, bus, r, false),
            MicroOp::LoadR8R8(x, y) => load_r8_r8_at(self, bus, x, y),
            MicroOp::ReadMemory(a, v) => read_memory_at(self, bus, a, v),
            MicroOp::ReadMemory0xff(x, y) => read_memory_0xff_at(self, bus, x, y),
            MicroOp::WriteMemory0xff(x, y) => write_memory_0xff_at(self, bus, x, y),
            MicroOp::WriteMemory(a, v) => write_memory_at(self, bus, a, v),
            MicroOp::LoadR16R16(x, y) => load_r16_r16_at(self, bus, x, y),
            MicroOp::LoadR16R16AndIme(x, y) => load_r16_r16_and_ime_at(self, bus, x, y),
            MicroOp::LoadR16R16AfFlags(x, y) => load_r16_r16_af_flags_at(self, bus, x, y),
            MicroOp::ReadMemoryDecr(a, v) => read_memory_decr_at(self, bus, a, v),
            MicroOp::WriteMemoryDecr(a, v) => write_memory_decr_at(self, bus, a, v),
            MicroOp::ReadMemoryIncr(a, v) => read_memory_incr_at(self, bus, a, v),
            MicroOp::WriteMemoryIncr(a, v) => write_memory_incr_at(self, bus, a, v),
            MicroOp::LdHlSpELow => self.ld_hl_sp_e_low(bus),
            MicroOp::LdHlSpEHigh => self.ld_hl_sp_e_high(bus),
            MicroOp::WriteMemoryReassignPc(a, v) => write_memory_reassign_pc_at(self, bus, a, v),
            MicroOp::WriteMemoryRst(b, a, v) => write_memory_rst_at(self, bus, b, a, v),
            MicroOp::SubR8R8(x, y) => sub_r8_r8_at(self, bus, x, y),
            MicroOp::SubR8R8WithCarry(x, y) => sub_r8_r8_with_carry_at(self, bus, x, y),
            MicroOp::DecodeCb => self.decode_cb(bus),
            MicroOp::Stop => {},
        }
    }

    /// Steps PC back once when HALT left the HALT bug behind.
    fn handle_halt_bug(&mut self, bus: &mut Mmu)
        ensures
            micro(*final(self), *final(bus)) == after_halt_bug(micro(*old(self), *old(bus))),
    {
        if self.halt_bug {
            step_pair(self, bus, r16::PC, false);
            self.halt_bug = false;
        }
    }

    /// A delayed EI takes effect.
    fn handle_ime_delay(&mut self)
        ensures
            *final(self) == (if old(self).ime_delay {
                Cpu { ime: true, ime_delay: false, ..*old(self) }
            } else {
                *old(self)
            }),
    {
        if self.ime_delay {
            self.ime = true;
            self.ime_delay = false;
        }
    }

    /// Reads the opcode at PC, steps PC, handles the HALT bug and a delayed EI, and
    /// loads the opcode's cycles.
    pub fn first_read(&mut self, bus: &mut Mmu)
        requires
            tables_ok(old(self).instructions@, old(self).cb_instructions@),
        ensures
            micro(*final(self), *final(bus)) == after_first_read(micro(*old(self), *old(bus))),
    {
        let pc = self.pair(r16::PC);
        let instruction_byte = bus.read_byte(pc);
        step_pair(self, bus, r16::PC, true);
        self.handle_halt_bug(bus);
        self.handle_ime_delay();
        self.queue_from_table(false, instruction_byte);
    }

    /// Runs the micro-op at the cycle index and moves the index past it.
    fn run_current_op(&mut self, bus: &mut Mmu)
        requires
            machine_ok(micro(*old(self), *old(bus))),
            old(self).op_index < old(self).queue_len,
            micro_op_runs(micro(*old(self), *old(bus)).queue[old(self).op_index as int]),
        ensures
            micro(*final(self), *final(bus)) == after_current_op(micro(*old(self), *old(bus))),
            tables_ok(final(self).instructions@, final(self).cb_instructions@),
    {
        let ghost s0 = micro(*self, *bus);
        let micro_op = self.queue[self.op_index];
        assert(micro_op == s0.queue[s0.op_index]);
        self.op_index = self.op_index + 1;
        assert(micro(*self, *bus) == s0.set_op_index(s0.op_index + 1));
        proof {
            lemma_micro_op_keeps_machine_ok(s0.set_op_index(s0.op_index + 1), micro_op);
        }
        self.run_micro_op(bus, micro_op);
    }

    /// One machine cycle: with PC at 0 the first opcode is read; then the current
    /// micro-op runs and, when the instruction is over, the next opcode is read.
    pub fn tick(&mut self, bus: &mut Mmu)
        requires
            can_tick(micro(*old(self), *old(bus))),
        ensures
            micro(*final(self), *final(bus)) == after_tick(micro(*old(self), *old(bus))),
    {
        let ghost s = micro(*self, *bus);
        if self.pair(r16::PC) == 0 {
            self.first_read(bus);
            proof {
                lemma_table_lengths(s.mem(s.pair(r16::PC as int)));
            }
        }
        self.run_current_op(bus);
        if self.op_index == self.queue_len {
            self.first_read(bus);
            self.op_index = 0;
        }
    }

    /// Replaces the queue by `ops` and starts it from its first cycle.
    pub fn load_queue(&mut self, ops: &[MicroOp])
        requires
            ops@.len() <= 8,
        ensures
            *final(self) == (Cpu {
                queue: final(self).queue,
                queue_len: ops@.len() as usize,
                op_index: 0,
                ..*old(self)
            }),
            final(self).queue@.take(ops@.len() as int) == ops@,
    {
        let n = ops.len();
        let mut i: usize = 0;
        while i < n
            invariant
                n == ops@.len(),
                n <= 8,
                i <= n,
                *self == (Cpu { queue: self.queue, ..*old(self) }),
                forall|k: int| 0 <= k < i ==> self.queue@[k] == ops@[k],
            decreases n - i,
        {
            self.queue[i] = ops[i];
            i = i + 1;
        }
        self.queue_len = n;
        self.op_index = 0;
        assert(self.queue@.take(n as int) =~= ops@);
    }
}

} // verus!
