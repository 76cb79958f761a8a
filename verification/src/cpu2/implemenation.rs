use vstd::prelude::*;

use crate::cpu2::cb_operations::{after_decode_cb, decode_cb};
use crate::cpu2::defines::{r16, r8, add16, AccState, Cpu, CpuState, MicroOp, R16, R8, Registers, hi_byte, lo_byte, word};
use crate::cpu2::instructions::add::{add_hl_sp_e_high, add_hl_sp_e_low, add_r8_r8_at, add_r8_r8_no_zero_flag_at, add_r8_r8_with_carry_and_no_zero_flag_at, add_r8_r8_with_carry_at, after_add_hl_sp_e_high, after_add_hl_sp_e_low, after_add_r8_r8, after_add_r8_r8_no_zero_flag, after_add_r8_r8_with_carry, after_add_r8_r8_with_carry_and_no_zero_flag};
use crate::cpu2::instructions::and_or_xor::{after_and_r8_r8, after_or_r8_r8, after_xor_r8_r8, and_r8_r8_at, or_r8_r8_at, xor_r8_r8_at};
use crate::cpu2::instructions::cond::{after_check_cond, after_relative_jump, check_cond_at, relative_jump};
use crate::cpu2::instructions::cp::{after_cp_r8_r8, cp_r8_r8_at};
use crate::cpu2::instructions::inc_dec::{after_dec_addr, after_dec_r8, after_inc_addr, after_inc_r8, dec_addr_at, dec_r8_at, inc_addr_at, inc_r8_at};
use crate::cpu2::instructions::load::{after_ld_hl_sp_e_high, after_ld_hl_sp_e_low, after_load_r16_r16, after_load_r8_r8, after_read_memory, after_read_memory_0xff, after_read_memory_decr, after_read_memory_incr, after_write_memory, after_write_memory_0xff, after_write_memory_decr, after_write_memory_incr, after_write_memory_reassign_pc, after_write_memory_rst, bump_pair, ld_hl_sp_e_high, ld_hl_sp_e_low, load_r16_r16_at, load_r8_r8_at, read_memory_0xff_at, read_memory_at, read_memory_decr_at, read_memory_incr_at, step_pair, write_memory_0xff_at, write_memory_at, write_memory_decr_at, write_memory_incr_at, write_memory_reassign_pc_at, write_memory_rst_at};
use crate::cpu2::instructions::other::{after_bit, after_ccf, after_cpl, after_daa, after_res, after_rl, after_rla, after_rlc, after_rlca, after_rr, after_rra, after_rrc, after_rrca, after_scf, after_set, after_sla, after_sra, after_srl, after_swap, bit_at, ccf, cpl, daa, noop, res_at, rl_at, rla, rlc_at, rlca, rr_at, rra, rrc_at, rrca, scf, set_at, sla_at, sra_at, srl_at, swap_at, write_back_at_hl};
use crate::cpu2::instructions::sub::{after_sub_r8_r8, after_sub_r8_r8_with_carry, sub_r8_r8_at, sub_r8_r8_with_carry_at};
use crate::cpu2::operations::{dispatch, find_instruction, opcode_micro_ops};

verus! {

/// A type that names one 8-bit register slot.
pub trait Reg8 {
    const USIZE: usize;

    /// The slot names one of the fourteen slots of the register file.
    proof fn lemma_index_in_range()
        ensures
            Self::USIZE < 14,
    ;
}

/// A type that names one 16-bit register pair.
pub trait Reg16 {
    const USIZE: usize;

    /// The pair index names one of the seven register pairs.
    proof fn lemma_index_in_range()
        ensures
            Self::USIZE < 7,
    ;
}

pub struct A {}

impl Reg8 for A {
    const USIZE: usize = r8::A;

    proof fn lemma_index_in_range() {
    }
}

pub struct B {}

impl Reg8 for B {
    const USIZE: usize = r8::B;

    proof fn lemma_index_in_range() {
    }
}

pub struct C {}

impl Reg8 for C {
    const USIZE: usize = r8::C;

    proof fn lemma_index_in_range() {
    }
}

pub struct D {}

impl Reg8 for D {
    const USIZE: usize = r8::D;

    proof fn lemma_index_in_range() {
    }
}

pub struct E {}

impl Reg8 for E {
    const USIZE: usize = r8::E;

    proof fn lemma_index_in_range() {
    }
}

pub struct F {}

impl Reg8 for F {
    const USIZE: usize = r8::F;

    proof fn lemma_index_in_range() {
    }
}

pub struct H {}

impl Reg8 for H {
    const USIZE: usize = r8::H;

    proof fn lemma_index_in_range() {
    }
}

pub struct L {}

impl Reg8 for L {
    const USIZE: usize = r8::L;

    proof fn lemma_index_in_range() {
    }
}

pub struct S {}

impl Reg8 for S {
    const USIZE: usize = r8::S;

    proof fn lemma_index_in_range() {
    }
}

pub struct P {}

impl Reg8 for P {
    const USIZE: usize = r8::P;

    proof fn lemma_index_in_range() {
    }
}

pub struct PcC {}

impl Reg8 for PcC {
    const USIZE: usize = r8::PcC;

    proof fn lemma_index_in_range() {
    }
}

pub struct PcP {}

impl Reg8 for PcP {
    const USIZE: usize = r8::PcP;

    proof fn lemma_index_in_range() {
    }
}

pub struct W {}

impl Reg8 for W {
    const USIZE: usize = r8::W;

    proof fn lemma_index_in_range() {
    }
}

pub struct Z {}

impl Reg8 for Z {
    const USIZE: usize = r8::Z;

    proof fn lemma_index_in_range() {
    }
}

pub struct AF {}

impl Reg16 for AF {
    const USIZE: usize = r16::AF;

    proof fn lemma_index_in_range() {
    }
}

pub struct BC {}

impl Reg16 for BC {
    const USIZE: usize = r16::BC;

    proof fn lemma_index_in_range() {
    }
}

pub struct DE {}

impl Reg16 for DE {
    const USIZE: usize = r16::DE;

    proof fn lemma_index_in_range() {
    }
}

pub struct HL {}

impl Reg16 for HL {
    const USIZE: usize = r16::HL;

    proof fn lemma_index_in_range() {
    }
}

pub struct SP {}

impl Reg16 for SP {
    const USIZE: usize = r16::SP;

    proof fn lemma_index_in_range() {
    }
}

pub struct PC {}

impl Reg16 for PC {
    const USIZE: usize = r16::PC;

    proof fn lemma_index_in_range() {
    }
}

pub struct WZ {}

impl Reg16 for WZ {
    const USIZE: usize = r16::WZ;

    proof fn lemma_index_in_range() {
    }
}

/// The slot that each register type names in the register file, and the pair
/// that each pair type names: distinct types name distinct slots.
pub proof fn lemma_register_slots()
    ensures
        A::USIZE == 0,
        B::USIZE == 1,
        C::USIZE == 2,
        D::USIZE == 3,
        E::USIZE == 4,
        F::USIZE == 5,
        H::USIZE == 6,
        L::USIZE == 7,
        S::USIZE == 8,
        P::USIZE == 9,
        PcC::USIZE == 10,
        PcP::USIZE == 11,
        W::USIZE == 12,
        Z::USIZE == 13,
        AF::USIZE == 0,
        BC::USIZE == 1,
        DE::USIZE == 2,
        HL::USIZE == 3,
        SP::USIZE == 4,
        PC::USIZE == 5,
        WZ::USIZE == 6,
{
}

/// Named access to the registers of a register file.
pub trait GetReg<R> {
    type Value;

    fn get(&self, r: R) -> Self::Value;

    fn set(&mut self, r: R, value: Self::Value);
}

/// The register file seen as a state with nothing else in it.
pub open spec fn registers_state(regs: Registers) -> AccState {
    AccState { r8: regs.r8@, sp: regs.sp, flags: regs.flags, acc_value: 0, acc_pos: 0, bus: Seq::empty() }
}

impl GetReg<R8> for Registers {
    type Value = u8;

    /// The register `r`.
    fn get(&self, r: R8) -> (v: u8)
        ensures
            v == registers_state(*self).reg(r),
    {
        self.r8[r.index()]
    }

    /// Stores `value` in register `r`.
    fn set(&mut self, r: R8, value: u8)
        ensures
            registers_state(*final(self)) == registers_state(*old(self)).set_reg(r, value),
    {
        self.r8[r.index()] = value;
    }
}

impl GetReg<R16> for Registers {
    type Value = u16;

    /// The pair `r`, high register first.
    fn get(&self, r: R16) -> (v: u16)
        ensures
            v == registers_state(*self).pair(r),
    {
        let (hi, lo) = match r {
            R16::AF => (0usize, 5usize),
            R16::BC => (1, 2),
            R16::DE => (3, 4),
            R16::HL => (6, 7),
            R16::SP => {
                return self.sp;
            },
        };
        let h = self.r8[hi];
        let l = self.r8[lo];
        proof { crate::bits::lemma_word(h, l); }
        (h as u16) << 8 | l as u16
    }

    /// Stores `value` in pair `r`, high register first.
    fn set(&mut self, r: R16, value: u16)
        ensures
            registers_state(*final(self)) == registers_state(*old(self)).set_pair(r, value),
    {
        proof { crate::bits::lemma_word_parts(value); }
        let (hi, lo) = match r {
            R16::AF => (0usize, 5usize),
            R16::BC => (1, 2),
            R16::DE => (3, 4),
            R16::HL => (6, 7),
            R16::SP => {
                self.sp = value;
                return;
            },
        };
        self.r8[hi] = (value >> 8) as u8;
        self.r8[lo] = (value & 0xFF) as u8;
    }
}

/// Reading back a pair just written gives the value written, and writing a pair
/// leaves every slot outside it unchanged.
pub proof fn lemma_pair_set_get(s: CpuState, j: int, k: int, v: u16)
    requires
        s.wf(),
        0 <= j < 7,
        0 <= k < 7,
    ensures
        s.set_pair(j, v).pair(j) == v,
        k != j ==> s.set_pair(j, v).pair(k) == s.pair(k),
        forall|i: int| 0 <= i < 14 && i != 2 * j && i != 2 * j + 1 ==> #[trigger] s.set_pair(j, v).reg(i) == s.reg(i),
{
}

/// Whether the operands of a micro-op name existing slots, pairs and bits.
pub open spec fn micro_op_wf(op: MicroOp) -> bool {
    match op {
        MicroOp::DecrementR16(r) | MicroOp::IncR16(r) | MicroOp::DecR16(r) => r < 7,
        MicroOp::Rlc(r) | MicroOp::Rrc(r) | MicroOp::Rl(r) | MicroOp::Rr(r) | MicroOp::Sla(r)
        | MicroOp::Sra(r) | MicroOp::Swap(r) | MicroOp::Srl(r) | MicroOp::IncR8(r) | MicroOp::DecR8(r) => r < 14,
        MicroOp::TestBit(b, r) | MicroOp::ResBit(b, r) | MicroOp::SetBit(b, r) => b < 8 && r < 14,
        MicroOp::WriteRlcMem(_, r) | MicroOp::WriteRrcMem(_, r) | MicroOp::WriteRlMem(_, r)
        | MicroOp::WriteRrMem(_, r) | MicroOp::WriteSlaMem(_, r) | MicroOp::WriteSraMem(_, r)
        | MicroOp::WriteSwapMem(_, r) | MicroOp::WriteSrlMem(_, r) => r < 14,
        MicroOp::WriteResMem(b, _, r) | MicroOp::WriteSetMem(b, _, r) => b < 8 && r < 14,
        MicroOp::AddR8R8(x, y) | MicroOp::AddR8R8WithCarry(x, y) | MicroOp::AddR8R8NoZeroFlag(x, y)
        | MicroOp::AddR8R8WithCarryAndNoZeroFlag(x, y) | MicroOp::AndR8R8(x, y) | MicroOp::OrR8R8(x, y)
        | MicroOp::XorR8R8(x, y) | MicroOp::CpR8R8(x, y) | MicroOp::LoadR8R8(x, y)
        | MicroOp::ReadMemory0xff(x, y) | MicroOp::WriteMemory0xff(x, y) | MicroOp::SubR8R8(x, y)
        | MicroOp::SubR8R8WithCarry(x, y) => x < 14 && y < 14,
        MicroOp::IncAddr(a, v) | MicroOp::DecAddr(a, v) | MicroOp::ReadMemory(a, v) | MicroOp::WriteMemory(a, v)
        | MicroOp::ReadMemoryDecr(a, v) | MicroOp::WriteMemoryDecr(a, v) | MicroOp::ReadMemoryIncr(a, v)
        | MicroOp::WriteMemoryIncr(a, v) | MicroOp::WriteMemoryReassignPc(a, v) | MicroOp::WriteMemoryRst(_, a, v) => a < 7
            && v < 14,
        MicroOp::LoadR16R16(x, y) | MicroOp::LoadR16R16AndIme(x, y) => x < 7 && y < 7,
        _ => true,
    }
}

/// Whether a micro-op can run in state `s`: its operands exist, it is not one of the
/// cycles with no behaviour yet (HALT, DI, EI and the interrupt-enabling load), and a
/// CB prefix finds its second byte in the program.
pub open spec fn micro_op_runs(s: CpuState, op: MicroOp) -> bool {
    &&& micro_op_wf(op)
    &&& match op {
        MicroOp::Halt | MicroOp::SetIme0 | MicroOp::SetIme1 | MicroOp::LoadR16R16AndIme(_, _) => false,
        MicroOp::DecodeCb => (s.pair(r16::PC as int) as int) < s.instructions_list.len(),
        _ => true,
    }
}

/// The state after one micro-op.
pub open spec fn after_micro_op(s: CpuState, op: MicroOp) -> CpuState {
    match op {
        MicroOp::Noop => s,
        MicroOp::DecrementR16(r) => bump_pair(s, r as int, -1),
        MicroOp::Cpl => after_cpl(s),
        MicroOp::Scf => after_scf(s),
        MicroOp::Ccf => after_ccf(s),
        MicroOp::Daa => after_daa(s),
        MicroOp::Rlca => after_rlca(s),
        MicroOp::Rrca => after_rrca(s),
        MicroOp::Rla => after_rla(s),
        MicroOp::Rra => after_rra(s),
        MicroOp::Rlc(r) => after_rlc(s, r as int),
        MicroOp::Rrc(r) => after_rrc(s, r as int),
        MicroOp::Rl(r) => after_rl(s, r as int),
        MicroOp::Rr(r) => after_rr(s, r as int),
        MicroOp::Sla(r) => after_sla(s, r as int),
        MicroOp::Sra(r) => after_sra(s, r as int),
        MicroOp::Swap(r) => after_swap(s, r as int),
        MicroOp::Srl(r) => after_srl(s, r as int),
        MicroOp::TestBit(b, r) => after_bit(s, b, r as int),
        MicroOp::ResBit(b, r) => after_res(s, b, r as int),
        MicroOp::SetBit(b, r) => after_set(s, b, r as int),
        MicroOp::WriteRlcMem(_, r) => write_back_at_hl(after_rlc(s, r as int), r as int),
        MicroOp::WriteRrcMem(_, r) => write_back_at_hl(after_rrc(s, r as int), r as int),
        MicroOp::WriteRlMem(_, r) => write_back_at_hl(after_rl(s, r as int), r as int),
        MicroOp::WriteRrMem(_, r) => write_back_at_hl(after_rr(s, r as int), r as int),
        MicroOp::WriteSlaMem(_, r) => write_back_at_hl(after_sla(s, r as int), r as int),
        MicroOp::WriteSraMem(_, r) => write_back_at_hl(after_sra(s, r as int), r as int),
        MicroOp::WriteSwapMem(_, r) => write_back_at_hl(after_swap(s, r as int), r as int),
        MicroOp::WriteSrlMem(_, r) => write_back_at_hl(after_srl(s, r as int), r as int),
        MicroOp::WriteResMem(b, _, r) => write_back_at_hl(after_res(s, b, r as int), r as int),
        MicroOp::WriteSetMem(b, _, r) => write_back_at_hl(after_set(s, b, r as int), r as int),
        MicroOp::AddR8R8(x, y) => after_add_r8_r8(s, x as int, y as int),
        MicroOp::AddR8R8WithCarry(x, y) => after_add_r8_r8_with_carry(s, x as int, y as int),
        MicroOp::AddR8R8NoZeroFlag(x, y) => after_add_r8_r8_no_zero_flag(s, x as int, y as int),
        MicroOp::AddR8R8WithCarryAndNoZeroFlag(x, y) => after_add_r8_r8_with_carry_and_no_zero_flag(s, x as int, y as int),
        MicroOp::AddHlSpELow => after_add_hl_sp_e_low(s),
        MicroOp::AddHlSpEHigh => after_add_hl_sp_e_high(s),
        MicroOp::AndR8R8(x, y) => after_and_r8_r8(s, x as int, y as int),
        MicroOp::OrR8R8(x, y) => after_or_r8_r8(s, x as int, y as int),
        MicroOp::XorR8R8(x, y) => after_xor_r8_r8(s, x as int, y as int),
        MicroOp::CheckCond(k) => after_check_cond(s, k),
        MicroOp::RelativeJump => after_relative_jump(s),
        MicroOp::CpR8R8(x, y) => after_cp_r8_r8(s, x as int, y as int),
        MicroOp::IncR8(r) => after_inc_r8(s, r as int),
        MicroOp::IncAddr(a, v) => after_inc_addr(s, a as int, v as int),
        MicroOp::DecR8(r) => after_dec_r8(s, r as int),
        MicroOp::DecAddr(a, v) => after_dec_addr(s, a as int, v as int),
        MicroOp::IncR16(r) => bump_pair(s, r as int, 1),
        MicroOp::DecR16(r) => bump_pair(s, r as int, -1),
        MicroOp::LoadR8R8(x, y) => after_load_r8_r8(s, x as int, y as int),
        MicroOp::ReadMemory(a, v) => after_read_memory(s, a as int, v as int),
        MicroOp::ReadMemory0xff(x, y) => after_read_memory_0xff(s, x as int, y as int),
        MicroOp::WriteMemory0xff(x, y) => after_write_memory_0xff(s, x as int, y as int),
        MicroOp::WriteMemory(a, v) => after_write_memory(s, a as int, v as int),
        MicroOp::LoadR16R16(x, y) => after_load_r16_r16(s, x as int, y as int),
        MicroOp::ReadMemoryDecr(a, v) => after_read_memory_decr(s, a as int, v as int),
        MicroOp::WriteMemoryDecr(a, v) => after_write_memory_decr(s, a as int, v as int),
        MicroOp::ReadMemoryIncr(a, v) => after_read_memory_incr(s, a as int, v as int),
        MicroOp::WriteMemoryIncr(a, v) => after_write_memory_incr(s, a as int, v as int),
        MicroOp::LdHlSpELow => after_ld_hl_sp_e_low(s),
        MicroOp::LdHlSpEHigh => after_ld_hl_sp_e_high(s),
        MicroOp::WriteMemoryReassignPc(a, v) => after_write_memory_reassign_pc(s, a as int, v as int),
        MicroOp::WriteMemoryRst(b, a, v) => after_write_memory_rst(s, b, a as int, v as int),
        MicroOp::SubR8R8(x, y) => after_sub_r8_r8(s, x as int, y as int),
        MicroOp::SubR8R8WithCarry(x, y) => after_sub_r8_r8_with_carry(s, x as int, y as int),
        MicroOp::DecodeCb => after_decode_cb(s),
        MicroOp::Halt | MicroOp::SetIme0 | MicroOp::SetIme1 | MicroOp::LoadR16R16AndIme(_, _) => s,
    }
}

/// The state after the current micro-op, before any fetch.
pub open spec fn after_current_op(s: CpuState) -> CpuState {
    after_micro_op(s.set_op_index(s.op_index + 1), s.queue[s.op_index])
}

/// The opcode that the next fetch reads: the program byte at PC.
pub open spec fn fetched_opcode(s: CpuState) -> u8 {
    s.instructions_list[s.pair(r16::PC as int) as int]
}

/// One tick: the current micro-op runs; when it ends the instruction, the next opcode
/// is read from the program at PC, PC steps, and that opcode's cycles become the queue.
pub open spec fn after_tick(s: CpuState) -> CpuState {
    let s1 = after_current_op(s);
    if s1.op_index == s1.queue.len() {
        let pc = s1.pair(r16::PC as int);
        s1.set_pair(r16::PC as int, add16(pc as int, 1)).set_queue(opcode_micro_ops(fetched_opcode(s1))->0).set_op_index(0)
    } else {
        s1
    }
}

/// Whether a tick can run without fault: a micro-op is left in the queue and can run,
/// and when the instruction ends the program holds a known opcode at PC.
pub open spec fn can_tick(s: CpuState) -> bool {
    &&& 0 <= s.op_index < s.queue.len()
    &&& micro_op_runs(s.set_op_index(s.op_index + 1), s.queue[s.op_index])
    &&& ({
        let s1 = after_current_op(s);
        s1.op_index == s1.queue.len() ==> {
            &&& (s1.pair(r16::PC as int) as int) < s1.instructions_list.len()
            &&& opcode_micro_ops(fetched_opcode(s1)) is Some
        }
    })
}

impl Cpu {
    /// A machine about to run the first opcode of `test`: registers, flags and memory
    /// cleared, PC at 0, and the cycles of that opcode in the queue.
    pub fn new(test: Vec<u8>) -> (r: Self)
        requires
            test.len() > 0,
            opcode_micro_ops(test[0]) is Some,
        ensures
            r@.queue == opcode_micro_ops(test[0])->0,
            r@.r8 == Seq::new(14, |i: int| 0u8),
            r@.flags == 0,
            r@.instructions_list == test@,
            r@.op_index == 0,
            r@.bus == Seq::new(65536, |i: int| 0u8),
    {
        let first_opcode = test[0];
        let first_instr = find_instruction(first_opcode).unwrap();
        let r = Cpu {
            r8: [0; 14],
            flags: 0,
            instructions_list: test,
            queue: first_instr.micro_ops,
            op_index: 0,
            bus: [0; 65536],
        };
        assert(r@.r8 =~= Seq::new(14, |i: int| 0u8));
        assert(r@.bus =~= Seq::new(65536, |i: int| 0u8));
        r
    }

    /// Runs one micro-op.
    pub fn run_micro_op(&mut self, op: MicroOp)
        requires
            micro_op_runs(old(self)@, op),
        ensures
            final(self)@ == after_micro_op(old(self)@, op),
    {
        match op {
            MicroOp::Noop => noop(self),
            MicroOp::DecrementR16(r) => step_pair(self, r, false),
            MicroOp::Cpl => cpl(self),
            MicroOp::Scf => scf(self),
            MicroOp::Ccf => ccf(self),
            MicroOp::Daa => daa(self),
            MicroOp::Rlca => rlca(self),
            MicroOp::Rrca => rrca(self),
            MicroOp::Rla => rla(self),
            MicroOp::Rra => rra(self),
            MicroOp::Rlc(r) => rlc_at(self, r),
            MicroOp::Rrc(r) => rrc_at(self, r),
            MicroOp::Rl(r) => rl_at(self, r),
            MicroOp::Rr(r) => rr_at(self, r),
            MicroOp::Sla(r) => sla_at(self, r),
            MicroOp::Sra(r) => sra_at(self, r),
            MicroOp::Swap(r) => swap_at(self, r),
            MicroOp::Srl(r) => srl_at(self, r),
            MicroOp::TestBit(b, r) => bit_at(self, b, r),
            MicroOp::ResBit(b, r) => res_at(self, b, r),
            MicroOp::SetBit(b, r) => set_at(self, b, r),
            MicroOp::WriteRlcMem(_, r) => {
                rlc_at(self, r);
                write_memory_at(self, r16::HL, r);
            },
            MicroOp::WriteRrcMem(_, r) => {
                rrc_at(self, r);
                write_memory_at(self, r16::HL, r);
            },
            MicroOp::WriteRlMem(_, r) => {
                rl_at(self, r);
                write_memory_at(self, r16::HL, r);
            },
            MicroOp::WriteRrMem(_, r) => {
                rr_at(self, r);
                write_memory_at(self, r16::HL, r);
            },
            MicroOp::WriteSlaMem(_, r) => {
                sla_at(self, r);
                write_memory_at(self, r16::HL, r);
            },
            MicroOp::WriteSraMem(_, r) => {
                sra_at(self, r);
                write_memory_at(self, r16::HL, r);
            },
            MicroOp::WriteSwapMem(_, r) => {
                swap_at(self, r);
                write_memory_at(self, r16::HL, r);
            },
            MicroOp::WriteSrlMem(_, r) => {
                srl_at(self, r);
                write_memory_at(self, r16::HL, r);
            },
            MicroOp::WriteResMem(b, _, r) => {
                res_at(self, b, r);
                write_memory_at(self, r16::HL, r);
            },
            MicroOp::WriteSetMem(b, _, r) => {
                set_at(self, b, r);
                write_memory_at(self, r16::HL, r);
            },
            MicroOp::AddR8R8(x, y) => add_r8_r8_at(self, x, y),
            MicroOp::AddR8R8WithCarry(x, y) => add_r8_r8_with_carry_at(self, x, y),
            MicroOp::AddR8R8NoZeroFlag(x, y) => add_r8_r8_no_zero_flag_at(self, x, y),
            MicroOp::AddR8R8WithCarryAndNoZeroFlag(x, y) => add_r8_r8_with_carry_and_no_zero_flag_at(self, x, y),
            MicroOp::AddHlSpELow => add_hl_sp_e_low(self),
            MicroOp::AddHlSpEHigh => add_hl_sp_e_high(self),
            MicroOp::AndR8R8(x, y) => and_r8_r8_at(self, x, y),
            MicroOp::OrR8R8(x, y) => or_r8_r8_at(self, x, y),
            MicroOp::XorR8R8(x, y) => xor_r8_r8_at(self, x, y),
            MicroOp::CheckCond(k) => check_cond_at(self, k),
            MicroOp::RelativeJump => relative_jump(self),
            MicroOp::CpR8R8(x, y) => cp_r8_r8_at(self, x, y),
            MicroOp::IncR8(r) => inc_r8_at(self, r),
            MicroOp::IncAddr(a, v) => inc_addr_at(self, a, v),
            MicroOp::DecR8(r) => dec_r8_at(self, r),
            MicroOp::DecAddr(a, v) => dec_addr_at(self, a, v),
            MicroOp::IncR16(r) => step_pair(self, r, true),
            MicroOp::DecR16(r) => step_pair(self, r, false),
            MicroOp::LoadR8R8(x, y) => load_r8_r8_at(self, x, y),
            MicroOp::ReadMemory(a, v) => read_memory_at(self, a, v),
            MicroOp::ReadMemory0xff(x, y) => read_memory_0xff_at(self, x, y),
            MicroOp::WriteMemory0xff(x, y) => write_memory_0xff_at(self, x, y),
            MicroOp::WriteMemory(a, v) => write_memory_at(self, a, v),
            MicroOp::LoadR16R16(x, y) => load_r16_r16_at(self, x, y),
            MicroOp::ReadMemoryDecr(a, v) => read_memory_decr_at(self, a, v),
            MicroOp::WriteMemoryDecr(a, v) => write_memory_decr_at(self, a, v),
            MicroOp::ReadMemoryIncr(a, v) => read_memory_incr_at(self, a, v),
            MicroOp::WriteMemoryIncr(a, v) => write_memory_incr_at(self, a, v),
            MicroOp::LdHlSpELow => ld_hl_sp_e_low(self),
            MicroOp::LdHlSpEHigh => ld_hl_sp_e_high(self),
            MicroOp::WriteMemoryReassignPc(a, v) => write_memory_reassign_pc_at(self, a, v),
            MicroOp::WriteMemoryRst(b, a, v) => write_memory_rst_at(self, b, a, v),
            MicroOp::SubR8R8(x, y) => sub_r8_r8_at(self, x, y),
            MicroOp::SubR8R8WithCarry(x, y) => sub_r8_r8_with_carry_at(self, x, y),
            MicroOp::DecodeCb => decode_cb(self),
            MicroOp::Halt | MicroOp::SetIme0 | MicroOp::SetIme1 | MicroOp::LoadR16R16AndIme(_, _) => {},
        }
    }

    /// One machine cycle: runs the current micro-op and, when the instruction is over,
    /// fetches the next opcode from the program at PC.
    pub fn tick(&mut self)
        requires
            can_tick(old(self)@),
        ensures
            final(self)@ == after_tick(old(self)@),
    {
        let len = self.queue.len();
        let micro_op = self.queue[self.op_index];
        self.op_index = self.op_index + 1;
        self.run_micro_op(micro_op);
        if self.op_index == self.queue.len() {
            let pc = self.pair(r16::PC);
            let opcode = self.instructions_list[pc as usize];
            self.set_pair(r16::PC, pc.wrapping_add(1));
            self.queue = dispatch(opcode).unwrap();
            self.op_index = 0;
        }
    }

    /// The byte in slot `i`.
    pub fn reg(&self, i: usize) -> (r: u8)
        requires
            i < 14,
        ensures
            r == self@.reg(i as int),
    {
        self.r8[i]
    }

    /// Stores `value` in slot `i`.
    pub fn set_reg(&mut self, i: usize, value: u8)
        requires
            i < 14,
        ensures
            final(self)@ == old(self)@.set_reg(i as int, value),
    {
        self.r8[i] = value;
    }

    /// The 16-bit pair `j`.
    pub fn pair(&self, j: usize) -> (r: u16)
        requires
            j < 7,
        ensures
            r == self@.pair(j as int),
    {
        let hi = self.r8[j * 2];
        let lo = self.r8[j * 2 + 1];
        proof { crate::bits::lemma_word(hi, lo); }
        (hi as u16) << 8 | lo as u16
    }

    /// Stores `value` in pair `j`, high byte first.
    pub fn set_pair(&mut self, j: usize, value: u16)
        requires
            j < 7,
        ensures
            final(self)@ == old(self)@.set_pair(j as int, value),
    {
        proof { crate::bits::lemma_word_parts(value); }
        self.r8[j * 2] = (value >> 8) as u8;
        self.r8[j * 2 + 1] = (value & 0xFF) as u8;
    }

    /// The byte at `addr`.
    pub fn mem(&self, addr: u16) -> (r: u8)
        ensures
            r == self@.mem(addr),
    {
        self.bus[addr as usize]
    }

    /// Stores `value` at `addr`.
    pub fn set_mem(&mut self, addr: u16, value: u8)
        ensures
            final(self)@ == old(self)@.set_mem(addr, value),
    {
        self.bus[addr as usize] = value;
    }

    /// The register that `R` names.
    pub fn get_r8<R: Reg8>(&self) -> (r: u8)
        ensures
            r == self@.reg(R::USIZE as int),
    {
        proof {
            R::lemma_index_in_range();
        }
        self.r8[R::USIZE]
    }

    /// Stores `value` in the register that `R` names.
    pub fn set_r8<R: Reg8>(&mut self, value: u8)
        ensures
            final(self)@ == old(self)@.set_reg(R::USIZE as int, value),
    {
        proof {
            R::lemma_index_in_range();
        }
        self.r8[R::USIZE] = value;
    }

    /// The pair that `R` names: slot `2 * R` high, slot `2 * R + 1` low.
    pub fn get_r16<R: Reg16>(&self) -> (r: u16)
        ensures
            r == self@.pair(R::USIZE as int),
    {
        proof {
            R::lemma_index_in_range();
        }
        self.pair(R::USIZE)
    }

    /// Stores `value` in the pair that `R` names.
    pub fn set_r16<R: Reg16>(&mut self, value: u16)
        ensures
            final(self)@ == old(self)@.set_pair(R::USIZE as int, value),
    {
        proof {
            R::lemma_index_in_range();
        }
        self.set_pair(R::USIZE, value)
    }
}

} // verus!
