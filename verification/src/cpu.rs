pub mod block0;
pub mod block1;
pub mod block_prefix;
pub mod cb_instructions;
pub mod conditions;
pub mod defines;
pub mod flags_registers;
pub mod instructions;
pub mod ops;
pub mod ops8;
pub mod control_properties;
pub mod properties;
pub mod step_properties;
pub mod registers;
pub mod utils;

use vstd::prelude::*;

use crate::cpu::block0::{after_block0, block0_cycles, block0_runs, execute_instruction_block0};
use crate::cpu::block1::{after_block1, block1_cycles, execute_instruction_block1};
use crate::cpu::registers::{RegState, Registers, R16, R8};
use crate::cpu2::defines::{add16, hi_byte, lo_byte};
use crate::cpu2::instructions::other::{bcd_value, is_bcd, lemma_daa_after_add, lemma_daa_after_sub};
use crate::mmu::{next_request, Interrupt, Mmu, IE_ADDR, IF_ADDR};

verus! {

const BLOCK_MASK: u8 = 0b11000000;

/// Whether a step ran an instruction or stopped short.
#[derive(Debug, Clone, Copy, PartialEq, Eq, Structural)]
pub enum StepStatus {
    Continue,
    Halted,
}

/// The CPU: registers, program counter, the bus it reads and writes, and the
/// interrupt and HALT state.
pub struct Cpu {
    pub registers: Registers,
    pub pc: u16,
    pub bus: Mmu,
    pub ime: bool,
    /// EI takes effect one instruction late.
    pub ime_delay: bool,
    /// Set by HALT.
    pub halted: bool,
    pub halt_bug: bool,
    pub tick_to_wait: u8,
}

/// Mathematical picture of a `Cpu`.
pub struct CpuView {
    pub regs: RegState,
    pub pc: u16,
    pub mem: Seq<u8>,
    pub ime: bool,
    pub ime_delay: bool,
    pub halted: bool,
    pub halt_bug: bool,
    pub tick_to_wait: u8,
}

impl View for Cpu {
    type V = CpuView;

    open spec fn view(&self) -> CpuView {
        CpuView {
            regs: self.registers@,
            pc: self.pc,
            mem: self.bus.memory@,
            ime: self.ime,
            ime_delay: self.ime_delay,
            halted: self.halted,
            halt_bug: self.halt_bug,
            tick_to_wait: self.tick_to_wait,
        }
    }
}

impl CpuView {
    /// The 8-bit operand `t`; `(HL)` is the byte at the address in HL.
    pub open spec fn r8(self, t: R8) -> u8 {
        if t == R8::HLIndirect {
            self.mem[self.regs.pair(R16::HL) as int]
        } else {
            self.regs.reg(t)
        }
    }

    /// The 8-bit operand `t` set to `v`; `(HL)` writes memory.
    pub open spec fn set_r8(self, t: R8, v: u8) -> CpuView {
        if t == R8::HLIndirect {
            CpuView { mem: self.mem.update(self.regs.pair(R16::HL) as int, v), ..self }
        } else {
            CpuView { regs: self.regs.set_reg(t, v), ..self }
        }
    }

    pub open spec fn set_regs(self, regs: RegState) -> CpuView {
        CpuView { regs: regs, ..self }
    }

    pub open spec fn set_pc(self, pc: u16) -> CpuView {
        CpuView { pc: pc, ..self }
    }

    pub open spec fn set_mem(self, addr: u16, v: u8) -> CpuView {
        CpuView { mem: self.mem.update(addr as int, v), ..self }
    }

    pub open spec fn byte(self, addr: int) -> u8 {
        self.mem[addr]
    }

    /// PC moved forward by `n`, modulo 65536.
    pub open spec fn advance(self, n: int) -> CpuView {
        self.set_pc(add16(self.pc as int, n))
    }

    pub open spec fn pending(self) -> u8 {
        self.mem[IE_ADDR as int] & self.mem[IF_ADDR as int]
    }
}

/// The halt check of a step: a halted CPU stays halted while no enabled interrupt is
/// requested; otherwise it wakes, and waking with IME off arms the halt bug.
pub open spec fn after_halt_state(s: CpuView) -> (CpuView, StepStatus) {
    if s.halted {
        if s.pending() == 0 {
            (s, StepStatus::Halted)
        } else {
            (CpuView { halted: false, halt_bug: s.halt_bug || !s.ime, ..s }, StepStatus::Continue)
        }
    } else {
        (s, StepStatus::Continue)
    }
}

/// The interrupt dispatch of a step: with IME on and an interrupt pending, IME goes off,
/// the request is withdrawn, PC is pushed (high byte at `SP - 1`, low at `SP - 2`) and
/// PC jumps to the handler.
pub open spec fn after_ime_state(s: CpuView) -> (CpuView, StepStatus) {
    if s.ime {
        match next_request(s.pending()) {
            Some(i) => {
                let sp1 = add16(s.regs.sp as int, -1);
                let sp2 = add16(s.regs.sp as int, -2);
                let mem = s.mem.update(IF_ADDR as int, s.mem[IF_ADDR as int] & !i.spec_mask()).update(
                    sp1 as int,
                    hi_byte(s.pc),
                ).update(sp2 as int, lo_byte(s.pc));
                (
                    CpuView { ime: false, regs: s.regs.set_sp(sp2), mem: mem, pc: i.spec_vector(), ..s },
                    StepStatus::Halted,
                )
            },
            None => (s, StepStatus::Continue),
        }
    } else {
        (s, StepStatus::Continue)
    }
}

/// After an instruction the halt bug, when armed, takes PC back one byte.
pub open spec fn after_halt_bug(s: CpuView) -> CpuView {
    if s.halt_bug {
        CpuView { pc: add16(s.pc as int, -1), halt_bug: false, ..s }
    } else {
        s
    }
}

/// After an instruction a pending EI takes effect.
pub open spec fn after_ime_delay(s: CpuView) -> CpuView {
    if s.ime_delay {
        CpuView { ime: true, ime_delay: false, ..s }
    } else {
        s
    }
}

/// Whether `instruction` can run in state `s`: it lies in one of the two blocks that
/// this CPU decodes (0x00 to 0x7F) and, in block 0, its operands lie in the address space.
pub open spec fn instruction_runs(s: CpuView, instruction: u8) -> bool {
    &&& instruction < 0x80
    &&& instruction < 0x40 ==> block0_runs(s, instruction)
}

/// The state after `instruction`.
pub open spec fn after_instruction(s: CpuView, instruction: u8) -> CpuView {
    if instruction < 0x40 {
        after_block0(s, instruction)
    } else {
        after_block1(s, instruction)
    }
}

/// Machine cycles of `instruction`.
pub open spec fn instruction_cycles(s: CpuView, instruction: u8) -> u8 {
    if instruction < 0x40 {
        block0_cycles(s, instruction)
    } else {
        block1_cycles(instruction)
    }
}

/// The state just before the instruction of a step: after the halt check and the
/// interrupt dispatch, when neither ended the step.
pub open spec fn before_instruction(s: CpuView) -> CpuView {
    after_ime_state(after_halt_state(s).0).0
}

/// Whether a step ends before running an instruction, and with which cycle count.
pub open spec fn step_stops_early(s: CpuView) -> Option<u8> {
    if after_halt_state(s).1 == StepStatus::Halted {
        Some(4)
    } else if after_ime_state(after_halt_state(s).0).1 == StepStatus::Halted {
        Some(20)
    } else {
        None
    }
}

/// Whether a step that runs `instruction` (the byte at PC for `step`) can run.
pub open spec fn step_runs_with(s: CpuView, instruction: u8) -> bool {
    step_stops_early(s) is None ==> instruction_runs(before_instruction(s), instruction)
}

/// The state after a step that runs `instruction`: halted CPUs stay put, a serviced
/// interrupt ends the step, otherwise the instruction runs, then the halt bug and a
/// pending EI take effect.
pub open spec fn after_step_with(s: CpuView, instruction: u8) -> (CpuView, u8) {
    match step_stops_early(s) {
        Some(cycles) => {
            if cycles == 4 {
                (after_halt_state(s).0, 4)
            } else {
                (before_instruction(s), 20)
            }
        },
        None => {
            let s1 = before_instruction(s);
            (after_ime_delay(after_halt_bug(after_instruction(s1, instruction))), instruction_cycles(s1, instruction))
        },
    }
}

/// The opcode a step reads: the byte at PC once the halt check and interrupt dispatch are done.
pub open spec fn step_opcode(s: CpuView) -> u8 {
    let s1 = before_instruction(s);
    s1.mem[s1.pc as int]
}

/// A halted CPU with no interrupt both requested and enabled waits: a step changes
/// nothing and takes four cycles, whatever byte PC points at.
pub proof fn lemma_halted_cpu_waits(s: CpuView, instruction: u8)
    requires
        s.halted,
        s.pending() == 0,
    ensures
        after_step_with(s, instruction) == (s, 4u8),
{
}

/// Servicing an interrupt pushes PC: the two bytes below the old SP, read back as a
/// pop reads them, give the PC of before, and PC is the handler's address.
pub proof fn lemma_interrupt_pushes_pc(s: CpuView)
    requires
        s.mem.len() == 65536,
        s.ime,
        next_request(s.pending()) is Some,
    ensures
        ({
            let (t, serviced) = after_ime_state(s);
            let sp = t.regs.sp;
            &&& serviced == StepStatus::Halted
            &&& !t.ime
            &&& sp == add16(s.regs.sp as int, -2)
            &&& crate::cpu2::defines::word(t.mem[add16(sp as int, 1) as int], t.mem[sp as int]) == s.pc
            &&& t.pc == next_request(s.pending())->0.spec_vector()
        }),
{
    crate::bits::lemma_word_parts(s.pc);
}

/// The step CPU and the micro-op tables agree on timing: every opcode of blocks 0
/// and 1 but the conditional relative jumps takes four clock cycles per micro-op of its
/// entry in the main table. INC (HL), DEC (HL) and LD (HL),d8 are the exceptions: the
/// step CPU counts them shorter than their three micro-ops.
pub proof fn lemma_cycles_match_micro_ops(s: CpuView, instruction: u8)
    requires
        instruction < 0x80,
        instruction != 0x20 && instruction != 0x28 && instruction != 0x30 && instruction != 0x38,
        instruction != 0x34 && instruction != 0x35 && instruction != 0x36,
    ensures
        instruction_cycles(s, instruction) == 4 * crate::cpu::instructions::main_micro_ops(instruction).len(),
{
}

/// CPL complements every bit of A and raises N and H; Z and C, the other registers,
/// SP and memory are kept, and PC moves past the opcode.
pub proof fn lemma_cpl_complements_a(s: CpuView)
    requires
        s.regs.r8.len() == 8,
    ensures
        ({
            let t = after_instruction(s, 0x2F);
            let a = s.regs.reg(R8::A);
            &&& t.regs.reg(R8::A) == !a
            &&& t.regs.reg(R8::A) ^ a == 0xFF
            &&& t.regs.f.subtract && t.regs.f.half_carry
            &&& t.regs.f.zero == s.regs.f.zero && t.regs.f.carry == s.regs.f.carry
            &&& forall|r: R8| r != R8::A ==> #[trigger] t.regs.reg(r) == s.regs.reg(r)
            &&& t.regs.sp == s.regs.sp
            &&& t.mem == s.mem
            &&& t.pc == add16(s.pc as int, 1)
        }),
{
    let a = s.regs.reg(R8::A);
    assert(((255 - a) as u8) == !a && (!a) ^ a == 0xFF) by (bit_vector);
}

/// DAA after a binary addition of the BCD bytes `x` and `y` (A, H and C as the
/// addition leaves them) puts the decimal sum modulo 100 in A, in BCD; C is raised
/// exactly when the decimal sum reaches 100, Z tells whether A is zero, H is cleared.
pub proof fn lemma_daa_after_bcd_add(s: CpuView, x: u8, y: u8)
    requires
        s.regs.r8.len() == 8,
        is_bcd(x),
        is_bcd(y),
        s.regs.reg(R8::A) == ((x + y) % 256) as u8,
        !s.regs.f.subtract,
        s.regs.f.half_carry == (x % 16 + y % 16 > 15),
        s.regs.f.carry == (x + y > 255),
    ensures
        ({
            let t = after_instruction(s, 0x27);
            let r = t.regs.reg(R8::A);
            &&& is_bcd(r)
            &&& bcd_value(r) == (bcd_value(x) + bcd_value(y)) % 100
            &&& t.regs.f.carry == (bcd_value(x) + bcd_value(y) >= 100)
            &&& t.regs.f.zero == (r == 0)
            &&& !t.regs.f.half_carry
            &&& !t.regs.f.subtract
        }),
{
    lemma_daa_after_add(x, y);
    crate::bits::lemma_low_nibble(x);
    crate::bits::lemma_low_nibble(y);
}

/// DAA after a binary subtraction of the BCD byte `y` from the BCD byte `x` (A, N, H
/// and C as the subtraction leaves them) puts the decimal difference modulo 100 in
/// A, in BCD; C stays raised exactly when the subtraction borrowed.
pub proof fn lemma_daa_after_bcd_sub(s: CpuView, x: u8, y: u8)
    requires
        s.regs.r8.len() == 8,
        is_bcd(x),
        is_bcd(y),
        s.regs.reg(R8::A) == ((x - y) % 256) as u8,
        s.regs.f.subtract,
        s.regs.f.half_carry == (x % 16 < y % 16),
        s.regs.f.carry == (x < y),
    ensures
        ({
            let t = after_instruction(s, 0x27);
            let r = t.regs.reg(R8::A);
            &&& is_bcd(r)
            &&& bcd_value(r) == (bcd_value(x) - bcd_value(y)) % 100
            &&& t.regs.f.carry == (bcd_value(x) < bcd_value(y))
            &&& t.regs.f.zero == (r == 0)
            &&& !t.regs.f.half_carry
            &&& t.regs.f.subtract
        }),
{
    lemma_daa_after_sub(x, y);
}

impl Cpu {
    /// A CPU on `bus`: PC at 0, registers as the boot program leaves them, interrupts
    /// off, not halted.
    pub fn new(bus: Mmu) -> (r: Self)
        ensures
            r.bus == bus,
            r.pc == 0,
            r.registers@.r8 == seq![0x00u8, 0x13, 0x00, 0xD8, 0x01, 0x4D, 0x01, 0x01],
            r.registers.sp == 0xFFFE,
            r.registers.f == crate::cpu::flags_registers::FlagsRegister::new_spec(),
            !r.ime,
            !r.ime_delay,
            !r.halted,
            !r.halt_bug,
            r.tick_to_wait == 0,
    {
        Cpu {
            pc: 0x0000,
            bus,
            registers: Registers::default(),
            ime: false,
            ime_delay: false,
            halted: false,
            halt_bug: false,
            tick_to_wait: 0,
        }
    }

    /// The 8-bit operand `register`; `(HL)` reads memory.
    pub fn get_r8_value(&self, register: R8) -> (r: u8)
        ensures
            r == self@.r8(register),
    {
        match register {
            R8::HLIndirect => {
                let addr = self.registers.get_r16_value(R16::HL);
                self.bus.read_byte(addr)
            },
            _ => self.registers.get_r8_value(register),
        }
    }

    /// Stores `value` in the 8-bit operand `register`; `(HL)` writes memory.
    pub fn set_r8_value(&mut self, register: R8, value: u8)
        ensures
            final(self)@ == old(self)@.set_r8(register, value),
    {
        match register {
            R8::HLIndirect => {
                let addr = self.registers.get_r16_value(R16::HL);
                self.bus.write_byte(addr, value);
            },
            _ => self.registers.set_r8_value(register, value),
        }
    }

    /// Runs `instruction` and returns its machine cycles.
    pub fn execute_instruction(&mut self, instruction: u8) -> (r: u8)
        requires
            instruction_runs(old(self)@, instruction),
        ensures
            final(self)@ == after_instruction(old(self)@, instruction),
            r == instruction_cycles(old(self)@, instruction),
    {
        let block = (instruction & BLOCK_MASK) >> 6;
        proof {
            crate::bits::lemma_byte_fields(instruction);
        }
        if block == 0b00 {
            execute_instruction_block0(self, instruction)
        } else {
            execute_instruction_block1(self, instruction)
        }
    }

    /// One machine cycle: counts down the cycles left of the current instruction, and
    /// when none are left runs a step and keeps its cycle count.
    pub fn tick(&mut self)
        requires
            old(self).tick_to_wait == 0 ==> step_runs_with(old(self)@, step_opcode(old(self)@)),
        ensures
            old(self).tick_to_wait > 0 ==> final(self)@ == (CpuView { tick_to_wait: (old(self).tick_to_wait - 1) as u8, ..old(self)@ }),
            old(self).tick_to_wait == 0 ==> final(self)@ == (CpuView {
                tick_to_wait: after_step_with(old(self)@, step_opcode(old(self)@)).1,
                ..after_step_with(old(self)@, step_opcode(old(self)@)).0
            }),
    {
        if self.tick_to_wait > 0 {
            self.tick_to_wait = self.tick_to_wait - 1;
        } else {
            self.tick_to_wait = self.step();
        }
    }

    /// One instruction, or the halt or interrupt work that stands in its place; returns
    /// the machine cycles spent.
    pub fn step(&mut self) -> (r: u8)
        requires
            step_runs_with(old(self)@, step_opcode(old(self)@)),
        ensures
            (final(self)@, r) == after_step_with(old(self)@, step_opcode(old(self)@)),
    {
        if self.handle_halt_state() == StepStatus::Halted {
            return 4;
        }
        if self.handle_ime_state() == StepStatus::Halted {
            return 20;
        }
        let instruction_byte = self.bus.read_byte(self.pc);
        let tick_to_wait = self.execute_instruction(instruction_byte);
        self.handle_halt_bug();
        self.handle_ime_delay();
        tick_to_wait
    }

    /// A step that runs `instruction` in place of the byte at PC.
    pub fn debug_step(&mut self, instruction: u8) -> (r: u8)
        requires
            step_runs_with(old(self)@, instruction),
        ensures
            (final(self)@, r) == after_step_with(old(self)@, instruction),
    {
        if self.handle_halt_state() == StepStatus::Halted {
            return 4;
        }
        if self.handle_ime_state() == StepStatus::Halted {
            return 20;
        }
        let tick_to_wait = self.execute_instruction(instruction);
        self.handle_halt_bug();
        self.handle_ime_delay();
        tick_to_wait
    }

    fn handle_halt_state(&mut self) -> (r: StepStatus)
        ensures
            (final(self)@, r) == after_halt_state(old(self)@),
    {
        if self.halted {
            let iflag = self.bus.read_interrupt_flag();
            let ienable = self.bus.read_interrupt_enable();
            if ienable & iflag == 0 {
                return StepStatus::Halted;
            }
            self.halted = false;
            if !self.ime {
                self.halt_bug = true;
            }
        }
        StepStatus::Continue
    }

    fn handle_ime_state(&mut self) -> (r: StepStatus)
        ensures
            (final(self)@, r) == after_ime_state(old(self)@),
    {
        if self.ime {
            if let Some(interrupt) = self.bus.interrupts_next_request() {
                self.ime = false;
                self.bus.interrupts_clear_request(interrupt);
                let ret_addr = self.pc;
                let sp1 = self.registers.get_sp().wrapping_sub(1);
                self.registers.set_sp(sp1);
                proof {
                    crate::bits::lemma_word_parts(ret_addr);
                }
                self.bus.write_byte(sp1, (ret_addr >> 8) as u8);
                let sp2 = sp1.wrapping_sub(1);
                self.registers.set_sp(sp2);
                self.bus.write_byte(sp2, (ret_addr & 0xFF) as u8);
                self.pc = interrupt.vector();
                StepStatus::Halted
            } else {
                StepStatus::Continue
            }
        } else {
            StepStatus::Continue
        }
    }

    fn handle_halt_bug(&mut self)
        ensures
            final(self)@ == after_halt_bug(old(self)@),
    {
        if self.halt_bug {
            self.pc = self.pc.wrapping_sub(1);
            self.halt_bug = false;
        }
    }

    fn handle_ime_delay(&mut self)
        ensures
            final(self)@ == after_ime_delay(old(self)@),
    {
        if self.ime_delay {
            self.ime = true;
            self.ime_delay = false;
        }
    }
}

impl Default for Cpu {
    /// A CPU on an all-zero bus.
    fn default() -> (r: Self)
        ensures
            r.bus.memory@ == Seq::new(65536, |i: int| 0u8),
            r.pc == 0,
            r.registers@.r8 == seq![0x00u8, 0x13, 0x00, 0xD8, 0x01, 0x4D, 0x01, 0x01],
            r.registers.sp == 0xFFFE,
            r.registers.f == crate::cpu::flags_registers::FlagsRegister::new_spec(),
            !r.ime,
            !r.ime_delay,
            !r.halted,
            !r.halt_bug,
            r.tick_to_wait == 0,
    {
        Cpu::new(Mmu::new())
    }
}

} // verus!
