use vstd::prelude::*;

pub use crate::cpu2::defines::{r16, r8, CondKind, Flag, Flags};
use crate::cpu2::defines::{has_flag, hi_byte, lo_byte, word};
use crate::mmu::Mmu;

verus! {

/// One machine cycle of work of the micro-op machine. Register operands are slots
/// of `Cpu::r8` (8-bit) or pair indices (16-bit), in the order of the operation's
/// type parameters.
#[derive(Debug, Clone, Copy, PartialEq, Eq, Structural)]
pub enum MicroOp {
    Noop,
    Halt,
    DecrementR16(usize),
    SetIme0,
    SetImeDelay1,
    SetIme1,
    Cpl,
    Scf,
    Ccf,
    Daa,
    Rlca,
    Rrca,
    Rla,
    Rra,
    Rlc(usize),
    Rrc(usize),
    Rl(usize),
    Rr(usize),
    Sla(usize),
    Sra(usize),
    Swap(usize),
    Srl(usize),
    TestBit(u8, usize),
    ResBit(u8, usize),
    SetBit(u8, usize),
    WriteRlcMem(usize, usize),
    WriteRrcMem(usize, usize),
    WriteRlMem(usize, usize),
    WriteRrMem(usize, usize),
    WriteSlaMem(usize, usize),
    WriteSraMem(usize, usize),
    WriteSwapMem(usize, usize),
    WriteSrlMem(usize, usize),
    WriteResMem(u8, usize, usize),
    WriteSetMem(u8, usize, usize),
    AddR8R8(usize, usize),
    AddR8R8WithCarry(usize, usize),
    AddR8R8NoZeroFlag(usize, usize),
    AddR8R8WithCarryAndNoZeroFlag(usize, usize),
    AddHlSpELow,
    AddHlSpEHigh,
    AndR8R8(usize, usize),
    OrR8R8(usize, usize),
    XorR8R8(usize, usize),
    ReadMemoryIncrCheck(usize, usize, CondKind),
    CheckCond(CondKind),
    CheckCondAndExecute(CondKind),
    RelativeJump,
    CpR8R8(usize, usize),
    IncR8(usize),
    IncAddr(usize, usize),
    DecR8(usize),
    DecAddr(usize, usize),
    IncR16(usize),
    DecR16(usize),
    LoadR8R8(usize, usize),
    ReadMemory(usize, usize),
    ReadMemory0xff(usize, usize),
    WriteMemory0xff(usize, usize),
    WriteMemory(usize, usize),
    LoadR16R16(usize, usize),
    LoadR16R16AndIme(usize, usize),
    LoadR16R16AfFlags(usize, usize),
    ReadMemoryDecr(usize, usize),
    WriteMemoryDecr(usize, usize),
    ReadMemoryIncr(usize, usize),
    WriteMemoryIncr(usize, usize),
    LdHlSpELow,
    LdHlSpEHigh,
    WriteMemoryReassignPc(usize, usize),
    WriteMemoryRst(u16, usize, usize),
    SubR8R8(usize, usize),
    SubR8R8WithCarry(usize, usize),
    DecodeCb,
    Stop,
}

/// An opcode, its mnemonic and the cycles that carry it out.
pub struct Instruction {
    pub name: String,
    pub opcode: u8,
    pub micro_ops: Vec<MicroOp>,
}

/// The micro-op machine: up to eight cycles queued for the current instruction, the
/// register file (A, B, C, D, E, F, H, L, S, P, PC high, PC low, W, Z), the two
/// opcode tables, the flags, the next cycle, and the interrupt, HALT and STOP state.
/// The memory it works on is handed to each operation.
pub struct Cpu {
    pub queue: [MicroOp; 8],
    pub r8: [u8; 14],
    pub queue_len: usize,
    pub instructions: Vec<Instruction>,
    pub cb_instructions: Vec<Instruction>,
    pub flags: Flags,
    pub op_index: usize,
    pub ime: bool,
    /// EI takes effect one instruction late.
    pub ime_delay: bool,
    pub halted: bool,
    pub halt_bug: bool,
    pub stopped: bool,
    pub stopped_for: usize,
    pub is_in_fast_mode: bool,
}

/// Mathematical picture of the machine together with the memory it works on.
pub struct MicroState {
    pub queue: Seq<MicroOp>,
    pub queue_len: int,
    pub r8: Seq<u8>,
    pub flags: u8,
    pub op_index: int,
    pub ime: bool,
    pub ime_delay: bool,
    pub halted: bool,
    pub halt_bug: bool,
    pub stopped: bool,
    pub stopped_for: int,
    pub is_in_fast_mode: bool,
    pub instructions: Seq<Instruction>,
    pub cb_instructions: Seq<Instruction>,
    pub mem: Seq<u8>,
}

/// The state of `cpu` working on the memory of `bus`: the queue is its first
/// `queue_len` entries.
pub open spec fn micro(cpu: Cpu, bus: Mmu) -> MicroState {
    MicroState {
        queue: cpu.queue@.take(cpu.queue_len as int),
        queue_len: cpu.queue_len as int,
        r8: cpu.r8@,
        flags: cpu.flags,
        op_index: cpu.op_index as int,
        ime: cpu.ime,
        ime_delay: cpu.ime_delay,
        halted: cpu.halted,
        halt_bug: cpu.halt_bug,
        stopped: cpu.stopped,
        stopped_for: cpu.stopped_for as int,
        is_in_fast_mode: cpu.is_in_fast_mode,
        instructions: cpu.instructions@,
        cb_instructions: cpu.cb_instructions@,
        mem: bus.memory@,
    }
}

/// The high and low slots of pair `j`: AF is A and F, BC, DE, HL, SP, PC and WZ
/// are neighbouring slots.
pub open spec fn pair_slots(j: int) -> (int, int) {
    if j == 0 {
        (0, 5)
    } else if j == 1 {
        (1, 2)
    } else if j == 2 {
        (3, 4)
    } else if j == 3 {
        (6, 7)
    } else if j == 4 {
        (8, 9)
    } else if j == 5 {
        (10, 11)
    } else {
        (12, 13)
    }
}

impl MicroState {
    /// Fourteen register slots and a 64 KiB memory.
    pub open spec fn wf(self) -> bool {
        &&& self.r8.len() == 14
        &&& self.mem.len() == 65536
    }

    pub open spec fn reg(self, i: int) -> u8 {
        self.r8[i]
    }

    /// The byte that slot `i` stores to memory: F, whose flags live apart from the
    /// register file, stores the flags byte.
    pub open spec fn stored_byte(self, i: int) -> u8 {
        if i == r8::F as int {
            self.flags
        } else {
            self.r8[i]
        }
    }

    pub open spec fn set_reg(self, i: int, v: u8) -> MicroState {
        MicroState { r8: self.r8.update(i, v), ..self }
    }

    /// The 16-bit pair `j`, high slot first.
    pub open spec fn pair(self, j: int) -> u16 {
        word(self.r8[pair_slots(j).0], self.r8[pair_slots(j).1])
    }

    pub open spec fn set_pair(self, j: int, v: u16) -> MicroState {
        self.set_reg(pair_slots(j).0, hi_byte(v)).set_reg(pair_slots(j).1, lo_byte(v))
    }

    pub open spec fn mem(self, addr: u16) -> u8 {
        self.mem[addr as int]
    }

    pub open spec fn set_mem(self, addr: u16, v: u8) -> MicroState {
        MicroState { mem: self.mem.update(addr as int, v), ..self }
    }

    pub open spec fn set_flags(self, f: u8) -> MicroState {
        MicroState { flags: f, ..self }
    }

    pub open spec fn has(self, f: Flag) -> bool {
        has_flag(self.flags, f)
    }

    pub open spec fn set_op_index(self, i: int) -> MicroState {
        MicroState { op_index: i, ..self }
    }

    pub open spec fn set_queue(self, q: Seq<MicroOp>) -> MicroState {
        MicroState { queue: q, queue_len: q.len() as int, ..self }
    }
}

/// Reading back a pair just written gives the value written, and writing a pair
/// leaves every other pair and every slot outside it unchanged.
pub proof fn lemma_pair_set_get(s: MicroState, j: int, k: int, v: u16)
    requires
        s.wf(),
        0 <= j < 7,
        0 <= k < 7,
    ensures
        s.set_pair(j, v).pair(j) == v,
        k != j ==> s.set_pair(j, v).pair(k) == s.pair(k),
        forall|i: int|
            0 <= i < 14 && i != pair_slots(j).0 && i != pair_slots(j).1 ==> #[trigger] s.set_pair(j, v).reg(i) == s.reg(i),
{
}

} // verus!
