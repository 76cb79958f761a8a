#[allow(non_upper_case_globals)]
pub mod r8;
pub mod r16;

use vstd::prelude::*;

verus! {

/// One of the four condition flags kept in the upper nibble of the flags byte.
#[derive(Debug, Clone, Copy, PartialEq, Eq, Structural)]
pub enum Flag {
    Zero,
    Subtract,
    HalfCarry,
    Carry,
}

/// The bit of the flags byte that holds a flag: Z is bit 7, N bit 6, H bit 5, C bit 4.
pub open spec fn flag_mask(f: Flag) -> u8 {
    match f {
        Flag::Zero => 0x80u8,
        Flag::Subtract => 0x40u8,
        Flag::HalfCarry => 0x20u8,
        Flag::Carry => 0x10u8,
    }
}

/// Whether `f` is raised in the flags byte `flags`.
pub open spec fn has_flag(flags: u8, f: Flag) -> bool {
    flags & flag_mask(f) != 0
}

/// The flags byte `flags` with `f` raised (`value`) or cleared, every other bit kept.
pub open spec fn with_flag(flags: u8, f: Flag, value: bool) -> u8 {
    if value {
        flags | flag_mask(f)
    } else {
        flags & !flag_mask(f)
    }
}

/// The flags byte after Z, N, H and C are set, in this order, to `z`, `n`, `h`, `c`.
pub open spec fn with_znhc(flags: u8, z: bool, n: bool, h: bool, c: bool) -> u8 {
    with_flag(with_flag(with_flag(with_flag(flags, Flag::Zero, z), Flag::Subtract, n), Flag::HalfCarry, h), Flag::Carry, c)
}

/// The flags byte after N, H and C are set, Z kept.
pub open spec fn with_nhc(flags: u8, n: bool, h: bool, c: bool) -> u8 {
    with_flag(with_flag(with_flag(flags, Flag::Subtract, n), Flag::HalfCarry, h), Flag::Carry, c)
}

/// Up to four bytes gathered little-endian in a 32-bit word; `pos` counts the bytes taken.
pub struct Accumulator {
    pub value: u32,
    pub pos: u8,
}

/// Which flag test a conditional instruction makes.
#[derive(Debug, Clone, Copy, PartialEq, Eq, Structural)]
pub enum CondKind {
    NZ,
    Z,
    NC,
    C,
}

/// Whether the condition `k` holds for the flags byte `flags`.
pub open spec fn cond_holds(k: CondKind, flags: u8) -> bool {
    match k {
        CondKind::NZ => !has_flag(flags, Flag::Zero),
        CondKind::Z => has_flag(flags, Flag::Zero),
        CondKind::NC => !has_flag(flags, Flag::Carry),
        CondKind::C => has_flag(flags, Flag::Carry),
    }
}

/// One machine cycle of work. Register operands are slots of `Cpu::r8` (8-bit)
/// or pair indices (16-bit), given in the order of the operation's type parameters.
#[derive(Debug, Clone, Copy, PartialEq, Eq, Structural)]
pub enum MicroOp {
    Noop,
    Halt,
    DecrementR16(usize),
    SetIme0,
    SetIme1,
    Cpl,
    Scf,
    Ccf,
    Daa,
    Rlca,
    Rrca,
    Rla,
    Rra,
    Rlc(usize),
    Rrc(usize),
    Rl(usize),
    Rr(usize),
    Sla(usize),
    Sra(usize),
    Swap(usize),
    Srl(usize),
    TestBit(u8, usize),
    ResBit(u8, usize),
    SetBit(u8, usize),
    WriteRlcMem(usize, usize),
    WriteRrcMem(usize, usize),
    WriteRlMem(usize, usize),
    WriteRrMem(usize, usize),
    WriteSlaMem(usize, usize),
    WriteSraMem(usize, usize),
    WriteSwapMem(usize, usize),
    WriteSrlMem(usize, usize),
    WriteResMem(u8, usize, usize),
    WriteSetMem(u8, usize, usize),
    AddR8R8(usize, usize),
    AddR8R8WithCarry(usize, usize),
    AddR8R8NoZeroFlag(usize, usize),
    AddR8R8WithCarryAndNoZeroFlag(usize, usize),
    AddHlSpELow,
    AddHlSpEHigh,
    AndR8R8(usize, usize),
    OrR8R8(usize, usize),
    XorR8R8(usize, usize),
    CheckCond(CondKind),
    RelativeJump,
    CpR8R8(usize, usize),
    IncR8(usize),
    IncAddr(usize, usize),
    DecR8(usize),
    DecAddr(usize, usize),
    IncR16(usize),
    DecR16(usize),
    LoadR8R8(usize, usize),
    ReadMemory(usize, usize),
    ReadMemory0xff(usize, usize),
    WriteMemory0xff(usize, usize),
    WriteMemory(usize, usize),
    LoadR16R16(usize, usize),
    LoadR16R16AndIme(usize, usize),
    ReadMemoryDecr(usize, usize),
    WriteMemoryDecr(usize, usize),
    ReadMemoryIncr(usize, usize),
    WriteMemoryIncr(usize, usize),
    LdHlSpELow,
    LdHlSpEHigh,
    WriteMemoryReassignPc(usize, usize),
    WriteMemoryRst(u16, usize, usize),
    SubR8R8(usize, usize),
    SubR8R8WithCarry(usize, usize),
    DecodeCb,
}

/// An opcode and the cycles that carry it out.
pub struct Instruction {
    pub opcode: u16,
    pub micro_ops: Vec<MicroOp>,
}

/// Flags byte.
pub type Flags = u8;

/// The eight registers of the register file, in storage order.
#[derive(Debug, Clone, Copy, PartialEq, Eq, Structural)]
pub enum R8 {
    A,
    B,
    C,
    D,
    E,
    F,
    H,
    L,
}

impl R8 {
    pub open spec fn spec_index(self) -> int {
        match self {
            R8::A => 0,
            R8::B => 1,
            R8::C => 2,
            R8::D => 3,
            R8::E => 4,
            R8::F => 5,
            R8::H => 6,
            R8::L => 7,
        }
    }

    /// Storage slot of the register.
    pub fn index(self) -> (r: usize)
        ensures
            r == self.spec_index(),
    {
        match self {
            R8::A => 0,
            R8::B => 1,
            R8::C => 2,
            R8::D => 3,
            R8::E => 4,
            R8::F => 5,
            R8::H => 6,
            R8::L => 7,
        }
    }
}

/// The register pairs of the register file and the stack pointer.
#[derive(Debug, Clone, Copy, PartialEq, Eq, Structural)]
pub enum R16 {
    AF,
    BC,
    DE,
    HL,
    SP,
}

/// A register file: eight 8-bit registers, the stack pointer and the flags byte.
pub struct Registers {
    pub r8: [u8; 8],
    pub sp: u16,
    pub flags: Flags,
}

/// A machine made of a register file, a byte accumulator for operands and a memory.
pub struct AccCpu {
    pub registers: Registers,
    pub accumulator: Accumulator,
    pub bus: [u8; 65536],
}

/// Mathematical picture of an `AccCpu`.
pub struct AccState {
    pub r8: Seq<u8>,
    pub sp: u16,
    pub flags: u8,
    pub acc_value: u32,
    pub acc_pos: u8,
    pub bus: Seq<u8>,
}

impl View for AccCpu {
    type V = AccState;

    open spec fn view(&self) -> AccState {
        AccState {
            r8: self.registers.r8@,
            sp: self.registers.sp,
            flags: self.registers.flags,
            acc_value: self.accumulator.value,
            acc_pos: self.accumulator.pos,
            bus: self.bus@,
        }
    }
}

impl AccState {
    pub open spec fn reg(self, r: R8) -> u8 {
        self.r8[r.spec_index()]
    }

    pub open spec fn set_reg(self, r: R8, v: u8) -> AccState {
        AccState { r8: self.r8.update(r.spec_index(), v), ..self }
    }

    /// The value of a pair: high register first; SP is its own field.
    pub open spec fn pair(self, r: R16) -> u16 {
        match r {
            R16::AF => word(self.reg(R8::A), self.reg(R8::F)),
            R16::BC => word(self.reg(R8::B), self.reg(R8::C)),
            R16::DE => word(self.reg(R8::D), self.reg(R8::E)),
            R16::HL => word(self.reg(R8::H), self.reg(R8::L)),
            R16::SP => self.sp,
        }
    }

    pub open spec fn set_pair(self, r: R16, v: u16) -> AccState {
        match r {
            R16::AF => self.set_reg(R8::A, hi_byte(v)).set_reg(R8::F, lo_byte(v)),
            R16::BC => self.set_reg(R8::B, hi_byte(v)).set_reg(R8::C, lo_byte(v)),
            R16::DE => self.set_reg(R8::D, hi_byte(v)).set_reg(R8::E, lo_byte(v)),
            R16::HL => self.set_reg(R8::H, hi_byte(v)).set_reg(R8::L, lo_byte(v)),
            R16::SP => AccState { sp: v, ..self },
        }
    }

    pub open spec fn set_mem(self, addr: u16, v: u8) -> AccState {
        AccState { bus: self.bus.update(addr as int, v), ..self }
    }

    pub open spec fn set_flags(self, f: u8) -> AccState {
        AccState { flags: f, ..self }
    }

    pub open spec fn set_acc(self, value: u32, pos: u8) -> AccState {
        AccState { acc_value: value, acc_pos: pos, ..self }
    }
}

/// The micro-op machine: the cycles of the current instruction, the register
/// file (A, B, C, D, E, F, H, L, S, P, PC high, PC low, W, Z), the flags, the
/// program the opcodes are fetched from, the next cycle and the memory.
pub struct Cpu {
    pub queue: Vec<MicroOp>,
    pub r8: [u8; 14],
    pub flags: Flags,
    pub instructions_list: Vec<u8>,
    pub op_index: usize,
    pub bus: [u8; 65536],
}

/// Mathematical picture of a `Cpu`.
pub struct CpuState {
    pub queue: Seq<MicroOp>,
    pub r8: Seq<u8>,
    pub flags: u8,
    pub instructions_list: Seq<u8>,
    pub op_index: int,
    pub bus: Seq<u8>,
}

impl View for Cpu {
    type V = CpuState;

    open spec fn view(&self) -> CpuState {
        CpuState {
            queue: self.queue@,
            r8: self.r8@,
            flags: self.flags,
            instructions_list: self.instructions_list@,
            op_index: self.op_index as int,
            bus: self.bus@,
        }
    }
}

/// The 16-bit value whose high byte is `hi` and low byte `lo`.
pub open spec fn word(hi: u8, lo: u8) -> u16 {
    (hi as int * 256 + lo as int) as u16
}

/// High byte of a 16-bit value.
pub open spec fn hi_byte(v: u16) -> u8 {
    (v as int / 256) as u8
}

/// Low byte of a 16-bit value.
pub open spec fn lo_byte(v: u16) -> u8 {
    (v as int % 256) as u8
}

/// `a + b` modulo 256.
pub open spec fn add8(a: int, b: int) -> u8 {
    ((a + b) % 256) as u8
}

/// `a - b` modulo 256.
pub open spec fn sub8(a: int, b: int) -> u8 {
    ((a - b) % 256) as u8
}

/// `a + b` modulo 65536.
pub open spec fn add16(a: int, b: int) -> u16 {
    ((a + b) % 65536) as u16
}

/// `a - b` modulo 65536.
pub open spec fn sub16(a: int, b: int) -> u16 {
    ((a - b) % 65536) as u16
}

impl CpuState {
    /// Register slots and pairs exist, and the memory covers the 16-bit address space.
    pub open spec fn wf(self) -> bool {
        &&& self.r8.len() == 14
        &&& self.bus.len() == 65536
    }

    pub open spec fn reg(self, i: int) -> u8 {
        self.r8[i]
    }

    pub open spec fn set_reg(self, i: int, v: u8) -> CpuState {
        CpuState { r8: self.r8.update(i, v), ..self }
    }

    /// The 16-bit pair `j`: slot `2j` is its high byte, slot `2j + 1` its low byte.
    pub open spec fn pair(self, j: int) -> u16 {
        word(self.r8[2 * j], self.r8[2 * j + 1])
    }

    pub open spec fn set_pair(self, j: int, v: u16) -> CpuState {
        self.set_reg(2 * j, hi_byte(v)).set_reg(2 * j + 1, lo_byte(v))
    }

    pub open spec fn mem(self, addr: u16) -> u8 {
        self.bus[addr as int]
    }

    pub open spec fn set_mem(self, addr: u16, v: u8) -> CpuState {
        CpuState { bus: self.bus.update(addr as int, v), ..self }
    }

    pub open spec fn set_flags(self, f: u8) -> CpuState {
        CpuState { flags: f, ..self }
    }

    pub open spec fn has(self, f: Flag) -> bool {
        has_flag(self.flags, f)
    }

    pub open spec fn set_op_index(self, i: int) -> CpuState {
        CpuState { op_index: i, ..self }
    }

    pub open spec fn set_queue(self, q: Seq<MicroOp>) -> CpuState {
        CpuState { queue: q, ..self }
    }
}

} // verus!
