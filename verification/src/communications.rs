use vstd::prelude::*;

verus! {

/// Number of pixels of a frame: 160 by 144.
pub const FRAME_SIZE: usize = 23040;

/// Number of bytes of a frame in RGB: three per pixel.
pub const FRAME_SIZE_IN_U8: usize = 69120;

/// The addresses of the next instructions, as the debugger shows them.
pub struct InstructionList(pub Vec<u16>);

impl Default for InstructionList {
    fn default() -> (r: Self)
        ensures
            r.0@ == Seq::<u16>::empty(),
    {
        InstructionList(Vec::new())
    }
}

/// The registers the debugger shows.
#[derive(Clone, Copy, Debug, PartialEq, Eq, Structural)]
pub struct CpuState {
    pub a: u8,
    pub b: u8,
    pub c: u8,
    pub d: u8,
    pub e: u8,
    pub h: u8,
    pub l: u8,
    pub hl: u16,
    pub sp: u16,
    pub pc: u16,
}

impl Default for CpuState {
    fn default() -> (r: Self)
        ensures
            r == (CpuState { a: 0, b: 0, c: 0, d: 0, e: 0, h: 0, l: 0, hl: 0, sp: 0, pc: 0 }),
    {
        CpuState { a: 0, b: 0, c: 0, d: 0, e: 0, h: 0, l: 0, hl: 0, sp: 0, pc: 0 }
    }
}

/// Addresses under watch, each with the byte last seen there.
pub struct WatchedAdresses(pub Vec<(u16, u8)>);

impl Default for WatchedAdresses {
    fn default() -> (r: Self)
        ensures
            r.0@ == Seq::<(u16, u8)>::empty(),
    {
        WatchedAdresses(Vec::new())
    }
}

/// How the emulator runs.
#[derive(Clone, Copy, Debug, PartialEq, Eq, Structural)]
pub enum Mode {
    Game,
    Debug,
    Stop,
}

/// What the interface asks of the emulation.
pub enum Request {
    Mode(Mode),
    Fps(bool),
    Execute(Vec<u8>),
    RenderFrame(u16),
    Watch(u16),
    Step(usize),
    SetInstructionListLength(u8),
}

} // verus!
