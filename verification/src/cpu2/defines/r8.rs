use vstd::prelude::*;

verus! {

/// Slot of each 8-bit register in `Cpu::r8`.
pub const A: usize = 0;
pub const B: usize = 1;
pub const C: usize = 2;
pub const D: usize = 3;
pub const E: usize = 4;
pub const F: usize = 5;
pub const H: usize = 6;
pub const L: usize = 7;
pub const S: usize = 8;
pub const P: usize = 9;
/// High byte of the program counter.
pub const PcC: usize = 10;
/// Low byte of the program counter.
pub const PcP: usize = 11;
pub const W: usize = 12;
pub const Z: usize = 13;

} // verus!
