use vstd::prelude::*;

verus! {

/// Index of each 16-bit pair; pair `j` is made of the slots `2 * j` (high) and `2 * j + 1` (low).
pub const AF: usize = 0;
pub const BC: usize = 1;
pub const DE: usize = 2;
pub const HL: usize = 3;
pub const SP: usize = 4;
pub const PC: usize = 5;
pub const WZ: usize = 6;

} // verus!
