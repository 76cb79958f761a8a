pub mod accumulator;
pub mod cb_operations;
pub mod control_properties;
pub mod defines;
pub mod flags;
pub mod implemenation;
pub mod instructions;
pub mod operations;

pub use defines::Cpu;
pub mod properties;
