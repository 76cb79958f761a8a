pub mod bits;
pub mod cli;
pub mod communications;
pub mod cpu;
pub mod cpu_def;
pub mod cpu2;
pub mod file;
pub mod mmu;
