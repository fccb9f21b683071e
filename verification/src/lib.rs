//! A CHIP-8 virtual machine: processor state, instruction semantics and the
//! decisions of the emulation loop, with their contracts.

pub mod cpu;
mod draw;
pub mod execute;
pub mod font;
pub mod instruction;
pub mod laws;
pub mod opcode_laws;
mod random;
pub mod screen;
pub mod semantics;

pub use cpu::CPU;
