//! A virtual-machine core for a small 8-bit microcontroller instruction set:
//! memory, register file, instruction decoder, execution engine and display
//! surface, each with a machine-checked contract.
//!
//! [`Chip8`] is the whole machine. A driver loads a program into it with
//! [`Chip8::load_rom`] and then calls [`Chip8::run_instruction`] for as
//! long as it sees fit; every call runs exactly one cycle or reports why it
//! could not, and a cycle that fails leaves the machine untouched.

pub mod chip8;
pub mod cpu;
pub mod display;
pub mod error;
pub mod instruction;
pub mod laws;
pub mod model;
pub mod ram;

pub use crate::chip8::Chip8;
pub use crate::cpu::Cpu;
pub use crate::cpu::CpuSnapshot;
pub use crate::display::Display;
pub use crate::error::Error;
pub use crate::instruction::Instruction;
pub use crate::ram::Ram;
