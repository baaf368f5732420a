//! The ways in which loading a program or running a cycle can fail.

use vstd::prelude::*;

verus! {

/// A fatal condition. Every one aborts the operation that met it and leaves
/// the machine exactly as it was before that operation began.
#[derive(Debug, Clone, Copy, PartialEq, Eq, Structural)]
pub enum Error {
    /// An address lies outside the memory's capacity.
    OutOfBounds,
    /// The instruction word is not one the engine implements.
    UnknownInstruction {
        /// The program counter at which the word was fetched.
        pc: u16,
        /// The raw 16-bit instruction word.
        opcode: u16,
    },
    /// The program counter did not move during the previous cycle.
    ProgramCounterStalled,
    /// A call was made with the call stack already full.
    StackOverflow,
    /// The program does not fit between the origin and the end of memory.
    ProgramTooLarge,
}

} // verus!
