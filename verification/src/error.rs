//! The ways in which the machine can fail.

use vstd::prelude::*;

verus! {

/// Why an operation of the machine was refused.
#[derive(Clone, Copy, Debug, PartialEq, Eq, Structural)]
pub enum Chip8Error {
    /// A memory access fell outside the range it may touch, a font lookup
    /// named a digit above `0xF`, or a program image did not fit.
    OutOfBounds,
    /// A call was made with sixteen return addresses already on the stack.
    StackOverflow,
    /// A return was made with no return address on the stack.
    StackUnderflow,
    /// The fetched word matches no instruction.
    UnsupportedOpcode,
}

/// A fatal error of one cycle, with the place where it happened.
#[derive(Clone, Copy, Debug, PartialEq, Eq)]
pub struct Fault {
    /// What went wrong.
    pub error: Chip8Error,
    /// The program counter at the start of the failing cycle.
    pub address: u16,
    /// The instruction word that was fetched, or `None` where the fetch
    /// itself failed.
    pub opcode: Option<u16>,
}

} // verus!
