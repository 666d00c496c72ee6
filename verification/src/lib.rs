//! A CHIP-8 virtual machine: memory, registers, call stack, timers, keypad,
//! framebuffer, instruction decoding and execution, and frame pacing.
//!
//! Every executable function carries a contract over a mathematical model of
//! the machine and is proved against it.

pub mod display;
pub mod error;
pub mod instruction;
pub mod keypad;
pub mod laws;
pub mod machine;
pub mod memory;
mod random;
pub mod scheduler;
pub mod stack;
pub mod state;
pub mod timers;
