//! The mathematical model of the machine: its state as plain values, and
//! what one instruction and one cycle make of it.

use vstd::prelude::*;
use crate::display::{blank_screen, collides, drawn, PIXEL_COUNT};
use crate::error::{Chip8Error, Fault};
use crate::instruction::{decoded, Instruction};
use crate::keypad::KeypadState;
use crate::memory::{
    blank_memory, memory_wf, overlaid, writable_range, GLYPH_ROWS, MEMORY_SIZE,
};
use crate::stack::STACK_DEPTH;
use crate::timers::ticked;

verus! {

/// Number of general registers, `V0` to `VF`.
pub const REGISTER_COUNT: usize = 16;

/// The register that instructions use as a flag.
pub const FLAG: u8 = 0xF;

/// The highest address at which an instruction can be fetched: its two
/// bytes must both lie in the address space.
pub const LAST_FETCH: u16 = 0xFFE;

/// The state of the machine.
pub struct MachineState {
    /// The 4096 bytes of memory.
    pub memory: Seq<u8>,
    /// The sixteen general registers.
    pub registers: Seq<u8>,
    /// The index register `I`.
    pub index: u16,
    /// The program counter.
    pub pc: u16,
    /// The return addresses on the stack, the oldest first.
    pub stack: Seq<u16>,
    /// The delay timer.
    pub delay_timer: u8,
    /// The sound timer.
    pub sound_timer: u8,
    /// The keypad.
    pub keypad: KeypadState,
    /// The 2048 pixels of the screen, row by row.
    pub pixels: Seq<bool>,
}

/// The instruction word made of the two bytes at `pc`, high byte first.
pub open spec fn opcode_at(memory: Seq<u8>, pc: u16) -> u16 {
    (memory[pc as int] * 0x100 + memory[pc + 1]) as u16
}

/// The three decimal digits of `value`: hundreds, tens, ones.
pub open spec fn decimal_digits(value: u8) -> Seq<u8> {
    seq![value / 100, (value / 10) % 10, value % 10]
}

/// `registers` with `V0..=Vx` replaced by the bytes of `memory` from `index`
/// on.
pub open spec fn loaded_registers(registers: Seq<u8>, memory: Seq<u8>, index: int, x: int) -> Seq<
    u8,
> {
    Seq::new(
        registers.len(),
        |r: int|
            if r <= x {
                memory[index + r]
            } else {
                registers[r]
            },
    )
}

impl MachineState {
    /// Whether the state is one the machine can be in: memory with the font
    /// in place, sixteen registers, `I` within the address space, at most
    /// sixteen return addresses, a valid keypad and 2048 pixels.
    pub open spec fn wf(self) -> bool {
        &&& memory_wf(self.memory)
        &&& self.registers.len() == REGISTER_COUNT
        &&& self.index < MEMORY_SIZE
        &&& self.stack.len() <= STACK_DEPTH
        &&& self.keypad.wf()
        &&& self.pixels.len() == PIXEL_COUNT
    }

    /// The state of a new machine: the font in memory, everything else zero,
    /// off, empty or released.
    pub open spec fn initial() -> MachineState {
        MachineState {
            memory: blank_memory(),
            registers: Seq::new(REGISTER_COUNT as nat, |r: int| 0u8),
            index: 0,
            pc: 0,
            stack: Seq::empty(),
            delay_timer: 0,
            sound_timer: 0,
            keypad: KeypadState::idle(),
            pixels: blank_screen(),
        }
    }

    /// The value of register `x`.
    pub open spec fn v(self, x: u8) -> u8 {
        self.registers[x as int]
    }

    /// This state with the program counter at `pc`.
    pub open spec fn with_pc(self, pc: u16) -> MachineState {
        MachineState { pc, ..self }
    }

    /// This state with the program counter moved on by `by` bytes.
    pub open spec fn advanced(self, by: int) -> MachineState {
        self.with_pc((self.pc + by) as u16)
    }

    /// This state after an instruction that skips the next one where `skip`
    /// holds, and otherwise goes on to it.
    pub open spec fn skipping(self, skip: bool) -> MachineState {
        self.advanced(
            if skip {
                4
            } else {
                2
            },
        )
    }

    /// This state with `value` in register `x`.
    pub open spec fn with_register(self, x: u8, value: u8) -> MachineState {
        MachineState { registers: self.registers.update(x as int, value), ..self }
    }

    /// This state with the flag register at 1 where `set` holds, else at 0.
    pub open spec fn with_flag(self, set: bool) -> MachineState {
        self.with_register(
            FLAG,
            if set {
                1
            } else {
                0
            },
        )
    }

    /// This state with `index` in the index register.
    pub open spec fn with_index(self, index: u16) -> MachineState {
        MachineState { index, ..self }
    }

    /// This state with the given registers.
    pub open spec fn with_registers(self, registers: Seq<u8>) -> MachineState {
        MachineState { registers, ..self }
    }

    /// This state with the given memory.
    pub open spec fn with_memory(self, memory: Seq<u8>) -> MachineState {
        MachineState { memory, ..self }
    }

    /// This state with the given stack.
    pub open spec fn with_stack(self, stack: Seq<u16>) -> MachineState {
        MachineState { stack, ..self }
    }

    /// This state with the given pixels.
    pub open spec fn with_pixels(self, pixels: Seq<bool>) -> MachineState {
        MachineState { pixels, ..self }
    }

    /// This state with the given keypad.
    pub open spec fn with_keypad(self, keypad: KeypadState) -> MachineState {
        MachineState { keypad, ..self }
    }

    /// This state with the given timer values.
    pub open spec fn with_timers(self, delay_timer: u8, sound_timer: u8) -> MachineState {
        MachineState { delay_timer, sound_timer, ..self }
    }

    /// This state one tick of the 60 Hz clock later.
    pub open spec fn ticked(self) -> MachineState {
        self.with_timers(ticked(self.delay_timer), ticked(self.sound_timer))
    }

    /// The sprite of `rows` bytes that starts at `I`.
    pub open spec fn sprite(self, rows: u8) -> Seq<u8> {
        self.memory.subrange(self.index as int, self.index + rows)
    }

    /// What the register-to-register instructions make of this state: the
    /// new `Vx`, and the flag where the instruction sets one. The flag is
    /// written after the result, so with `x == 0xF` the flag is what stays.
    pub open spec fn execute_arithmetic(self, i: Instruction) -> MachineState {
        match i {
            Instruction::Move { x, y } => self.with_register(x, self.v(y)),
            Instruction::Or { x, y } => self.with_register(x, self.v(x) | self.v(y)),
            Instruction::And { x, y } => self.with_register(x, self.v(x) & self.v(y)),
            Instruction::Xor { x, y } => self.with_register(x, self.v(x) ^ self.v(y)),
            Instruction::Add { x, y } => {
                let sum = self.v(x) + self.v(y);
                self.with_register(x, (sum % 0x100) as u8).with_flag(sum > 0xFF)
            },
            Instruction::Subtract { x, y } => {
                let difference = self.v(x) - self.v(y);
                self.with_register(x, (difference % 0x100) as u8).with_flag(self.v(x) >= self.v(y))
            },
            Instruction::SubtractFrom { x, y } => {
                let difference = self.v(y) - self.v(x);
                self.with_register(x, (difference % 0x100) as u8).with_flag(self.v(y) >= self.v(x))
            },
            Instruction::ShiftRight { x, y } => self.with_register(x, self.v(x) / 2).with_flag(
                self.v(x) % 2 == 1,
            ),
            Instruction::ShiftLeft { x, y } => self.with_register(
                x,
                ((self.v(x) * 2) % 0x100) as u8,
            ).with_flag(self.v(x) >= 0x80),
            _ => self,
        }
    }

    /// What instruction `i` makes of this state, `random` being the byte
    /// that the random source gave; or the error with which it fails, in
    /// which case the state stays as it is.
    pub open spec fn execute(self, i: Instruction, random: u8) -> Result<MachineState, Chip8Error> {
        match i {
            Instruction::ClearScreen => Ok(self.with_pixels(blank_screen()).advanced(2)),
            Instruction::Return => if self.stack.len() == 0 {
                Err(Chip8Error::StackUnderflow)
            } else {
                Ok(self.with_stack(self.stack.drop_last()).with_pc(self.stack.last()))
            },
            Instruction::MachineCall { address } => Ok(self.advanced(2)),
            Instruction::Jump { address } => Ok(self.with_pc(address)),
            Instruction::Call { address } => if self.stack.len() >= STACK_DEPTH {
                Err(Chip8Error::StackOverflow)
            } else {
                Ok(self.with_stack(self.stack.push((self.pc + 2) as u16)).with_pc(address))
            },
            Instruction::SkipEqualImmediate { x, value } => Ok(self.skipping(self.v(x) == value)),
            Instruction::SkipNotEqualImmediate { x, value } => Ok(
                self.skipping(self.v(x) != value),
            ),
            Instruction::SkipEqual { x, y } => Ok(self.skipping(self.v(x) == self.v(y))),
            Instruction::SkipNotEqual { x, y } => Ok(self.skipping(self.v(x) != self.v(y))),
            Instruction::LoadImmediate { x, value } => Ok(self.with_register(x, value).advanced(2)),
            Instruction::AddImmediate { x, value } => Ok(
                self.with_register(x, ((self.v(x) + value) % 0x100) as u8).advanced(2),
            ),
            Instruction::Move { .. }
            | Instruction::Or { .. }
            | Instruction::And { .. }
            | Instruction::Xor { .. }
            | Instruction::Add { .. }
            | Instruction::Subtract { .. }
            | Instruction::SubtractFrom { .. }
            | Instruction::ShiftRight { .. }
            | Instruction::ShiftLeft { .. } => Ok(self.execute_arithmetic(i).advanced(2)),
            Instruction::LoadIndex { address } => Ok(self.with_index(address).advanced(2)),
            Instruction::JumpOffset { address } => Ok(self.with_pc((self.v(0) + address) as u16)),
            Instruction::Random { x, value } => Ok(
                self.with_register(x, random & value).advanced(2),
            ),
            Instruction::Draw { x, y, rows } => if self.index + rows > MEMORY_SIZE {
                Err(Chip8Error::OutOfBounds)
            } else {
                let sprite = self.sprite(rows);
                let left = self.v(x) as int;
                let top = self.v(y) as int;
                Ok(
                    self.with_pixels(drawn(self.pixels, sprite, left, top)).with_flag(
                        collides(self.pixels, sprite, left, top),
                    ).advanced(2),
                )
            },
            Instruction::SkipKeyDown { x } => Ok(self.skipping(self.keypad.is_down(self.v(x)))),
            Instruction::SkipKeyUp { x } => Ok(self.skipping(!self.keypad.is_down(self.v(x)))),
            Instruction::ReadDelay { x } => Ok(self.with_register(x, self.delay_timer).advanced(2)),
            Instruction::WaitKey { x } => match self.keypad.awaited_key() {
                Some(key) => Ok(
                    self.with_keypad(self.keypad.after_await()).with_register(x, key).advanced(2),
                ),
                None => Ok(self.with_keypad(self.keypad.after_await())),
            },
            Instruction::SetDelay { x } => Ok(
                self.with_timers(self.v(x), self.sound_timer).advanced(2),
            ),
            Instruction::SetSound { x } => Ok(
                self.with_timers(self.delay_timer, self.v(x)).advanced(2),
            ),
            Instruction::AddIndex { x } => Ok(
                self.with_index(((self.index + self.v(x)) % (MEMORY_SIZE as int)) as u16).advanced(
                    2,
                ),
            ),
            Instruction::FontAddress { x } => if self.v(x) > 0xF {
                Err(Chip8Error::OutOfBounds)
            } else {
                Ok(self.with_index((self.v(x) * GLYPH_ROWS) as u16).advanced(2))
            },
            Instruction::StoreDecimal { x } => if !writable_range(self.index as int, 3) {
                Err(Chip8Error::OutOfBounds)
            } else {
                Ok(
                    self.with_memory(
                        overlaid(self.memory, self.index as int, decimal_digits(self.v(x))),
                    ).advanced(2),
                )
            },
            Instruction::StoreRegisters { x } => if !writable_range(self.index as int, x + 1) {
                Err(Chip8Error::OutOfBounds)
            } else {
                Ok(
                    self.with_memory(
                        overlaid(self.memory, self.index as int, self.registers.take(x + 1)),
                    ).advanced(2),
                )
            },
            Instruction::LoadRegisters { x } => if self.index + x >= MEMORY_SIZE {
                Err(Chip8Error::OutOfBounds)
            } else {
                Ok(
                    self.with_registers(
                        loaded_registers(self.registers, self.memory, self.index as int, x as int),
                    ).advanced(2),
                )
            },
        }
    }

    /// What one cycle makes of this state: the instruction at the program
    /// counter is fetched, decoded and executed. Where any of the three
    /// fails, the result is the fault, and the state stays as it is.
    pub open spec fn step(self, random: u8) -> Result<MachineState, Fault> {
        if self.pc > LAST_FETCH {
            Err(Fault { error: Chip8Error::OutOfBounds, address: self.pc, opcode: None })
        } else {
            let word = opcode_at(self.memory, self.pc);
            match decoded(word) {
                None => Err(
                    Fault {
                        error: Chip8Error::UnsupportedOpcode,
                        address: self.pc,
                        opcode: Some(word),
                    },
                ),
                Some(i) => match self.execute(i, random) {
                    Ok(next) => Ok(next),
                    Err(error) => Err(Fault { error, address: self.pc, opcode: Some(word) }),
                },
            }
        }
    }
}

} // verus!
