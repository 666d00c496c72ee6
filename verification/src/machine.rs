//! The machine itself: the state that the instructions work on, and the
//! cycle that fetches, decodes and executes one of them.

use vstd::prelude::*;
use crate::display::Framebuffer;
use crate::error::{Chip8Error, Fault};
use crate::instruction::{decode, Instruction};
use crate::keypad::Keypad;
use crate::memory::{Memory, GLYPH_ROWS, MEMORY_SIZE, PROGRAM_START};
use crate::random::random_byte;
use crate::stack::Stack;
use crate::state::{
    decimal_digits, loaded_registers, opcode_at, MachineState, FLAG, LAST_FETCH, REGISTER_COUNT,
};
use crate::timers::Timers;

verus! {

/// Whether a cycle that began in `before`, with `random` as the byte from
/// the random source, may end with result `r` in state `after`: on success
/// `after` is the next state, on a fault `r` is that fault and nothing has
/// changed.
#[verifier::opaque]
pub open spec fn cycle_outcome(
    before: MachineState,
    random: u8,
    r: Result<(), Fault>,
    after: MachineState,
) -> bool {
    match before.step(random) {
        Ok(next) => r is Ok && after == next,
        Err(fault) => r == Err::<(), Fault>(fault) && after == before,
    }
}

/// A CHIP-8 machine. Its view is its [`MachineState`].
pub struct Chip8 {
    memory: Memory,
    v: [u8; 16],
    stack: Stack,
    index: u16,
    pc: u16,
    timers: Timers,
    keypad: Keypad,
    display: Framebuffer,
}

impl View for Chip8 {
    type V = MachineState;

    closed spec fn view(&self) -> MachineState {
        MachineState {
            memory: self.memory@,
            registers: self.v@,
            index: self.index,
            pc: self.pc,
            stack: self.stack@,
            delay_timer: self.timers.delay,
            sound_timer: self.timers.sound,
            keypad: self.keypad@,
            pixels: self.display@,
        }
    }
}

impl Chip8 {
    /// The invariant of the type. `new` establishes it and every method
    /// keeps it.
    pub closed spec fn wf(&self) -> bool {
        &&& self.memory.wf()
        &&& self.stack.wf()
        &&& self.keypad.wf()
        &&& self.index < MEMORY_SIZE
    }

    /// The state of a valid machine is a valid state.
    pub proof fn lemma_wf(&self)
        requires
            self.wf(),
        ensures
            self@.wf(),
    {
        self.stack.lemma_bounded();
        self.display.lemma_size();
    }

    /// A machine with the font in memory and everything else at zero. Its
    /// program counter is at 0 until [`Chip8::init`] moves it to the start
    /// of program space.
    pub fn new() -> (m: Chip8)
        ensures
            m.wf(),
            m@ == MachineState::initial(),
    {
        let m = Chip8 {
            memory: Memory::new(),
            v: [0u8; 16],
            stack: Stack::new(),
            index: 0,
            pc: 0,
            timers: Timers::new(),
            keypad: Keypad::new(),
            display: Framebuffer::new(),
        };
        assert(m@.registers =~= MachineState::initial().registers);
        m
    }

    /// Puts the program counter at the start of program space.
    pub fn init(&mut self)
        requires
            old(self).wf(),
        ensures
            final(self).wf(),
            final(self)@ == old(self)@.with_pc(PROGRAM_START),
    {
        self.pc = PROGRAM_START;
    }

    /// Copies `program` into memory from `0x200` on. A program that does not
    /// fit is refused with `OutOfBounds`, and nothing changes.
    pub fn load_program(&mut self, program: &[u8]) -> (r: Result<(), Chip8Error>)
        requires
            old(self).wf(),
        ensures
            final(self).wf(),
            PROGRAM_START + program@.len() <= MEMORY_SIZE ==> r == Ok::<(), Chip8Error>(())
                && final(self)@ == old(self)@.with_memory(
                crate::memory::with_program(old(self)@.memory, program@),
            ),
            PROGRAM_START + program@.len() > MEMORY_SIZE ==> r == Err::<(), Chip8Error>(
                Chip8Error::OutOfBounds,
            ) && final(self)@ == old(self)@,
    {
        self.memory.load_program(program)
    }

    /// One tick of the 60 Hz clock: each timer that is not zero loses one.
    pub fn tick_timers(&mut self)
        requires
            old(self).wf(),
        ensures
            final(self).wf(),
            final(self)@ == old(self)@.ticked(),
    {
        self.timers.tick();
    }

    /// Records that key `key` is now held (`down`) or released. A key code
    /// above `0xF` names no key and changes nothing.
    pub fn set_key(&mut self, key: u8, down: bool)
        requires
            old(self).wf(),
        ensures
            final(self).wf(),
            final(self)@ == old(self)@.with_keypad(old(self)@.keypad.with_key(key, down)),
    {
        self.keypad.set_key(key, down);
    }

    /// The value of register `Vx`.
    pub fn register(&self, x: u8) -> (value: u8)
        requires
            x < REGISTER_COUNT,
        ensures
            value == self@.v(x),
    {
        self.v[x as usize]
    }

    /// The index register `I`.
    pub fn index(&self) -> (index: u16)
        ensures
            index == self@.index,
    {
        self.index
    }

    /// The program counter.
    pub fn pc(&self) -> (pc: u16)
        ensures
            pc == self@.pc,
    {
        self.pc
    }

    /// The number of return addresses on the stack.
    pub fn stack_depth(&self) -> (depth: usize)
        requires
            self.wf(),
        ensures
            depth == self@.stack.len(),
    {
        self.stack.len()
    }

    /// The delay timer.
    pub fn delay_timer(&self) -> (value: u8)
        ensures
            value == self@.delay_timer,
    {
        self.timers.delay
    }

    /// The sound timer. A tone is due while it is not zero.
    pub fn sound_timer(&self) -> (value: u8)
        ensures
            value == self@.sound_timer,
    {
        self.timers.sound
    }

    /// The memory, to read.
    pub fn memory(&self) -> (memory: &Memory)
        requires
            self.wf(),
        ensures
            memory.wf(),
            memory@ == self@.memory,
    {
        &self.memory
    }

    /// The framebuffer, to read.
    pub fn display(&self) -> (display: &Framebuffer)
        ensures
            display@ == self@.pixels,
    {
        &self.display
    }

    /// The keypad, to read.
    pub fn keypad(&self) -> (keypad: &Keypad)
        requires
            self.wf(),
        ensures
            keypad.wf(),
            keypad@ == self@.keypad,
    {
        &self.keypad
    }

    /// Puts `value` into register `Vx`.
    fn set_reg(&mut self, x: u8, value: u8)
        requires
            old(self).wf(),
            x < 16,
        ensures
            final(self).wf(),
            final(self)@ == old(self)@.with_register(x, value),
    {
        self.v[x as usize] = value;
    }

    /// Puts 1 into the flag register where `set` holds, else 0.
    fn set_flag(&mut self, set: bool)
        requires
            old(self).wf(),
        ensures
            final(self).wf(),
            final(self)@ == old(self)@.with_flag(set),
    {
        self.set_reg(
            FLAG,
            if set {
                1
            } else {
                0
            },
        );
    }

    /// Moves the program counter on by `by` bytes.
    fn advance(&mut self, by: u16)
        requires
            old(self).wf(),
            old(self)@.pc + by <= u16::MAX,
        ensures
            final(self).wf(),
            final(self)@ == old(self)@.advanced(by as int),
    {
        self.pc = self.pc + by;
    }

    /// Goes on to the next instruction, or past it where `skip` holds.
    fn skip_if(&mut self, skip: bool)
        requires
            old(self).wf(),
            old(self)@.pc <= LAST_FETCH,
        ensures
            final(self).wf(),
            final(self)@ == old(self)@.skipping(skip),
    {
        if skip {
            self.advance(4);
        } else {
            self.advance(2);
        }
    }

    /// The instruction word at the program counter, high byte first.
    fn fetch(&self) -> (r: Result<u16, Chip8Error>)
        requires
            self.wf(),
        ensures
            self@.pc <= LAST_FETCH ==> r == Ok::<u16, Chip8Error>(opcode_at(self@.memory, self@.pc)),
            self@.pc > LAST_FETCH ==> r == Err::<u16, Chip8Error>(Chip8Error::OutOfBounds),
    {
        if self.pc > LAST_FETCH {
            return Err(Chip8Error::OutOfBounds);
        }
        let high: u8 = self.memory.read_byte(self.pc)?;
        let low: u8 = self.memory.read_byte(self.pc + 1)?;
        assert((high as u16) << 8 | (low as u16) == high * 0x100 + low) by (bit_vector);
        Ok((high as u16) << 8 | (low as u16))
    }

    /// The register-to-register instructions `8XYN`, without the move of
    /// the program counter.
    fn execute_arithmetic(&mut self, instruction: Instruction)
        requires
            old(self).wf(),
            instruction.wf(),
        ensures
            final(self).wf(),
            final(self)@ == old(self)@.execute_arithmetic(instruction),
    {
        match instruction {
            Instruction::Move { x, y } => {
                let vy = self.register(y);
                self.set_reg(x, vy);
            },
            Instruction::Or { x, y } => {
                let value = self.register(x) | self.register(y);
                self.set_reg(x, value);
            },
            Instruction::And { x, y } => {
                let value = self.register(x) & self.register(y);
                self.set_reg(x, value);
            },
            Instruction::Xor { x, y } => {
                let value = self.register(x) ^ self.register(y);
                self.set_reg(x, value);
            },
            Instruction::Add { x, y } => {
                let sum: u16 = self.register(x) as u16 + self.register(y) as u16;
                self.set_reg(x, (sum % 0x100) as u8);
                self.set_flag(sum > 0xFF);
            },
            Instruction::Subtract { x, y } => {
                let vx = self.register(x);
                let vy = self.register(y);
                self.set_reg(x, vx.wrapping_sub(vy));
                self.set_flag(vx >= vy);
            },
            Instruction::SubtractFrom { x, y } => {
                let vx = self.register(x);
                let vy = self.register(y);
                self.set_reg(x, vy.wrapping_sub(vx));
                self.set_flag(vy >= vx);
            },
            Instruction::ShiftRight { x, y } => {
                let vx = self.register(x);
                assert(vx >> 1u8 == vx / 2) by (bit_vector);
                assert((vx & 1u8 == 1u8) == (vx % 2 == 1)) by (bit_vector);
                self.set_reg(x, vx >> 1u8);
                self.set_flag(vx & 1u8 == 1u8);
            },
            Instruction::ShiftLeft { x, y } => {
                let vx = self.register(x);
                assert(vx << 1u8 == (vx * 2) % 0x100) by (bit_vector);
                assert((vx & 0x80u8 == 0x80u8) == (vx >= 0x80)) by (bit_vector);
                self.set_reg(x, vx << 1u8);
                self.set_flag(vx & 0x80u8 == 0x80u8);
            },
            _ => {},
        }
    }

    /// The instructions that move the program counter by more than the
    /// usual two bytes, or conditionally.
    fn execute_flow(&mut self, instruction: Instruction) -> (r: Result<(), Chip8Error>)
        requires
            old(self).wf(),
            instruction.wf(),
            old(self)@.pc <= LAST_FETCH,
            instruction is Return || instruction is Jump || instruction is Call
                || instruction is SkipEqualImmediate || instruction is SkipNotEqualImmediate
                || instruction is SkipEqual || instruction is SkipNotEqual
                || instruction is JumpOffset || instruction is SkipKeyDown
                || instruction is SkipKeyUp,
        ensures
            final(self).wf(),
            match old(self)@.execute(instruction, 0) {
                Ok(next) => r is Ok && final(self)@ == next,
                Err(error) => r == Err::<(), Chip8Error>(error) && final(self)@ == old(self)@,
            },
    {
        proof {
            self.lemma_wf();
        }
        match instruction {
            Instruction::Return => {
                let address = self.stack.pop()?;
                self.pc = address;
            },
            Instruction::Jump { address } => {
                self.pc = address;
            },
            Instruction::Call { address } => {
                self.stack.push(self.pc + 2)?;
                self.pc = address;
            },
            Instruction::SkipEqualImmediate { x, value } => {
                let skip = self.register(x) == value;
                self.skip_if(skip);
            },
            Instruction::SkipNotEqualImmediate { x, value } => {
                let skip = self.register(x) != value;
                self.skip_if(skip);
            },
            Instruction::SkipEqual { x, y } => {
                let skip = self.register(x) == self.register(y);
                self.skip_if(skip);
            },
            Instruction::SkipNotEqual { x, y } => {
                let skip = self.register(x) != self.register(y);
                self.skip_if(skip);
            },
            Instruction::JumpOffset { address } => {
                self.pc = self.register(0) as u16 + address;
            },
            Instruction::SkipKeyDown { x } => {
                let skip = self.keypad.is_down(self.register(x));
                self.skip_if(skip);
            },
            Instruction::SkipKeyUp { x } => {
                let skip = !self.keypad.is_down(self.register(x));
                self.skip_if(skip);
            },
            _ => {},
        }
        Ok(())
    }

    /// `DXYN`.
    fn draw(&mut self, x: u8, y: u8, rows: u8) -> (r: Result<(), Chip8Error>)
        requires
            old(self).wf(),
            x < 16,
            y < 16,
            rows < 16,
            old(self)@.pc <= LAST_FETCH,
        ensures
            final(self).wf(),
            match old(self)@.execute(Instruction::Draw { x, y, rows }, 0) {
                Ok(next) => r is Ok && final(self)@ == next,
                Err(error) => r == Err::<(), Chip8Error>(error) && final(self)@ == old(self)@,
            },
    {
        let left = self.register(x);
        let top = self.register(y);
        let sprite = self.memory.slice(self.index, rows as u16)?;
        let collision = self.display.draw_sprite(left, top, sprite);
        self.set_flag(collision);
        self.advance(2);
        Ok(())
    }

    /// `FX0A`.
    fn wait_key(&mut self, x: u8)
        requires
            old(self).wf(),
            x < 16,
            old(self)@.pc <= LAST_FETCH,
        ensures
            final(self).wf(),
            old(self)@.execute(Instruction::WaitKey { x }, 0) == Ok::<MachineState, Chip8Error>(
                final(self)@,
            ),
    {
        match self.keypad.await_key() {
            Some(key) => {
                self.set_reg(x, key);
                self.advance(2);
            },
            None => {},
        }
    }

    /// `FX33`.
    fn store_decimal(&mut self, x: u8) -> (r: Result<(), Chip8Error>)
        requires
            old(self).wf(),
            x < 16,
            old(self)@.pc <= LAST_FETCH,
        ensures
            final(self).wf(),
            match old(self)@.execute(Instruction::StoreDecimal { x }, 0) {
                Ok(next) => r is Ok && final(self)@ == next,
                Err(error) => r == Err::<(), Chip8Error>(error) && final(self)@ == old(self)@,
            },
    {
        let value = self.register(x);
        let digits: [u8; 3] = [value / 100, (value / 10) % 10, value % 10];
        assert(digits@ =~= decimal_digits(value));
        self.memory.write_all(self.index, digits.as_slice())?;
        self.advance(2);
        Ok(())
    }

    /// `FX55`.
    fn store_registers(&mut self, x: u8) -> (r: Result<(), Chip8Error>)
        requires
            old(self).wf(),
            x < 16,
            old(self)@.pc <= LAST_FETCH,
        ensures
            final(self).wf(),
            match old(self)@.execute(Instruction::StoreRegisters { x }, 0) {
                Ok(next) => r is Ok && final(self)@ == next,
                Err(error) => r == Err::<(), Chip8Error>(error) && final(self)@ == old(self)@,
            },
    {
        let values = vstd::slice::slice_subrange(self.v.as_slice(), 0, x as usize + 1);
        self.memory.write_all(self.index, values)?;
        self.advance(2);
        Ok(())
    }

    /// `FX65`.
    fn load_registers(&mut self, x: u8) -> (r: Result<(), Chip8Error>)
        requires
            old(self).wf(),
            x < 16,
            old(self)@.pc <= LAST_FETCH,
        ensures
            final(self).wf(),
            match old(self)@.execute(Instruction::LoadRegisters { x }, 0) {
                Ok(next) => r is Ok && final(self)@ == next,
                Err(error) => r == Err::<(), Chip8Error>(error) && final(self)@ == old(self)@,
            },
    {
        let ghost before = self@;
        proof {
            self.lemma_wf();
        }
        let bytes = self.memory.slice(self.index, x as u16 + 1)?;
        assert(before.registers =~= loaded_registers(
            before.registers,
            before.memory,
            before.index as int,
            -1,
        ));
        let mut r: usize = 0;
        while r <= x as usize
            invariant
                r <= x + 1,
                x < 16,
                self.wf(),
                before.wf(),
                before.index + x < MEMORY_SIZE,
                bytes@ == before.memory.subrange(before.index as int, before.index + x + 1),
                self@ == before.with_registers(
                    loaded_registers(before.registers, before.memory, before.index as int, r - 1),
                ),
            decreases x + 1 - r,
        {
            self.v[r] = bytes[r];
            r = r + 1;
            assert(self@.registers =~= loaded_registers(
                before.registers,
                before.memory,
                before.index as int,
                r - 1,
            ));
        }
        self.advance(2);
        Ok(())
    }

    /// Executes one decoded instruction.
    fn execute(&mut self, instruction: Instruction, random: u8) -> (r: Result<(), Chip8Error>)
        requires
            old(self).wf(),
            instruction.wf(),
            old(self)@.pc <= LAST_FETCH,
        ensures
            final(self).wf(),
            match old(self)@.execute(instruction, random) {
                Ok(next) => r is Ok && final(self)@ == next,
                Err(error) => r == Err::<(), Chip8Error>(error) && final(self)@ == old(self)@,
            },
    {
        match instruction {
            Instruction::ClearScreen => {
                self.display.clear();
                self.advance(2);
            },
            Instruction::MachineCall { address } => {
                self.advance(2);
            },
            Instruction::Return
            | Instruction::Jump { .. }
            | Instruction::Call { .. }
            | Instruction::SkipEqualImmediate { .. }
            | Instruction::SkipNotEqualImmediate { .. }
            | Instruction::SkipEqual { .. }
            | Instruction::SkipNotEqual { .. }
            | Instruction::JumpOffset { .. }
            | Instruction::SkipKeyDown { .. }
            | Instruction::SkipKeyUp { .. } => {
                return self.execute_flow(instruction);
            },
            Instruction::LoadImmediate { x, value } => {
                self.set_reg(x, value);
                self.advance(2);
            },
            Instruction::AddImmediate { x, value } => {
                let sum: u16 = self.register(x) as u16 + value as u16;
                self.set_reg(x, (sum % 0x100) as u8);
                self.advance(2);
            },
            Instruction::Move { .. }
            | Instruction::Or { .. }
            | Instruction::And { .. }
            | Instruction::Xor { .. }
            | Instruction::Add { .. }
            | Instruction::Subtract { .. }
            | Instruction::SubtractFrom { .. }
            | Instruction::ShiftRight { .. }
            | Instruction::ShiftLeft { .. } => {
                self.execute_arithmetic(instruction);
                self.advance(2);
            },
            Instruction::LoadIndex { address } => {
                self.index = address;
                self.advance(2);
            },
            Instruction::Random { x, value } => {
                self.set_reg(x, random & value);
                self.advance(2);
            },
            Instruction::Draw { x, y, rows } => {
                return self.draw(x, y, rows);
            },
            Instruction::ReadDelay { x } => {
                let value = self.timers.delay;
                self.set_reg(x, value);
                self.advance(2);
            },
            Instruction::WaitKey { x } => {
                self.wait_key(x);
            },
            Instruction::SetDelay { x } => {
                self.timers.delay = self.register(x);
                self.advance(2);
            },
            Instruction::SetSound { x } => {
                self.timers.sound = self.register(x);
                self.advance(2);
            },
            Instruction::AddIndex { x } => {
                self.index = (self.index + self.register(x) as u16) % 0x1000;
                self.advance(2);
            },
            Instruction::FontAddress { x } => {
                let digit = self.register(x);
                if digit > 0xF {
                    return Err(Chip8Error::OutOfBounds);
                }
                self.index = digit as u16 * GLYPH_ROWS;
                self.advance(2);
            },
            Instruction::StoreDecimal { x } => {
                return self.store_decimal(x);
            },
            Instruction::StoreRegisters { x } => {
                return self.store_registers(x);
            },
            Instruction::LoadRegisters { x } => {
                return self.load_registers(x);
            },
        }
        Ok(())
    }

    /// One cycle with `random` as the byte from the random source: fetches
    /// the instruction at the program counter, decodes and executes it. A
    /// fault leaves the machine as it was.
    pub fn step(&mut self, random: u8) -> (r: Result<(), Fault>)
        requires
            old(self).wf(),
        ensures
            final(self).wf(),
            match old(self)@.step(random) {
                Ok(next) => r is Ok && final(self)@ == next,
                Err(fault) => r == Err::<(), Fault>(fault) && final(self)@ == old(self)@,
            },
            cycle_outcome(old(self)@, random, r, final(self)@),
    {
        proof {
            reveal(cycle_outcome);
        }
        let address = self.pc;
        let word = match self.fetch() {
            Ok(word) => word,
            Err(error) => {
                return Err(Fault { error, address, opcode: None });
            },
        };
        let instruction = match decode(word) {
            Some(instruction) => instruction,
            None => {
                return Err(
                    Fault { error: Chip8Error::UnsupportedOpcode, address, opcode: Some(word) },
                );
            },
        };
        match self.execute(instruction, random) {
            Ok(()) => Ok(()),
            Err(error) => Err(Fault { error, address, opcode: Some(word) }),
        }
    }

    /// One cycle. Where the instruction at the program counter asks for a
    /// random byte, one is drawn from the random source; the cycle then is
    /// [`Chip8::step`] with that byte.
    pub fn cycle(&mut self) -> (r: Result<(), Fault>)
        requires
            old(self).wf(),
        ensures
            final(self).wf(),
            exists|random: u8| #[trigger] cycle_outcome(old(self)@, random, r, final(self)@),
    {
        let wants_random = match self.fetch() {
            Ok(word) => word >> 12 == 0xC,
            Err(_) => false,
        };
        let random: u8 = if wants_random {
            random_byte()
        } else {
            0
        };
        self.step(random)
    }
}

} // verus!
