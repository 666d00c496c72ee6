//! The 4096-byte address space: font sprites at the bottom, program space
//! from `0x200` upwards.

use vstd::prelude::*;
use crate::error::Chip8Error;

verus! {

/// Number of addressable bytes.
pub const MEMORY_SIZE: usize = 4096;

/// First address of program space, where program images are loaded.
pub const PROGRAM_START: u16 = 0x200;

/// Number of bytes taken by the built-in font: sixteen glyphs of five rows.
pub const FONT_SIZE: usize = 80;

/// Rows of one font glyph.
pub const GLYPH_ROWS: u16 = 5;

/// The built-in hexadecimal font, glyph `0` first, five rows per glyph, each
/// row in the high nibble of its byte.
pub open spec fn font_sprites() -> Seq<u8> {
    seq![
        0xF0u8, 0x90, 0x90, 0x90, 0xF0,
        0x20, 0x60, 0x20, 0x20, 0x70,
        0xF0, 0x10, 0xF0, 0x80, 0xF0,
        0xF0, 0x10, 0xF0, 0x10, 0xF0,
        0x90, 0x90, 0xF0, 0x10, 0x10,
        0xF0, 0x80, 0xF0, 0x10, 0xF0,
        0xF0, 0x80, 0xF0, 0x90, 0xF0,
        0xF0, 0x10, 0x20, 0x40, 0x40,
        0xF0, 0x90, 0xF0, 0x90, 0xF0,
        0xF0, 0x90, 0xF0, 0x10, 0xF0,
        0xF0, 0x90, 0xF0, 0x90, 0x90,
        0xE0, 0x90, 0xE0, 0x90, 0xE0,
        0xF0, 0x80, 0x80, 0x80, 0xF0,
        0xE0, 0x90, 0x90, 0x90, 0xE0,
        0xF0, 0x80, 0xF0, 0x80, 0xF0,
        0xF0, 0x80, 0xF0, 0x80, 0x80,
    ]
}

/// Whether `bytes` is a valid content of the address space: 4096 bytes whose
/// first 80 are the font.
pub open spec fn memory_wf(bytes: Seq<u8>) -> bool {
    &&& bytes.len() == MEMORY_SIZE
    &&& forall|i: int| 0 <= i < FONT_SIZE ==> #[trigger] bytes[i] == font_sprites()[i]
}

/// The address space before any program is loaded: the font, then zeros.
pub open spec fn blank_memory() -> Seq<u8> {
    Seq::new(
        MEMORY_SIZE as nat,
        |i: int| if i < FONT_SIZE { font_sprites()[i] } else { 0u8 },
    )
}

/// Whether a program may write to `addr`: program space only, so that the
/// font is never overwritten.
pub open spec fn writable(addr: int) -> bool {
    PROGRAM_START <= addr < MEMORY_SIZE
}

/// `bytes` with `data` copied in from address `at` on.
pub open spec fn overlaid(bytes: Seq<u8>, at: int, data: Seq<u8>) -> Seq<u8> {
    Seq::new(
        bytes.len(),
        |i: int|
            if at <= i < at + data.len() {
                data[i - at]
            } else {
                bytes[i]
            },
    )
}

/// `bytes` with `program` copied in from `PROGRAM_START` on.
pub open spec fn with_program(bytes: Seq<u8>, program: Seq<u8>) -> Seq<u8> {
    overlaid(bytes, PROGRAM_START as int, program)
}

/// Whether a program may write `len` bytes from `addr` on: the whole range
/// lies in program space.
pub open spec fn writable_range(addr: int, len: int) -> bool {
    PROGRAM_START <= addr && addr + len <= MEMORY_SIZE
}

/// The machine's memory.
pub struct Memory {
    bytes: [u8; 4096],
}

impl View for Memory {
    type V = Seq<u8>;

    closed spec fn view(&self) -> Seq<u8> {
        self.bytes@
    }
}

impl Memory {
    /// The invariant of the type: see [`memory_wf`].
    pub open spec fn wf(&self) -> bool {
        memory_wf(self@)
    }

    /// Memory holding the font and nothing else.
    pub fn new() -> (m: Memory)
        ensures
            m.wf(),
            m@ == blank_memory(),
    {
        let font: [u8; 80] = [
            0xF0, 0x90, 0x90, 0x90, 0xF0,
            0x20, 0x60, 0x20, 0x20, 0x70,
            0xF0, 0x10, 0xF0, 0x80, 0xF0,
            0xF0, 0x10, 0xF0, 0x10, 0xF0,
            0x90, 0x90, 0xF0, 0x10, 0x10,
            0xF0, 0x80, 0xF0, 0x10, 0xF0,
            0xF0, 0x80, 0xF0, 0x90, 0xF0,
            0xF0, 0x10, 0x20, 0x40, 0x40,
            0xF0, 0x90, 0xF0, 0x90, 0xF0,
            0xF0, 0x90, 0xF0, 0x10, 0xF0,
            0xF0, 0x90, 0xF0, 0x90, 0x90,
            0xE0, 0x90, 0xE0, 0x90, 0xE0,
            0xF0, 0x80, 0x80, 0x80, 0xF0,
            0xE0, 0x90, 0x90, 0x90, 0xE0,
            0xF0, 0x80, 0xF0, 0x80, 0xF0,
            0xF0, 0x80, 0xF0, 0x80, 0x80,
        ];
        assert(font@ =~= font_sprites());
        let mut bytes: [u8; 4096] = [0u8; 4096];
        let mut i: usize = 0;
        while i < 80
            invariant
                i <= 80,
                font@ == font_sprites(),
                forall|j: int| 0 <= j < i ==> #[trigger] bytes@[j] == font_sprites()[j],
                forall|j: int| i <= j < 4096 ==> #[trigger] bytes@[j] == 0u8,
            decreases 80 - i,
        {
            bytes[i] = font[i];
            i = i + 1;
        }
        let m = Memory { bytes };
        assert(m@ =~= blank_memory());
        m
    }

    /// The byte at `addr`, or `OutOfBounds` where `addr` is past the end of
    /// the address space.
    pub fn read_byte(&self, addr: u16) -> (r: Result<u8, Chip8Error>)
        requires
            self.wf(),
        ensures
            addr < MEMORY_SIZE ==> r == Ok::<u8, Chip8Error>(self@[addr as int]),
            addr >= MEMORY_SIZE ==> r == Err::<u8, Chip8Error>(Chip8Error::OutOfBounds),
    {
        if (addr as usize) < MEMORY_SIZE {
            Ok(self.bytes[addr as usize])
        } else {
            Err(Chip8Error::OutOfBounds)
        }
    }

    /// Stores `value` at `addr` where `addr` lies in program space; elsewhere
    /// fails with `OutOfBounds` and changes nothing.
    pub fn write_byte(&mut self, addr: u16, value: u8) -> (r: Result<(), Chip8Error>)
        requires
            old(self).wf(),
        ensures
            final(self).wf(),
            writable(addr as int) ==> r == Ok::<(), Chip8Error>(()) && final(self)@ == old(self)@.update(
                addr as int,
                value,
            ),
            !writable(addr as int) ==> r == Err::<(), Chip8Error>(Chip8Error::OutOfBounds)
                && final(self)@ == old(self)@,
    {
        if addr >= PROGRAM_START && (addr as usize) < MEMORY_SIZE {
            self.bytes[addr as usize] = value;
            Ok(())
        } else {
            Err(Chip8Error::OutOfBounds)
        }
    }

    /// The `len` bytes from `addr` on, or `OutOfBounds` where they do not
    /// all lie in the address space.
    pub fn slice(&self, addr: u16, len: u16) -> (r: Result<&[u8], Chip8Error>)
        requires
            self.wf(),
        ensures
            addr + len <= MEMORY_SIZE ==> r is Ok && r->Ok_0@ == self@.subrange(
                addr as int,
                addr + len,
            ),
            addr + len > MEMORY_SIZE ==> r == Err::<&[u8], Chip8Error>(Chip8Error::OutOfBounds),
    {
        let start = addr as usize;
        let end = start + len as usize;
        if end <= MEMORY_SIZE {
            Ok(vstd::slice::slice_subrange(self.bytes.as_slice(), start, end))
        } else {
            Err(Chip8Error::OutOfBounds)
        }
    }

    /// Copies `data` into memory from `addr` on, where the whole range lies
    /// in program space; elsewhere fails with `OutOfBounds` and changes
    /// nothing.
    pub fn write_all(&mut self, addr: u16, data: &[u8]) -> (r: Result<(), Chip8Error>)
        requires
            old(self).wf(),
        ensures
            final(self).wf(),
            writable_range(addr as int, data@.len() as int) ==> r == Ok::<(), Chip8Error>(())
                && final(self)@ == overlaid(old(self)@, addr as int, data@),
            !writable_range(addr as int, data@.len() as int) ==> r == Err::<(), Chip8Error>(
                Chip8Error::OutOfBounds,
            ) && final(self)@ == old(self)@,
    {
        let n = data.len();
        let start = addr as usize;
        if addr < PROGRAM_START || start > MEMORY_SIZE || n > MEMORY_SIZE - start {
            return Err(Chip8Error::OutOfBounds);
        }
        let ghost before = self@;
        let mut i: usize = 0;
        while i < n
            invariant
                i <= n,
                n == data@.len(),
                start == addr,
                PROGRAM_START <= addr,
                start + n <= MEMORY_SIZE,
                memory_wf(before),
                self@ == overlaid(before, addr as int, data@.take(i as int)),
            decreases n - i,
        {
            self.bytes[start + i] = data[i];
            i = i + 1;
            assert(self@ =~= overlaid(before, addr as int, data@.take(i as int)));
        }
        assert(data@.take(n as int) =~= data@);
        Ok(())
    }

    /// Copies `program` into program space from `PROGRAM_START` on. A program
    /// that would run past the end of the address space is refused with
    /// `OutOfBounds`, and nothing is copied.
    pub fn load_program(&mut self, program: &[u8]) -> (r: Result<(), Chip8Error>)
        requires
            old(self).wf(),
        ensures
            final(self).wf(),
            PROGRAM_START + program@.len() <= MEMORY_SIZE ==> r == Ok::<(), Chip8Error>(())
                && final(self)@ == with_program(old(self)@, program@),
            PROGRAM_START + program@.len() > MEMORY_SIZE ==> r == Err::<(), Chip8Error>(
                Chip8Error::OutOfBounds,
            ) && final(self)@ == old(self)@,
    {
        self.write_all(PROGRAM_START, program)
    }
}

} // verus!
