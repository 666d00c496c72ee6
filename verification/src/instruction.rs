//! The instruction set: the decoded form of an instruction word, and the
//! decoder.

use vstd::prelude::*;

verus! {

/// One instruction, decoded. `x` and `y` name registers, `address` is a
/// 12-bit address, `value` an 8-bit immediate.
#[derive(Clone, Copy, Debug, PartialEq, Eq, Structural)]
pub enum Instruction {
    /// `00E0`: turn every pixel off.
    ClearScreen,
    /// `00EE`: return from a subroutine.
    Return,
    /// `0NNN`: call of a machine-code routine; ignored.
    MachineCall { address: u16 },
    /// `1NNN`: jump to `address`.
    Jump { address: u16 },
    /// `2NNN`: call the subroutine at `address`.
    Call { address: u16 },
    /// `3XNN`: skip the next instruction if `Vx == value`.
    SkipEqualImmediate { x: u8, value: u8 },
    /// `4XNN`: skip the next instruction if `Vx != value`.
    SkipNotEqualImmediate { x: u8, value: u8 },
    /// `5XY0`: skip the next instruction if `Vx == Vy`.
    SkipEqual { x: u8, y: u8 },
    /// `6XNN`: `Vx := value`.
    LoadImmediate { x: u8, value: u8 },
    /// `7XNN`: `Vx := Vx + value`, wrapping, flag untouched.
    AddImmediate { x: u8, value: u8 },
    /// `8XY0`: `Vx := Vy`.
    Move { x: u8, y: u8 },
    /// `8XY1`: `Vx := Vx | Vy`.
    Or { x: u8, y: u8 },
    /// `8XY2`: `Vx := Vx & Vy`.
    And { x: u8, y: u8 },
    /// `8XY3`: `Vx := Vx ^ Vy`.
    Xor { x: u8, y: u8 },
    /// `8XY4`: `Vx := Vx + Vy`, wrapping; `VF` := carry.
    Add { x: u8, y: u8 },
    /// `8XY5`: `Vx := Vx - Vy`, wrapping; `VF` := no borrow.
    Subtract { x: u8, y: u8 },
    /// `8XY6`: `Vx := Vx >> 1`; `VF` := the bit shifted out.
    ShiftRight { x: u8, y: u8 },
    /// `8XY7`: `Vx := Vy - Vx`, wrapping; `VF` := no borrow.
    SubtractFrom { x: u8, y: u8 },
    /// `8XYE`: `Vx := Vx << 1`; `VF` := the bit shifted out.
    ShiftLeft { x: u8, y: u8 },
    /// `9XY0`: skip the next instruction if `Vx != Vy`.
    SkipNotEqual { x: u8, y: u8 },
    /// `ANNN`: `I := address`.
    LoadIndex { address: u16 },
    /// `BNNN`: jump to `V0 + address`.
    JumpOffset { address: u16 },
    /// `CXNN`: `Vx := random byte & value`.
    Random { x: u8, value: u8 },
    /// `DXYN`: draw the sprite of `rows` bytes at `I` at `(Vx, Vy)`.
    Draw { x: u8, y: u8, rows: u8 },
    /// `EX9E`: skip the next instruction if key `Vx` is held.
    SkipKeyDown { x: u8 },
    /// `EXA1`: skip the next instruction if key `Vx` is not held.
    SkipKeyUp { x: u8 },
    /// `FX07`: `Vx := delay timer`.
    ReadDelay { x: u8 },
    /// `FX0A`: wait for a key press; `Vx :=` its code.
    WaitKey { x: u8 },
    /// `FX15`: `delay timer := Vx`.
    SetDelay { x: u8 },
    /// `FX18`: `sound timer := Vx`.
    SetSound { x: u8 },
    /// `FX1E`: `I := I + Vx`, wrapping within the address space.
    AddIndex { x: u8 },
    /// `FX29`: `I :=` address of the font glyph for digit `Vx`.
    FontAddress { x: u8 },
    /// `FX33`: store the three decimal digits of `Vx` at `I`, `I+1`, `I+2`.
    StoreDecimal { x: u8 },
    /// `FX55`: store `V0..=Vx` in memory from `I` on.
    StoreRegisters { x: u8 },
    /// `FX65`: load `V0..=Vx` from memory from `I` on.
    LoadRegisters { x: u8 },
}

/// The register named by the second hex digit of `word`.
pub open spec fn field_x(word: u16) -> u8 {
    ((word / 0x100) % 0x10) as u8
}

/// The register named by the third hex digit of `word`.
pub open spec fn field_y(word: u16) -> u8 {
    ((word / 0x10) % 0x10) as u8
}

/// The last hex digit of `word`.
pub open spec fn field_n(word: u16) -> u8 {
    (word % 0x10) as u8
}

/// The low byte of `word`.
pub open spec fn field_nn(word: u16) -> u8 {
    (word % 0x100) as u8
}

/// The low twelve bits of `word`.
pub open spec fn field_nnn(word: u16) -> u16 {
    word % 0x1000
}

/// The register-to-register instruction `8XYN` for last digit `n`.
pub open spec fn decoded_arithmetic(x: u8, y: u8, n: u8) -> Option<Instruction> {
    if n == 0x0 {
        Some(Instruction::Move { x, y })
    } else if n == 0x1 {
        Some(Instruction::Or { x, y })
    } else if n == 0x2 {
        Some(Instruction::And { x, y })
    } else if n == 0x3 {
        Some(Instruction::Xor { x, y })
    } else if n == 0x4 {
        Some(Instruction::Add { x, y })
    } else if n == 0x5 {
        Some(Instruction::Subtract { x, y })
    } else if n == 0x6 {
        Some(Instruction::ShiftRight { x, y })
    } else if n == 0x7 {
        Some(Instruction::SubtractFrom { x, y })
    } else if n == 0xE {
        Some(Instruction::ShiftLeft { x, y })
    } else {
        None
    }
}

/// The instruction `FXNN` for low byte `nn`.
pub open spec fn decoded_misc(x: u8, nn: u8) -> Option<Instruction> {
    if nn == 0x07 {
        Some(Instruction::ReadDelay { x })
    } else if nn == 0x0A {
        Some(Instruction::WaitKey { x })
    } else if nn == 0x15 {
        Some(Instruction::SetDelay { x })
    } else if nn == 0x18 {
        Some(Instruction::SetSound { x })
    } else if nn == 0x1E {
        Some(Instruction::AddIndex { x })
    } else if nn == 0x29 {
        Some(Instruction::FontAddress { x })
    } else if nn == 0x33 {
        Some(Instruction::StoreDecimal { x })
    } else if nn == 0x55 {
        Some(Instruction::StoreRegisters { x })
    } else if nn == 0x65 {
        Some(Instruction::LoadRegisters { x })
    } else {
        None
    }
}

/// The instruction that `word` stands for, or `None` where it stands for
/// none. The first hex digit selects the family; the other digits are
/// operands or select the instruction within the family.
pub open spec fn decoded(word: u16) -> Option<Instruction> {
    let family = word / 0x1000;
    let x = field_x(word);
    let y = field_y(word);
    let n = field_n(word);
    let nn = field_nn(word);
    let nnn = field_nnn(word);
    if family == 0x0 {
        if word == 0x00E0 {
            Some(Instruction::ClearScreen)
        } else if word == 0x00EE {
            Some(Instruction::Return)
        } else {
            Some(Instruction::MachineCall { address: nnn })
        }
    } else if family == 0x1 {
        Some(Instruction::Jump { address: nnn })
    } else if family == 0x2 {
        Some(Instruction::Call { address: nnn })
    } else if family == 0x3 {
        Some(Instruction::SkipEqualImmediate { x, value: nn })
    } else if family == 0x4 {
        Some(Instruction::SkipNotEqualImmediate { x, value: nn })
    } else if family == 0x5 {
        if n == 0 {
            Some(Instruction::SkipEqual { x, y })
        } else {
            None
        }
    } else if family == 0x6 {
        Some(Instruction::LoadImmediate { x, value: nn })
    } else if family == 0x7 {
        Some(Instruction::AddImmediate { x, value: nn })
    } else if family == 0x8 {
        decoded_arithmetic(x, y, n)
    } else if family == 0x9 {
        if n == 0 {
            Some(Instruction::SkipNotEqual { x, y })
        } else {
            None
        }
    } else if family == 0xA {
        Some(Instruction::LoadIndex { address: nnn })
    } else if family == 0xB {
        Some(Instruction::JumpOffset { address: nnn })
    } else if family == 0xC {
        Some(Instruction::Random { x, value: nn })
    } else if family == 0xD {
        Some(Instruction::Draw { x, y, rows: n })
    } else if family == 0xE {
        if nn == 0x9E {
            Some(Instruction::SkipKeyDown { x })
        } else if nn == 0xA1 {
            Some(Instruction::SkipKeyUp { x })
        } else {
            None
        }
    } else {
        decoded_misc(x, nn)
    }
}

impl Instruction {
    /// Whether the operands are in range: registers below 16, addresses
    /// below 4096, sprite heights below 16.
    pub open spec fn wf(self) -> bool {
        match self {
            Instruction::ClearScreen | Instruction::Return => true,
            Instruction::MachineCall { address }
            | Instruction::Jump { address }
            | Instruction::Call { address }
            | Instruction::LoadIndex { address }
            | Instruction::JumpOffset { address } => address < 0x1000,
            Instruction::SkipEqualImmediate { x, .. }
            | Instruction::SkipNotEqualImmediate { x, .. }
            | Instruction::LoadImmediate { x, .. }
            | Instruction::AddImmediate { x, .. }
            | Instruction::Random { x, .. }
            | Instruction::SkipKeyDown { x }
            | Instruction::SkipKeyUp { x }
            | Instruction::ReadDelay { x }
            | Instruction::WaitKey { x }
            | Instruction::SetDelay { x }
            | Instruction::SetSound { x }
            | Instruction::AddIndex { x }
            | Instruction::FontAddress { x }
            | Instruction::StoreDecimal { x }
            | Instruction::StoreRegisters { x }
            | Instruction::LoadRegisters { x } => x < 16,
            Instruction::SkipEqual { x, y }
            | Instruction::Move { x, y }
            | Instruction::Or { x, y }
            | Instruction::And { x, y }
            | Instruction::Xor { x, y }
            | Instruction::Add { x, y }
            | Instruction::Subtract { x, y }
            | Instruction::ShiftRight { x, y }
            | Instruction::SubtractFrom { x, y }
            | Instruction::ShiftLeft { x, y }
            | Instruction::SkipNotEqual { x, y } => x < 16 && y < 16,
            Instruction::Draw { x, y, rows } => x < 16 && y < 16 && rows < 16,
        }
    }
}

/// Every instruction that a word decodes to has its operands in range.
pub proof fn lemma_decoded_wf(word: u16)
    ensures
        decoded(word) matches Some(i) ==> i.wf(),
{
}

/// Decodes an instruction word by masking out its fields.
pub fn decode(word: u16) -> (r: Option<Instruction>)
    ensures
        r == decoded(word),
        r matches Some(i) ==> i.wf(),
{
    let family: u16 = word >> 12;
    let x: u8 = ((word & 0x0F00) >> 8) as u8;
    let y: u8 = ((word & 0x00F0) >> 4) as u8;
    let n: u8 = (word & 0x000F) as u8;
    let nn: u8 = (word & 0x00FF) as u8;
    let address: u16 = word & 0x0FFF;
    proof {
        assert(word >> 12 == word / 0x1000) by (bit_vector);
        assert((word & 0x0F00) >> 8 == (word / 0x100) % 0x10) by (bit_vector);
        assert((word & 0x00F0) >> 4 == (word / 0x10) % 0x10) by (bit_vector);
        assert(word & 0x000F == word % 0x10) by (bit_vector);
        assert(word & 0x00FF == word % 0x100) by (bit_vector);
        assert(word & 0x0FFF == word % 0x1000) by (bit_vector);
        lemma_decoded_wf(word);
    }
    match family {
        0x0 => {
            if word == 0x00E0 {
                Some(Instruction::ClearScreen)
            } else if word == 0x00EE {
                Some(Instruction::Return)
            } else {
                Some(Instruction::MachineCall { address })
            }
        },
        0x1 => Some(Instruction::Jump { address }),
        0x2 => Some(Instruction::Call { address }),
        0x3 => Some(Instruction::SkipEqualImmediate { x, value: nn }),
        0x4 => Some(Instruction::SkipNotEqualImmediate { x, value: nn }),
        0x5 => if n == 0 {
            Some(Instruction::SkipEqual { x, y })
        } else {
            None
        },
        0x6 => Some(Instruction::LoadImmediate { x, value: nn }),
        0x7 => Some(Instruction::AddImmediate { x, value: nn }),
        0x8 => match n {
            0x0 => Some(Instruction::Move { x, y }),
            0x1 => Some(Instruction::Or { x, y }),
            0x2 => Some(Instruction::And { x, y }),
            0x3 => Some(Instruction::Xor { x, y }),
            0x4 => Some(Instruction::Add { x, y }),
            0x5 => Some(Instruction::Subtract { x, y }),
            0x6 => Some(Instruction::ShiftRight { x, y }),
            0x7 => Some(Instruction::SubtractFrom { x, y }),
            0xE => Some(Instruction::ShiftLeft { x, y }),
            _ => None,
        },
        0x9 => if n == 0 {
            Some(Instruction::SkipNotEqual { x, y })
        } else {
            None
        },
        0xA => Some(Instruction::LoadIndex { address }),
        0xB => Some(Instruction::JumpOffset { address }),
        0xC => Some(Instruction::Random { x, value: nn }),
        0xD => Some(Instruction::Draw { x, y, rows: n }),
        0xE => match nn {
            0x9E => Some(Instruction::SkipKeyDown { x }),
            0xA1 => Some(Instruction::SkipKeyUp { x }),
            _ => None,
        },
        _ => match nn {
            0x07 => Some(Instruction::ReadDelay { x }),
            0x0A => Some(Instruction::WaitKey { x }),
            0x15 => Some(Instruction::SetDelay { x }),
            0x18 => Some(Instruction::SetSound { x }),
            0x1E => Some(Instruction::AddIndex { x }),
            0x29 => Some(Instruction::FontAddress { x }),
            0x33 => Some(Instruction::StoreDecimal { x }),
            0x55 => Some(Instruction::StoreRegisters { x }),
            0x65 => Some(Instruction::LoadRegisters { x }),
            _ => None,
        },
    }
}

} // verus!
