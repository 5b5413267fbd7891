//! Instruction words and their decoding into a closed set of instructions.
//!
//! A word is four nibbles. The first selects the family; the others are read
//! as a register index `x`, a register index `y` and a count `n`, or together
//! as a byte `kk` or an address `addr`.

use vstd::prelude::*;

verus! {

/// One decoded instruction. Register indices are below 16, `n` is below 16
/// and addresses are below 4096.
#[derive(Clone, Copy, Debug, PartialEq, Eq, Structural)]
pub enum Instruction {
    /// `0000`: do nothing.
    Nop,
    /// `00E0`: switch every cell of the framebuffer off.
    ClearScreen,
    /// `00EE`: return from a subroutine.
    Return,
    /// `1nnn`: continue at `addr`.
    Jump { addr: u16 },
    /// `2nnn`: call the subroutine at `addr`.
    Call { addr: u16 },
    /// `3xkk`: skip the next instruction if `Vx == kk`.
    SkipIfEqualByte { x: u8, kk: u8 },
    /// `4xkk`: skip the next instruction if `Vx != kk`.
    SkipIfNotEqualByte { x: u8, kk: u8 },
    /// `5xy0`: skip the next instruction if `Vx == Vy`.
    SkipIfEqual { x: u8, y: u8 },
    /// `6xkk`: `Vx = kk`.
    LoadByte { x: u8, kk: u8 },
    /// `7xkk`: `Vx = Vx + kk` modulo 256; no flag.
    AddByte { x: u8, kk: u8 },
    /// `8xy0`: `Vx = Vy`.
    Move { x: u8, y: u8 },
    /// `8xy1`: `Vx = Vx | Vy`.
    Or { x: u8, y: u8 },
    /// `8xy2`: `Vx = Vx & Vy`.
    And { x: u8, y: u8 },
    /// `8xy3`: `Vx = Vx ^ Vy`.
    Xor { x: u8, y: u8 },
    /// `8xy4`: `Vx = Vx + Vy` modulo 256; `VF` is the carry.
    AddCarry { x: u8, y: u8 },
    /// `8xy5`: `Vx = Vx - Vy` modulo 256; `VF` is 0 on a borrow, else 1.
    SubBorrow { x: u8, y: u8 },
    /// `8xy6`: `VF` is the lowest bit of `Vx`; `Vx = Vx >> 1`.
    ShiftRight { x: u8 },
    /// `8xy7`: `Vx = Vy - Vx` modulo 256; `VF` is 0 on a borrow, else 1.
    SubFrom { x: u8, y: u8 },
    /// `8xyE`: `VF` is the highest bit of `Vx`; `Vx = Vx << 1` in eight bits.
    ShiftLeft { x: u8 },
    /// `9xy0`: skip the next instruction if `Vx != Vy`.
    SkipIfNotEqual { x: u8, y: u8 },
    /// `Annn`: `I = addr`.
    LoadIndex { addr: u16 },
    /// `Bnnn`: continue at `V0 + addr`.
    JumpOffset { addr: u16 },
    /// `Cxkk`: `Vx = r & kk` for a random `r` in `0..=kk`.
    Random { x: u8, kk: u8 },
    /// `Dxyn`: draw the `n`-row sprite at `I` at column `Vx`, row `Vy`.
    Draw { x: u8, y: u8, n: u8 },
    /// `Ex9E`: skip the next instruction if key `Vx` is held.
    SkipIfKey { x: u8 },
    /// `ExA1`: skip the next instruction if key `Vx` is not held.
    SkipIfNotKey { x: u8 },
    /// `Fx07`: `Vx = delay_timer`.
    ReadDelay { x: u8 },
    /// `Fx0A`: wait for a key; `Vx` is the lowest held key.
    WaitKey { x: u8 },
    /// `Fx15`: `delay_timer = Vx`.
    SetDelay { x: u8 },
    /// `Fx18`: `sound_timer = Vx`.
    SetSound { x: u8 },
    /// `Fx1E`: `I = I + Vx` modulo 65536; `VF = 1` if the sum left 16 bits.
    AddIndex { x: u8 },
    /// `Fx29`: `I = 5 * Vx`, where the glyph for digit `Vx` starts.
    FontAddress { x: u8 },
    /// `Fx33`: the decimal digits of `Vx` go to memory at `I`, `I+1`, `I+2`.
    /// `I` lies above the font.
    StoreDecimal { x: u8 },
    /// `Fx55`: `V0..=Vx` go to memory at `I..=I+x`. `I` lies above the font.
    StoreRegisters { x: u8 },
    /// `Fx65`: memory at `I..=I+x` goes to `V0..=Vx`.
    LoadRegisters { x: u8 },
}

/// The first nibble of a word: its family.
pub open spec fn family_of(word: u16) -> int {
    word as int / 4096
}

/// The second nibble of a word.
pub open spec fn x_of(word: u16) -> u8 {
    ((word as int / 256) % 16) as u8
}

/// The third nibble of a word.
pub open spec fn y_of(word: u16) -> u8 {
    ((word as int / 16) % 16) as u8
}

/// The fourth nibble of a word.
pub open spec fn n_of(word: u16) -> u8 {
    (word as int % 16) as u8
}

/// The low byte of a word.
pub open spec fn kk_of(word: u16) -> u8 {
    (word as int % 256) as u8
}

/// The low twelve bits of a word.
pub open spec fn addr_of(word: u16) -> u16 {
    (word as int % 4096) as u16
}

impl Instruction {
    /// The fields of the instruction are within their nibbles.
    pub open spec fn wf(self) -> bool {
        match self {
            Instruction::Nop | Instruction::ClearScreen | Instruction::Return => true,
            Instruction::Jump { addr }
            | Instruction::Call { addr }
            | Instruction::LoadIndex { addr }
            | Instruction::JumpOffset { addr } => addr < 4096,
            Instruction::SkipIfEqualByte { x, kk }
            | Instruction::SkipIfNotEqualByte { x, kk }
            | Instruction::LoadByte { x, kk }
            | Instruction::AddByte { x, kk }
            | Instruction::Random { x, kk } => x < 16,
            Instruction::SkipIfEqual { x, y }
            | Instruction::Move { x, y }
            | Instruction::Or { x, y }
            | Instruction::And { x, y }
            | Instruction::Xor { x, y }
            | Instruction::AddCarry { x, y }
            | Instruction::SubBorrow { x, y }
            | Instruction::SubFrom { x, y }
            | Instruction::SkipIfNotEqual { x, y } => x < 16 && y < 16,
            Instruction::Draw { x, y, n } => x < 16 && y < 16 && n < 16,
            Instruction::ShiftRight { x }
            | Instruction::ShiftLeft { x }
            | Instruction::SkipIfKey { x }
            | Instruction::SkipIfNotKey { x }
            | Instruction::ReadDelay { x }
            | Instruction::WaitKey { x }
            | Instruction::SetDelay { x }
            | Instruction::SetSound { x }
            | Instruction::AddIndex { x }
            | Instruction::FontAddress { x }
            | Instruction::StoreDecimal { x }
            | Instruction::StoreRegisters { x }
            | Instruction::LoadRegisters { x } => x < 16,
        }
    }

    /// Whether the fields of the instruction are within their nibbles.
    pub fn well_formed(&self) -> (r: bool)
        ensures
            r == self.wf(),
    {
        match *self {
            Instruction::Nop | Instruction::ClearScreen | Instruction::Return => true,
            Instruction::Jump { addr }
            | Instruction::Call { addr }
            | Instruction::LoadIndex { addr }
            | Instruction::JumpOffset { addr } => addr < 4096,
            Instruction::SkipIfEqualByte { x, kk }
            | Instruction::SkipIfNotEqualByte { x, kk }
            | Instruction::LoadByte { x, kk }
            | Instruction::AddByte { x, kk }
            | Instruction::Random { x, kk } => x < 16,
            Instruction::SkipIfEqual { x, y }
            | Instruction::Move { x, y }
            | Instruction::Or { x, y }
            | Instruction::And { x, y }
            | Instruction::Xor { x, y }
            | Instruction::AddCarry { x, y }
            | Instruction::SubBorrow { x, y }
            | Instruction::SubFrom { x, y }
            | Instruction::SkipIfNotEqual { x, y } => x < 16 && y < 16,
            Instruction::Draw { x, y, n } => x < 16 && y < 16 && n < 16,
            Instruction::ShiftRight { x }
            | Instruction::ShiftLeft { x }
            | Instruction::SkipIfKey { x }
            | Instruction::SkipIfNotKey { x }
            | Instruction::ReadDelay { x }
            | Instruction::WaitKey { x }
            | Instruction::SetDelay { x }
            | Instruction::SetSound { x }
            | Instruction::AddIndex { x }
            | Instruction::FontAddress { x }
            | Instruction::StoreDecimal { x }
            | Instruction::StoreRegisters { x }
            | Instruction::LoadRegisters { x } => x < 16,
        }
    }

    /// The instruction that a word stands for, or `None` where the word
    /// matches no pattern.
    pub open spec fn of_word(word: u16) -> Option<Instruction> {
        let x = x_of(word);
        let y = y_of(word);
        let n = n_of(word);
        let kk = kk_of(word);
        let addr = addr_of(word);
        let family = family_of(word);
        if family == 0x0 {
            if word == 0x0000 {
                Some(Instruction::Nop)
            } else if word == 0x00E0 {
                Some(Instruction::ClearScreen)
            } else if word == 0x00EE {
                Some(Instruction::Return)
            } else {
                None
            }
        } else if family == 0x1 {
            Some(Instruction::Jump { addr })
        } else if family == 0x2 {
            Some(Instruction::Call { addr })
        } else if family == 0x3 {
            Some(Instruction::SkipIfEqualByte { x, kk })
        } else if family == 0x4 {
            Some(Instruction::SkipIfNotEqualByte { x, kk })
        } else if family == 0x5 {
            if n == 0 {
                Some(Instruction::SkipIfEqual { x, y })
            } else {
                None
            }
        } else if family == 0x6 {
            Some(Instruction::LoadByte { x, kk })
        } else if family == 0x7 {
            Some(Instruction::AddByte { x, kk })
        } else if family == 0x8 {
            if n == 0x0 {
                Some(Instruction::Move { x, y })
            } else if n == 0x1 {
                Some(Instruction::Or { x, y })
            } else if n == 0x2 {
                Some(Instruction::And { x, y })
            } else if n == 0x3 {
                Some(Instruction::Xor { x, y })
            } else if n == 0x4 {
                Some(Instruction::AddCarry { x, y })
            } else if n == 0x5 {
                Some(Instruction::SubBorrow { x, y })
            } else if n == 0x6 {
                Some(Instruction::ShiftRight { x })
            } else if n == 0x7 {
                Some(Instruction::SubFrom { x, y })
            } else if n == 0xE {
                Some(Instruction::ShiftLeft { x })
            } else {
                None
            }
        } else if family == 0x9 {
            if n == 0 {
                Some(Instruction::SkipIfNotEqual { x, y })
            } else {
                None
            }
        } else if family == 0xA {
            Some(Instruction::LoadIndex { addr })
        } else if family == 0xB {
            Some(Instruction::JumpOffset { addr })
        } else if family == 0xC {
            Some(Instruction::Random { x, kk })
        } else if family == 0xD {
            Some(Instruction::Draw { x, y, n })
        } else if family == 0xE {
            if kk == 0x9E {
                Some(Instruction::SkipIfKey { x })
            } else if kk == 0xA1 {
                Some(Instruction::SkipIfNotKey { x })
            } else {
                None
            }
        } else {
            if kk == 0x07 {
                Some(Instruction::ReadDelay { x })
            } else if kk == 0x0A {
                Some(Instruction::WaitKey { x })
            } else if kk == 0x15 {
                Some(Instruction::SetDelay { x })
            } else if kk == 0x18 {
                Some(Instruction::SetSound { x })
            } else if kk == 0x1E {
                Some(Instruction::AddIndex { x })
            } else if kk == 0x29 {
                Some(Instruction::FontAddress { x })
            } else if kk == 0x33 {
                Some(Instruction::StoreDecimal { x })
            } else if kk == 0x55 {
                Some(Instruction::StoreRegisters { x })
            } else if kk == 0x65 {
                Some(Instruction::LoadRegisters { x })
            } else {
                None
            }
        }
    }

    /// Decodes one instruction word.
    pub fn parse(word: u16) -> (r: Option<Instruction>)
        ensures
            r == Instruction::of_word(word),
            r matches Some(ins) ==> ins.wf(),
    {
        let family: u16 = (word & 0xF000) >> 12;
        let x: u8 = ((word & 0x0F00) >> 8) as u8;
        let y: u8 = ((word & 0x00F0) >> 4) as u8;
        let n: u8 = (word & 0x000F) as u8;
        let kk: u8 = (word & 0x00FF) as u8;
        let addr: u16 = word & 0x0FFF;
        proof {
            lemma_fields(word);
        }
        match (family, x, y, n) {
            (0, 0, 0, 0) => Some(Instruction::Nop),
            (0, 0, 0xE, 0) => Some(Instruction::ClearScreen),
            (0, 0, 0xE, 0xE) => Some(Instruction::Return),
            (1, _, _, _) => Some(Instruction::Jump { addr }),
            (2, _, _, _) => Some(Instruction::Call { addr }),
            (3, _, _, _) => Some(Instruction::SkipIfEqualByte { x, kk }),
            (4, _, _, _) => Some(Instruction::SkipIfNotEqualByte { x, kk }),
            (5, _, _, 0) => Some(Instruction::SkipIfEqual { x, y }),
            (6, _, _, _) => Some(Instruction::LoadByte { x, kk }),
            (7, _, _, _) => Some(Instruction::AddByte { x, kk }),
            (8, _, _, 0) => Some(Instruction::Move { x, y }),
            (8, _, _, 1) => Some(Instruction::Or { x, y }),
            (8, _, _, 2) => Some(Instruction::And { x, y }),
            (8, _, _, 3) => Some(Instruction::Xor { x, y }),
            (8, _, _, 4) => Some(Instruction::AddCarry { x, y }),
            (8, _, _, 5) => Some(Instruction::SubBorrow { x, y }),
            (8, _, _, 6) => Some(Instruction::ShiftRight { x }),
            (8, _, _, 7) => Some(Instruction::SubFrom { x, y }),
            (8, _, _, 0xE) => Some(Instruction::ShiftLeft { x }),
            (9, _, _, 0) => Some(Instruction::SkipIfNotEqual { x, y }),
            (0xA, _, _, _) => Some(Instruction::LoadIndex { addr }),
            (0xB, _, _, _) => Some(Instruction::JumpOffset { addr }),
            (0xC, _, _, _) => Some(Instruction::Random { x, kk }),
            (0xD, _, _, _) => Some(Instruction::Draw { x, y, n }),
            (0xE, _, 9, 0xE) => Some(Instruction::SkipIfKey { x }),
            (0xE, _, 0xA, 1) => Some(Instruction::SkipIfNotKey { x }),
            (0xF, _, 0, 7) => Some(Instruction::ReadDelay { x }),
            (0xF, _, 0, 0xA) => Some(Instruction::WaitKey { x }),
            (0xF, _, 1, 5) => Some(Instruction::SetDelay { x }),
            (0xF, _, 1, 8) => Some(Instruction::SetSound { x }),
            (0xF, _, 1, 0xE) => Some(Instruction::AddIndex { x }),
            (0xF, _, 2, 9) => Some(Instruction::FontAddress { x }),
            (0xF, _, 3, 3) => Some(Instruction::StoreDecimal { x }),
            (0xF, _, 5, 5) => Some(Instruction::StoreRegisters { x }),
            (0xF, _, 6, 5) => Some(Instruction::LoadRegisters { x }),
            (_, _, _, _) => None,
        }
    }
}

/// Every word that stands for an instruction stands for a well-formed one.
pub proof fn lemma_of_word_wf(word: u16)
    ensures
        Instruction::of_word(word) matches Some(ins) ==> ins.wf(),
{
    lemma_fields(word);
}

/// Masks and shifts read the same nibbles as division and remainder.
proof fn lemma_fields(word: u16)
    ensures
        ((word & 0xF000) >> 12) as int == family_of(word),
        (((word & 0x0F00) >> 8) as u8) == x_of(word),
        (((word & 0x00F0) >> 4) as u8) == y_of(word),
        ((word & 0x000F) as u8) == n_of(word),
        ((word & 0x00FF) as u8) == kk_of(word),
        (word & 0x0FFF) == addr_of(word),
        family_of(word) < 16,
        x_of(word) < 16,
        y_of(word) < 16,
        n_of(word) < 16,
        addr_of(word) < 4096,
        word as int == family_of(word) * 4096 + x_of(word) * 256 + y_of(word) * 16 + n_of(word),
        kk_of(word) as int == y_of(word) * 16 + n_of(word),
{
    assert((word & 0xF000) >> 12 == word / 4096) by (bit_vector);
    assert((word & 0x0F00) >> 8 == (word / 256) % 16) by (bit_vector);
    assert((word & 0x00F0) >> 4 == (word / 16) % 16) by (bit_vector);
    assert(word & 0x000F == word % 16) by (bit_vector);
    assert(word & 0x00FF == word % 256) by (bit_vector);
    assert(word & 0x0FFF == word % 4096) by (bit_vector);
    assert(word == (word / 4096) * 4096 + ((word / 256) % 16) * 256 + ((word / 16) % 16) * 16
        + word % 16) by (bit_vector);
    assert(word % 256 == ((word / 16) % 16) * 16 + word % 16) by (bit_vector);
}

} // verus!
