//! Instruction decoding: a 16-bit big-endian opcode word to a tagged instruction.
use vstd::prelude::*;

verus! {

/// The word formed by two consecutive memory bytes, high byte first.
pub open spec fn word_of(hi: u8, lo: u8) -> u16 {
    (hi as int * 256 + lo as int) as u16
}

/// Combines the byte at an instruction address and the one after it into an opcode word.
pub fn opcode_word(hi: u8, lo: u8) -> (r: u16)
    ensures
        r == word_of(hi, lo),
        r as int == hi as int * 256 + lo as int,
{
    (hi as u16) * 256 + (lo as u16)
}

/// The raw bit fields of an opcode word.
#[derive(Clone, Copy, Debug, PartialEq, Eq, Structural)]
pub struct Fields {
    /// Low 12 bits: jump and call targets, address loads.
    pub addr12: u16,
    /// Bits 8 to 11: a register index.
    pub x: u8,
    /// Bits 4 to 7: a register index.
    pub y: u8,
    /// Low 8 bits.
    pub immediate8: u8,
    /// Low 4 bits.
    pub nibble4: u8,
    /// Bits 12 to 15: the leading nibble that selects the opcode family.
    pub family: u8,
}

pub open spec fn family_of(w: u16) -> u8 {
    (w / 4096) as u8
}

pub open spec fn x_of(w: u16) -> u8 {
    ((w / 256) % 16) as u8
}

pub open spec fn y_of(w: u16) -> u8 {
    ((w / 16) % 16) as u8
}

pub open spec fn addr12_of(w: u16) -> u16 {
    w % 4096
}

pub open spec fn imm8_of(w: u16) -> u8 {
    (w % 256) as u8
}

pub open spec fn nibble4_of(w: u16) -> u8 {
    (w % 16) as u8
}

/// Splits an opcode word into its bit fields.
pub fn fields(word: u16) -> (r: Fields)
    ensures
        r.addr12 == addr12_of(word),
        r.x == x_of(word),
        r.y == y_of(word),
        r.immediate8 == imm8_of(word),
        r.nibble4 == nibble4_of(word),
        r.family == family_of(word),
        r.x < 16 && r.y < 16 && r.nibble4 < 16 && r.family < 16 && r.addr12 < 4096,
{
    Fields {
        addr12: word % 4096,
        x: ((word / 256) % 16) as u8,
        y: ((word / 16) % 16) as u8,
        immediate8: (word % 256) as u8,
        nibble4: (word % 16) as u8,
        family: (word / 4096) as u8,
    }
}

/// One variant per instruction family. Register indices are below 16 and
/// addresses below 4096 for every value that `decode` produces.
#[derive(Clone, Copy, Debug, PartialEq, Eq, Structural)]
pub enum Instruction {
    /// 00E0
    Clear,
    /// 00EE
    Return,
    /// 1nnn
    Jump { addr: u16 },
    /// 2nnn
    Call { addr: u16 },
    /// 3xkk
    SkipEqImm { x: u8, kk: u8 },
    /// 4xkk
    SkipNeImm { x: u8, kk: u8 },
    /// 5xy0
    SkipEqReg { x: u8, y: u8 },
    /// 6xkk
    LoadImm { x: u8, kk: u8 },
    /// 7xkk
    AddImm { x: u8, kk: u8 },
    /// 8xy0
    LoadReg { x: u8, y: u8 },
    /// 8xy1
    Or { x: u8, y: u8 },
    /// 8xy2
    And { x: u8, y: u8 },
    /// 8xy3
    Xor { x: u8, y: u8 },
    /// 8xy4
    AddCarry { x: u8, y: u8 },
    /// 8xy5
    Sub { x: u8, y: u8 },
    /// 8xy6
    ShiftRight { x: u8 },
    /// 8xy7
    SubReverse { x: u8, y: u8 },
    /// 8xyE
    ShiftLeft { x: u8 },
    /// 9xy0
    SkipNeReg { x: u8, y: u8 },
    /// Annn
    LoadAddr { addr: u16 },
    /// Cxkk
    Random { x: u8, kk: u8 },
    /// Dxyn
    Draw { x: u8, y: u8, n: u8 },
    /// Ex9E
    SkipKey { x: u8 },
    /// ExA1
    SkipNoKey { x: u8 },
    /// Fx07
    LoadDelay { x: u8 },
    /// Fx15
    SetDelay { x: u8 },
    /// Fx18
    SetSound { x: u8 },
    /// Fx1E
    AddAddr { x: u8 },
    /// Fx29
    FontAddr { x: u8 },
    /// Fx33
    StoreBcd { x: u8 },
    /// Fx55
    StoreRegs { x: u8 },
    /// Fx65
    LoadRegs { x: u8 },
    /// Any word that matches no family above.
    Unknown { word: u16 },
}

/// The instruction an opcode word encodes, selected by its four nibbles.
pub open spec fn instruction_of(w: u16) -> Instruction {
    let f = family_of(w);
    let x = x_of(w);
    let y = y_of(w);
    let n = nibble4_of(w);
    let kk = imm8_of(w);
    let nnn = addr12_of(w);
    if w == 0x00E0 {
        Instruction::Clear
    } else if w == 0x00EE {
        Instruction::Return
    } else if f == 1 {
        Instruction::Jump { addr: nnn }
    } else if f == 2 {
        Instruction::Call { addr: nnn }
    } else if f == 3 {
        Instruction::SkipEqImm { x, kk }
    } else if f == 4 {
        Instruction::SkipNeImm { x, kk }
    } else if f == 5 && n == 0 {
        Instruction::SkipEqReg { x, y }
    } else if f == 6 {
        Instruction::LoadImm { x, kk }
    } else if f == 7 {
        Instruction::AddImm { x, kk }
    } else if f == 8 && n == 0 {
        Instruction::LoadReg { x, y }
    } else if f == 8 && n == 1 {
        Instruction::Or { x, y }
    } else if f == 8 && n == 2 {
        Instruction::And { x, y }
    } else if f == 8 && n == 3 {
        Instruction::Xor { x, y }
    } else if f == 8 && n == 4 {
        Instruction::AddCarry { x, y }
    } else if f == 8 && n == 5 {
        Instruction::Sub { x, y }
    } else if f == 8 && n == 6 {
        Instruction::ShiftRight { x }
    } else if f == 8 && n == 7 {
        Instruction::SubReverse { x, y }
    } else if f == 8 && n == 0xE {
        Instruction::ShiftLeft { x }
    } else if f == 9 && n == 0 {
        Instruction::SkipNeReg { x, y }
    } else if f == 0xA {
        Instruction::LoadAddr { addr: nnn }
    } else if f == 0xC {
        Instruction::Random { x, kk }
    } else if f == 0xD {
        Instruction::Draw { x, y, n }
    } else if f == 0xE && kk == 0x9E {
        Instruction::SkipKey { x }
    } else if f == 0xE && kk == 0xA1 {
        Instruction::SkipNoKey { x }
    } else if f == 0xF && kk == 0x07 {
        Instruction::LoadDelay { x }
    } else if f == 0xF && kk == 0x15 {
        Instruction::SetDelay { x }
    } else if f == 0xF && kk == 0x18 {
        Instruction::SetSound { x }
    } else if f == 0xF && kk == 0x1E {
        Instruction::AddAddr { x }
    } else if f == 0xF && kk == 0x29 {
        Instruction::FontAddr { x }
    } else if f == 0xF && kk == 0x33 {
        Instruction::StoreBcd { x }
    } else if f == 0xF && kk == 0x55 {
        Instruction::StoreRegs { x }
    } else if f == 0xF && kk == 0x65 {
        Instruction::LoadRegs { x }
    } else {
        Instruction::Unknown { word: w }
    }
}

/// Decodes an opcode word. Pure: it reads nothing but the word.
pub fn decode(word: u16) -> (r: Instruction)
    ensures
        r == instruction_of(word),
{
    let fl = fields(word);
    let x = fl.x;
    let y = fl.y;
    let kk = fl.immediate8;
    let nnn = fl.addr12;
    match (fl.family, fl.nibble4) {
        (0x0, _) => {
            if word == 0x00E0 {
                Instruction::Clear
            } else if word == 0x00EE {
                Instruction::Return
            } else {
                Instruction::Unknown { word }
            }
        },
        (0x1, _) => Instruction::Jump { addr: nnn },
        (0x2, _) => Instruction::Call { addr: nnn },
        (0x3, _) => Instruction::SkipEqImm { x, kk },
        (0x4, _) => Instruction::SkipNeImm { x, kk },
        (0x5, 0x0) => Instruction::SkipEqReg { x, y },
        (0x6, _) => Instruction::LoadImm { x, kk },
        (0x7, _) => Instruction::AddImm { x, kk },
        (0x8, 0x0) => Instruction::LoadReg { x, y },
        (0x8, 0x1) => Instruction::Or { x, y },
        (0x8, 0x2) => Instruction::And { x, y },
        (0x8, 0x3) => Instruction::Xor { x, y },
        (0x8, 0x4) => Instruction::AddCarry { x, y },
        (0x8, 0x5) => Instruction::Sub { x, y },
        (0x8, 0x6) => Instruction::ShiftRight { x },
        (0x8, 0x7) => Instruction::SubReverse { x, y },
        (0x8, 0xE) => Instruction::ShiftLeft { x },
        (0x9, 0x0) => Instruction::SkipNeReg { x, y },
        (0xA, _) => Instruction::LoadAddr { addr: nnn },
        (0xC, _) => Instruction::Random { x, kk },
        (0xD, _) => Instruction::Draw { x, y, n: fl.nibble4 },
        (0xE, _) => {
            if kk == 0x9E {
                Instruction::SkipKey { x }
            } else if kk == 0xA1 {
                Instruction::SkipNoKey { x }
            } else {
                Instruction::Unknown { word }
            }
        },
        (0xF, _) => {
            if kk == 0x07 {
                Instruction::LoadDelay { x }
            } else if kk == 0x15 {
                Instruction::SetDelay { x }
            } else if kk == 0x18 {
                Instruction::SetSound { x }
            } else if kk == 0x1E {
                Instruction::AddAddr { x }
            } else if kk == 0x29 {
                Instruction::FontAddr { x }
            } else if kk == 0x33 {
                Instruction::StoreBcd { x }
            } else if kk == 0x55 {
                Instruction::StoreRegs { x }
            } else if kk == 0x65 {
                Instruction::LoadRegs { x }
            } else {
                Instruction::Unknown { word }
            }
        },
        _ => Instruction::Unknown { word },
    }
}

} // verus!
