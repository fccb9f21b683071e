use vstd::prelude::*;

verus! {

/// A decoded instruction word. `x` and `y` name registers (`0 ..= 15`),
/// `kk` is a byte operand, `nnn` a 12-bit address, `n` a 4-bit count.
#[derive(Clone, Copy, Debug, PartialEq, Eq, Structural)]
pub enum Instruction {
    /// `00E0`: clear the screen.
    ClearScreen,
    /// `00EE`: return from a subroutine.
    Return,
    /// `1nnn`: jump to `nnn`.
    Jump { nnn: u16 },
    /// `2nnn`: call the subroutine at `nnn`.
    Call { nnn: u16 },
    /// `3xkk`: skip the next instruction if `Vx == kk`.
    SkipIfEqualByte { x: u8, kk: u8 },
    /// `4xkk`: skip the next instruction if `Vx != kk`.
    SkipIfNotEqualByte { x: u8, kk: u8 },
    /// `5xy0`: skip the next instruction if `Vx == Vy`.
    SkipIfEqual { x: u8, y: u8 },
    /// `6xkk`: `Vx = kk`.
    LoadByte { x: u8, kk: u8 },
    /// `7xkk`: `Vx = Vx + kk`, wrapping.
    AddByte { x: u8, kk: u8 },
    /// `8xy0`: `Vx = Vy`.
    Move { x: u8, y: u8 },
    /// `8xy1`: `Vx = Vx | Vy`.
    Or { x: u8, y: u8 },
    /// `8xy2`: `Vx = Vx & Vy`.
    And { x: u8, y: u8 },
    /// `8xy3`: `Vx = Vx ^ Vy`.
    Xor { x: u8, y: u8 },
    /// `8xy4`: `Vx = Vx + Vy`, wrapping; `VF` is the carry.
    Add { x: u8, y: u8 },
    /// `8xy5`: `Vx = Vx - Vy`, wrapping; `VF` is the borrow.
    Sub { x: u8, y: u8 },
    /// `8xy6`: `VF` takes the low bit of `Vx`, then `Vx` is shifted right.
    ShiftRight { x: u8 },
    /// `8xy7`: `VF = 1` if `Vx > Vy`, then `Vx = Vy - Vx`, wrapping.
    SubReverse { x: u8, y: u8 },
    /// `8xyE`: `VF` takes the high bit of `Vx`, then `Vx` is shifted left.
    ShiftLeft { x: u8 },
    /// `9xy0`: skip the next instruction if `Vx != Vy`.
    SkipIfNotEqual { x: u8, y: u8 },
    /// `Annn`: `I = nnn`.
    LoadIndex { nnn: u16 },
    /// `Cxkk`: `Vx` from a random byte, masked by the high nibble of `kk`,
    /// with the low nibble of `kk` set.
    Random { x: u8, kk: u8 },
    /// `Dxyn`: draw the `n`-row sprite at `I` at (`Vx`, `Vy`); `VF` reports a collision.
    Draw { x: u8, y: u8, n: u8 },
    /// `Ex9E`: skip the next instruction if the key `Vx` is pressed.
    SkipIfKey { x: u8 },
    /// `ExA1`: skip the next instruction if the key `Vx` is not pressed.
    SkipIfNotKey { x: u8 },
    /// `Fx07`: `Vx` = delay timer.
    LoadDelayTimer { x: u8 },
    /// `Fx0A`: `Vx` = the highest pressed key, if any key is pressed.
    LoadKey { x: u8 },
    /// `Fx15`: delay timer = `Vx`.
    SetDelayTimer { x: u8 },
    /// `Fx18`: sound timer = `Vx`.
    SetSoundTimer { x: u8 },
    /// `Fx1E`: `I = I + Vx`.
    AddIndex { x: u8 },
    /// `Fx29`: `I` = address of the font glyph of `Vx`.
    LoadGlyph { x: u8 },
    /// `Fx33`: store the decimal digits of `Vx` at `I`, `I + 1`, `I + 2`.
    StoreDecimal { x: u8 },
    /// `Fx55`: store `V0` .. `V(x-1)` at `I` onwards.
    StoreRegisters { x: u8 },
    /// `Fx65`: load `V0` .. `Vx` from `I` onwards.
    LoadRegisters { x: u8 },
    /// Any other word: execution stops.
    Unknown,
}

/// The four hexadecimal digits of an instruction word, most significant first.
pub open spec fn nibbles(op: u16) -> (int, int, int, int) {
    ((op / 4096) as int, ((op / 256) % 16) as int, ((op / 16) % 16) as int, (op % 16) as int)
}

/// The instruction that the word `op` encodes.
pub open spec fn decode_spec(op: u16) -> Instruction {
    let (a, b, c, d) = nibbles(op);
    let x = b as u8;
    let y = c as u8;
    let kk = (op % 256) as u8;
    let nnn = (op % 4096) as u16;
    if a == 0x0 {
        if op == 0x00E0 {
            Instruction::ClearScreen
        } else if op == 0x00EE {
            Instruction::Return
        } else {
            Instruction::Unknown
        }
    } else if a == 0x1 {
        Instruction::Jump { nnn }
    } else if a == 0x2 {
        Instruction::Call { nnn }
    } else if a == 0x3 {
        Instruction::SkipIfEqualByte { x, kk }
    } else if a == 0x4 {
        Instruction::SkipIfNotEqualByte { x, kk }
    } else if a == 0x5 {
        if d == 0 {
            Instruction::SkipIfEqual { x, y }
        } else {
            Instruction::Unknown
        }
    } else if a == 0x6 {
        Instruction::LoadByte { x, kk }
    } else if a == 0x7 {
        Instruction::AddByte { x, kk }
    } else if a == 0x8 {
        if d == 0x0 {
            Instruction::Move { x, y }
        } else if d == 0x1 {
            Instruction::Or { x, y }
        } else if d == 0x2 {
            Instruction::And { x, y }
        } else if d == 0x3 {
            Instruction::Xor { x, y }
        } else if d == 0x4 {
            Instruction::Add { x, y }
        } else if d == 0x5 {
            Instruction::Sub { x, y }
        } else if d == 0x6 {
            Instruction::ShiftRight { x }
        } else if d == 0x7 {
            Instruction::SubReverse { x, y }
        } else if d == 0xE {
            Instruction::ShiftLeft { x }
        } else {
            Instruction::Unknown
        }
    } else if a == 0x9 {
        if d == 0 {
            Instruction::SkipIfNotEqual { x, y }
        } else {
            Instruction::Unknown
        }
    } else if a == 0xA {
        Instruction::LoadIndex { nnn }
    } else if a == 0xC {
        Instruction::Random { x, kk }
    } else if a == 0xD {
        Instruction::Draw { x, y, n: d as u8 }
    } else if a == 0xE {
        if kk == 0x9E {
            Instruction::SkipIfKey { x }
        } else if kk == 0xA1 {
            Instruction::SkipIfNotKey { x }
        } else {
            Instruction::Unknown
        }
    } else if a == 0xF {
        if kk == 0x07 {
            Instruction::LoadDelayTimer { x }
        } else if kk == 0x0A {
            Instruction::LoadKey { x }
        } else if kk == 0x15 {
            Instruction::SetDelayTimer { x }
        } else if kk == 0x18 {
            Instruction::SetSoundTimer { x }
        } else if kk == 0x1E {
            Instruction::AddIndex { x }
        } else if kk == 0x29 {
            Instruction::LoadGlyph { x }
        } else if kk == 0x33 {
            Instruction::StoreDecimal { x }
        } else if kk == 0x55 {
            Instruction::StoreRegisters { x }
        } else if kk == 0x65 {
            Instruction::LoadRegisters { x }
        } else {
            Instruction::Unknown
        }
    } else {
        Instruction::Unknown
    }
}

/// Splits an instruction word into its four hexadecimal digits, most significant first.
pub fn split_nibbles(op: u16) -> (digits: (u16, u16, u16, u16))
    ensures
        digits.0 as int == nibbles(op).0,
        digits.1 as int == nibbles(op).1,
        digits.2 as int == nibbles(op).2,
        digits.3 as int == nibbles(op).3,
{
    let op_1 = (op & 0xF000) >> 12;
    let op_2 = (op & 0x0F00) >> 8;
    let op_3 = (op & 0x00F0) >> 4;
    let op_4 = op & 0x000F;
    assert(op_1 == op / 4096 && op_2 == (op / 256) % 16 && op_3 == (op / 16) % 16
        && op_4 == op % 16) by (bit_vector)
        requires
            op_1 == (op & 0xF000) >> 12,
            op_2 == (op & 0x0F00) >> 8,
            op_3 == (op & 0x00F0) >> 4,
            op_4 == op & 0x000F,
    ;
    (op_1, op_2, op_3, op_4)
}

/// Decodes an instruction word.
pub fn decode(op: u16) -> (ins: Instruction)
    ensures
        ins == decode_spec(op),
{
    let (op_1, op_2, op_3, op_4) = split_nibbles(op);
    let x = op_2 as u8;
    let y = op_3 as u8;
    let kk = (op_3 * 16 + op_4) as u8;
    let nnn = op_2 * 256 + op_3 * 16 + op_4;
    assert(kk == op % 256 && nnn == op % 4096);
    match (op_1, op_2, op_3, op_4) {
        (0x0, 0x0, 0xE, 0x0) => Instruction::ClearScreen,
        (0x0, 0x0, 0xE, 0xE) => Instruction::Return,
        (0x1, _, _, _) => Instruction::Jump { nnn },
        (0x2, _, _, _) => Instruction::Call { nnn },
        (0x3, _, _, _) => Instruction::SkipIfEqualByte { x, kk },
        (0x4, _, _, _) => Instruction::SkipIfNotEqualByte { x, kk },
        (0x5, _, _, 0x0) => Instruction::SkipIfEqual { x, y },
        (0x6, _, _, _) => Instruction::LoadByte { x, kk },
        (0x7, _, _, _) => Instruction::AddByte { x, kk },
        (0x8, _, _, 0x0) => Instruction::Move { x, y },
        (0x8, _, _, 0x1) => Instruction::Or { x, y },
        (0x8, _, _, 0x2) => Instruction::And { x, y },
        (0x8, _, _, 0x3) => Instruction::Xor { x, y },
        (0x8, _, _, 0x4) => Instruction::Add { x, y },
        (0x8, _, _, 0x5) => Instruction::Sub { x, y },
        (0x8, _, _, 0x6) => Instruction::ShiftRight { x },
        (0x8, _, _, 0x7) => Instruction::SubReverse { x, y },
        (0x8, _, _, 0xE) => Instruction::ShiftLeft { x },
        (0x9, _, _, 0x0) => Instruction::SkipIfNotEqual { x, y },
        (0xA, _, _, _) => Instruction::LoadIndex { nnn },
        (0xC, _, _, _) => Instruction::Random { x, kk },
        (0xD, _, _, _) => Instruction::Draw { x, y, n: op_4 as u8 },
        (0xE, _, 0x9, 0xE) => Instruction::SkipIfKey { x },
        (0xE, _, 0xA, 0x1) => Instruction::SkipIfNotKey { x },
        (0xF, _, 0x0, 0x7) => Instruction::LoadDelayTimer { x },
        (0xF, _, 0x0, 0xA) => Instruction::LoadKey { x },
        (0xF, _, 0x1, 0x5) => Instruction::SetDelayTimer { x },
        (0xF, _, 0x1, 0x8) => Instruction::SetSoundTimer { x },
        (0xF, _, 0x1, 0xE) => Instruction::AddIndex { x },
        (0xF, _, 0x2, 0x9) => Instruction::LoadGlyph { x },
        (0xF, _, 0x3, 0x3) => Instruction::StoreDecimal { x },
        (0xF, _, 0x5, 0x5) => Instruction::StoreRegisters { x },
        (0xF, _, 0x6, 0x5) => Instruction::LoadRegisters { x },
        (_, _, _, _) => Instruction::Unknown,
    }
}

} // verus!
