//! Decoding of raw 16-bit instruction words into a closed set of
//! instruction variants.
//!
//! Operand fields of a word are, counting bits from the least significant
//! end: `x` bits 8-11, `y` bits 4-7, `n` bits 0-3, `nn` bits 0-7 and
//! `nnn` bits 0-11. All fields are extracted arithmetically, so the
//! decoder's specification needs no bit-level reasoning.

use vstd::prelude::*;

verus! {

/// One decoded CHIP-8 instruction. A word matching no pattern decodes to
/// `Unknown`, which carries the raw word so the failure can be reported.
#[derive(Clone, Copy, Debug, PartialEq, Eq, Structural)]
pub enum Instr {
    /// 00E0: clear the framebuffer.
    Cls,
    /// 00EE: return from a subroutine.
    Ret,
    /// 1nnn: jump to address nnn.
    Jump(u16),
    /// 2nnn: call the subroutine at address nnn.
    Call(u16),
    /// 3xnn: skip the next instruction if Vx == nn.
    SkipEqImm(u8, u8),
    /// 4xnn: skip the next instruction if Vx != nn.
    SkipNeImm(u8, u8),
    /// 5xy0: skip the next instruction if Vx == Vy.
    SkipEqReg(u8, u8),
    /// 6xnn: Vx = nn.
    SetImm(u8, u8),
    /// 7xnn: Vx = Vx + nn with 8-bit wraparound; VF untouched.
    AddImm(u8, u8),
    /// 8xy0: Vx = Vy.
    MovReg(u8, u8),
    /// 8xy1: Vx = Vx OR Vy.
    OrReg(u8, u8),
    /// 8xy2: Vx = Vx AND Vy.
    AndReg(u8, u8),
    /// 8xy3: Vx = Vx XOR Vy.
    XorReg(u8, u8),
    /// 8xy4: Vx = Vx + Vy with 8-bit wraparound; VF = carry.
    AddReg(u8, u8),
    /// 8xy5: Vx = Vx - Vy with 8-bit wraparound; VF = 1 when no borrow.
    SubReg(u8, u8),
    /// 8xy6: VF = least significant bit of Vx; Vx = Vx >> 1.
    ShrReg(u8, u8),
    /// 8xy7: Vx = Vy - Vx with 8-bit wraparound; VF = 1 when no borrow.
    SubnReg(u8, u8),
    /// 8xyE: VF = most significant bit of Vx; Vx = Vx << 1, truncated.
    ShlReg(u8, u8),
    /// 9xy0: skip the next instruction if Vx != Vy.
    SkipNeReg(u8, u8),
    /// Annn: I = nnn.
    SetIndex(u16),
    /// Bnnn: jump to address nnn + V0.
    JumpV0(u16),
    /// Cxnn: Vx = random byte AND nn.
    Rand(u8, u8),
    /// Dxyn: draw the n-byte sprite at memory[I..] at (Vx mod 64, Vy mod 32).
    Draw(u8, u8, u8),
    /// Ex9E: skip the next instruction if key Vx mod 16 is pressed.
    SkipKey(u8),
    /// ExA1: skip the next instruction if key Vx mod 16 is not pressed.
    SkipNoKey(u8),
    /// Fx07: Vx = delay timer.
    ReadDelay(u8),
    /// Fx0A: suspend until a key is pressed; store its index in Vx.
    WaitKey(u8),
    /// Fx15: delay timer = Vx.
    SetDelay(u8),
    /// Fx18: sound timer = Vx.
    SetSound(u8),
    /// Fx1E: I = I + Vx, 16-bit wraparound.
    AddIndex(u8),
    /// Fx29: I = address of the built-in font sprite for digit Vx mod 16.
    FontChar(u8),
    /// Fx33: store the three decimal digits of Vx at memory[I..I+3].
    StoreBcd(u8),
    /// Fx55: store V0..Vx inclusive at memory[I..].
    StoreRegs(u8),
    /// Fx65: load V0..Vx inclusive from memory[I..].
    LoadRegs(u8),
    /// A word that matches no opcode pattern.
    Unknown(u16),
}

/// The meaning of a raw instruction word.
pub open spec fn spec_decode(word: u16) -> Instr {
    let fam = word / 4096;
    let x = ((word / 256) % 16) as u8;
    let y = ((word / 16) % 16) as u8;
    let n = (word % 16) as u8;
    let nn = (word % 256) as u8;
    let nnn = word % 4096;
    if word == 0x00E0 {
        Instr::Cls
    } else if word == 0x00EE {
        Instr::Ret
    } else if fam == 0x1 {
        Instr::Jump(nnn)
    } else if fam == 0x2 {
        Instr::Call(nnn)
    } else if fam == 0x3 {
        Instr::SkipEqImm(x, nn)
    } else if fam == 0x4 {
        Instr::SkipNeImm(x, nn)
    } else if fam == 0x5 && n == 0 {
        Instr::SkipEqReg(x, y)
    } else if fam == 0x6 {
        Instr::SetImm(x, nn)
    } else if fam == 0x7 {
        Instr::AddImm(x, nn)
    } else if fam == 0x8 && n == 0x0 {
        Instr::MovReg(x, y)
    } else if fam == 0x8 && n == 0x1 {
        Instr::OrReg(x, y)
    } else if fam == 0x8 && n == 0x2 {
        Instr::AndReg(x, y)
    } else if fam == 0x8 && n == 0x3 {
        Instr::XorReg(x, y)
    } else if fam == 0x8 && n == 0x4 {
        Instr::AddReg(x, y)
    } else if fam == 0x8 && n == 0x5 {
        Instr::SubReg(x, y)
    } else if fam == 0x8 && n == 0x6 {
        Instr::ShrReg(x, y)
    } else if fam == 0x8 && n == 0x7 {
        Instr::SubnReg(x, y)
    } else if fam == 0x8 && n == 0xE {
        Instr::ShlReg(x, y)
    } else if fam == 0x9 && n == 0 {
        Instr::SkipNeReg(x, y)
    } else if fam == 0xA {
        Instr::SetIndex(nnn)
    } else if fam == 0xB {
        Instr::JumpV0(nnn)
    } else if fam == 0xC {
        Instr::Rand(x, nn)
    } else if fam == 0xD {
        Instr::Draw(x, y, n)
    } else if fam == 0xE && nn == 0x9E {
        Instr::SkipKey(x)
    } else if fam == 0xE && nn == 0xA1 {
        Instr::SkipNoKey(x)
    } else if fam == 0xF && nn == 0x07 {
        Instr::ReadDelay(x)
    } else if fam == 0xF && nn == 0x0A {
        Instr::WaitKey(x)
    } else if fam == 0xF && nn == 0x15 {
        Instr::SetDelay(x)
    } else if fam == 0xF && nn == 0x18 {
        Instr::SetSound(x)
    } else if fam == 0xF && nn == 0x1E {
        Instr::AddIndex(x)
    } else if fam == 0xF && nn == 0x29 {
        Instr::FontChar(x)
    } else if fam == 0xF && nn == 0x33 {
        Instr::StoreBcd(x)
    } else if fam == 0xF && nn == 0x55 {
        Instr::StoreRegs(x)
    } else if fam == 0xF && nn == 0x65 {
        Instr::LoadRegs(x)
    } else {
        Instr::Unknown(word)
    }
}

/// Decode a raw instruction word.
pub fn decode(word: u16) -> (i: Instr)
    ensures
        i == spec_decode(word),
{
    let fam = word / 4096;
    let x = ((word / 256) % 16) as u8;
    let y = ((word / 16) % 16) as u8;
    let n = (word % 16) as u8;
    let nn = (word % 256) as u8;
    let nnn = word % 4096;
    if word == 0x00E0 {
        Instr::Cls
    } else if word == 0x00EE {
        Instr::Ret
    } else if fam == 0x1 {
        Instr::Jump(nnn)
    } else if fam == 0x2 {
        Instr::Call(nnn)
    } else if fam == 0x3 {
        Instr::SkipEqImm(x, nn)
    } else if fam == 0x4 {
        Instr::SkipNeImm(x, nn)
    } else if fam == 0x5 && n == 0 {
        Instr::SkipEqReg(x, y)
    } else if fam == 0x6 {
        Instr::SetImm(x, nn)
    } else if fam == 0x7 {
        Instr::AddImm(x, nn)
    } else if fam == 0x8 && n == 0x0 {
        Instr::MovReg(x, y)
    } else if fam == 0x8 && n == 0x1 {
        Instr::OrReg(x, y)
    } else if fam == 0x8 && n == 0x2 {
        Instr::AndReg(x, y)
    } else if fam == 0x8 && n == 0x3 {
        Instr::XorReg(x, y)
    } else if fam == 0x8 && n == 0x4 {
        Instr::AddReg(x, y)
    } else if fam == 0x8 && n == 0x5 {
        Instr::SubReg(x, y)
    } else if fam == 0x8 && n == 0x6 {
        Instr::ShrReg(x, y)
    } else if fam == 0x8 && n == 0x7 {
        Instr::SubnReg(x, y)
    } else if fam == 0x8 && n == 0xE {
        Instr::ShlReg(x, y)
    } else if fam == 0x9 && n == 0 {
        Instr::SkipNeReg(x, y)
    } else if fam == 0xA {
        Instr::SetIndex(nnn)
    } else if fam == 0xB {
        Instr::JumpV0(nnn)
    } else if fam == 0xC {
        Instr::Rand(x, nn)
    } else if fam == 0xD {
        Instr::Draw(x, y, n)
    } else if fam == 0xE && nn == 0x9E {
        Instr::SkipKey(x)
    } else if fam == 0xE && nn == 0xA1 {
        Instr::SkipNoKey(x)
    } else if fam == 0xF && nn == 0x07 {
        Instr::ReadDelay(x)
    } else if fam == 0xF && nn == 0x0A {
        Instr::WaitKey(x)
    } else if fam == 0xF && nn == 0x15 {
        Instr::SetDelay(x)
    } else if fam == 0xF && nn == 0x18 {
        Instr::SetSound(x)
    } else if fam == 0xF && nn == 0x1E {
        Instr::AddIndex(x)
    } else if fam == 0xF && nn == 0x29 {
        Instr::FontChar(x)
    } else if fam == 0xF && nn == 0x33 {
        Instr::StoreBcd(x)
    } else if fam == 0xF && nn == 0x55 {
        Instr::StoreRegs(x)
    } else if fam == 0xF && nn == 0x65 {
        Instr::LoadRegs(x)
    } else {
        Instr::Unknown(word)
    }
}

} // verus!
