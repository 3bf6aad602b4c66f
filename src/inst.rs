use vstd::prelude::*;
use crate::mem::{Address, ExecutionError};

verus! {

/// The eight 8-bit registers.
#[derive(Copy, Clone, Debug, PartialEq, Eq, Structural)]
pub enum Register8 {
    A,
    B,
    C,
    D,
    E,
    H,
    L,
    F,
}

/// The 16-bit registers: four pairs of 8-bit registers, SP and PC.
#[derive(Copy, Clone, Debug, PartialEq, Eq, Structural)]
pub enum Register16 {
    AF,
    BC,
    DE,
    HL,
    SP,
    PC,
}

impl Register8 {
    /// The register's lower-case name.
    pub fn name(self) -> (r: &'static str) {
        match self {
            Register8::A => "a",
            Register8::B => "b",
            Register8::C => "c",
            Register8::D => "d",
            Register8::E => "e",
            Register8::F => "f",
            Register8::H => "h",
            Register8::L => "l",
        }
    }
}

impl Register16 {
    /// The register's lower-case name.
    pub fn name(self) -> (r: &'static str) {
        match self {
            Register16::AF => "af",
            Register16::BC => "bc",
            Register16::DE => "de",
            Register16::HL => "hl",
            Register16::SP => "sp",
            Register16::PC => "pc",
        }
    }
}

#[derive(Copy, Clone, Debug, PartialEq, Eq, Structural)]
pub enum Arith {
    IncR(Register8),
    DecR(Register8),
    DecR16(Register16),
    IncR16(Register16),
    AddRR16(Register16, Register16),
}

#[derive(Copy, Clone, Debug, PartialEq, Eq, Structural)]
pub enum Control {
    JrNZI(i8),
    JrNCI(i8),
    JrI(i8),
    JrZI(i8),
    JrCI(i8),
    Ret,
    JpI(Address),
    JpCI(Address),
    JpZI(Address),
    JpNCI(Address),
    JpNZI(Address),
    CallI(Address),
}

#[derive(Copy, Clone, Debug, PartialEq, Eq, Structural)]
pub enum Load {
    LdRM(Register8, Address),
    LdMR(Address, Register8),
    LdRR(Register8, Register8),
    LdRI(Register8, u8),
    LdNA(i8),
    LdAN(i8),
    LdNCA,
    LdANC,
    LdNI(u8),
    LdNR16(Register16),
    LdRN16(Register16),
    LdRI16(Register16, u16),
    LdNIA16(Address),
    LdANI16(Address),
    Pop(Register16),
    Push(Register16),
}

#[derive(Copy, Clone, Debug, PartialEq, Eq, Structural)]
pub enum Logic {
    AndI(u8),
    AndR(Register8),
    AndN,
    OrI(u8),
    OrR(Register8),
    OrN,
    XorR(Register8),
}

/// A decoded instruction.
#[derive(Copy, Clone, Debug, PartialEq, Eq, Structural)]
pub enum Instruction {
    Nop,
    Ei,
    Di,
    Halt,
    Res(u8, Register8),
    CpI(u8),
    CpR(Register8),
    Arith(Arith),
    Control(Control),
    Load(Load),
    Logic(Logic),
}

/// The register of a 3-bit operand field (B, C, D, E, H, L, -, A); field 6 names
/// memory at HL and is decoded elsewhere.
pub open spec fn reg8_of(c: u8) -> Register8 {
    let c = c % 8;
    if c == 0 {
        Register8::B
    } else if c == 1 {
        Register8::C
    } else if c == 2 {
        Register8::D
    } else if c == 3 {
        Register8::E
    } else if c == 4 {
        Register8::H
    } else if c == 5 {
        Register8::L
    } else {
        Register8::A
    }
}

/// The register pair of a 2-bit field: BC, DE, HL, SP.
pub open spec fn pair_of(c: u8) -> Register16 {
    if c == 0 {
        Register16::BC
    } else if c == 1 {
        Register16::DE
    } else if c == 2 {
        Register16::HL
    } else {
        Register16::SP
    }
}

/// The register pair of a 2-bit field in push and pop: BC, DE, HL, AF.
pub open spec fn stack_pair_of(c: u8) -> Register16 {
    if c == 0 {
        Register16::BC
    } else if c == 1 {
        Register16::DE
    } else if c == 2 {
        Register16::HL
    } else {
        Register16::AF
    }
}

/// A byte read as a two's-complement offset.
pub open spec fn signed8(b: u8) -> i8 {
    if b < 128 {
        b as i8
    } else {
        (b - 256) as i8
    }
}

/// A little-endian 16-bit immediate.
pub open spec fn imm16(lo: u8, hi: u8) -> u16 {
    (hi * 256 + lo) as u16
}

fn reg8_from_code(c: u8) -> (r: Register8)
    ensures
        r == reg8_of(c),
{
    let c = c % 8;
    if c == 0 {
        Register8::B
    } else if c == 1 {
        Register8::C
    } else if c == 2 {
        Register8::D
    } else if c == 3 {
        Register8::E
    } else if c == 4 {
        Register8::H
    } else if c == 5 {
        Register8::L
    } else {
        Register8::A
    }
}

fn pair_from_code(c: u8) -> (r: Register16)
    ensures
        r == pair_of(c),
{
    if c == 0 {
        Register16::BC
    } else if c == 1 {
        Register16::DE
    } else if c == 2 {
        Register16::HL
    } else {
        Register16::SP
    }
}

fn stack_pair_from_code(c: u8) -> (r: Register16)
    ensures
        r == stack_pair_of(c),
{
    if c == 0 {
        Register16::BC
    } else if c == 1 {
        Register16::DE
    } else if c == 2 {
        Register16::HL
    } else {
        Register16::AF
    }
}

fn to_signed8(b: u8) -> (r: i8)
    ensures
        r == signed8(b),
{
    if b < 128 {
        b as i8
    } else {
        (b as i16 - 256) as i8
    }
}

fn imm16_from(lo: u8, hi: u8) -> (r: u16)
    ensures
        r == imm16(lo, hi),
{
    (hi as u16) * 256 + (lo as u16)
}

/// The instruction that the bytes `b0 b1 b2` begin with, and its length in bytes.
pub open spec fn decode_spec(b0: u8, b1: u8, b2: u8) -> Result<(Instruction, u8), ExecutionError> {
    match b0 {
        0x00 => Ok((Instruction::Nop, 1u8)),
        0x76 => Ok((Instruction::Halt, 1u8)),
        0xF3 => Ok((Instruction::Di, 1u8)),
        0xFB => Ok((Instruction::Ei, 1u8)),
        0xFE => Ok((Instruction::CpI(b1), 2u8)),
        _ if 0xB8 <= b0 && b0 <= 0xBF && b0 != 0xBE => Ok((Instruction::CpR(reg8_of(b0 % 8)), 1u8)),
        0xCB => if 0x80 <= b1 && b1 < 0xC0 && b1 % 8 != 6 {
            Ok((Instruction::Res(b1 / 8 % 8, reg8_of(b1 % 8)), 2u8))
        } else {
            Err(ExecutionError::DecodeError)
        },
        0x04 | 0x0C | 0x14 | 0x1C | 0x24 | 0x2C | 0x3C => Ok((Instruction::Arith(Arith::IncR(reg8_of(b0 / 8))), 1u8)),
        0x05 | 0x0D | 0x15 | 0x1D | 0x25 | 0x2D | 0x3D => Ok((Instruction::Arith(Arith::DecR(reg8_of(b0 / 8))), 1u8)),
        0x03 | 0x13 | 0x23 | 0x33 => Ok((Instruction::Arith(Arith::IncR16(pair_of(b0 / 16))), 1u8)),
        0x0B | 0x1B | 0x2B | 0x3B => Ok((Instruction::Arith(Arith::DecR16(pair_of(b0 / 16))), 1u8)),
        0x09 | 0x19 | 0x29 | 0x39 => Ok((Instruction::Arith(Arith::AddRR16(Register16::HL, pair_of(b0 / 16))), 1u8)),
        0x18 => Ok((Instruction::Control(Control::JrI(signed8(b1))), 2u8)),
        0x20 => Ok((Instruction::Control(Control::JrNZI(signed8(b1))), 2u8)),
        0x28 => Ok((Instruction::Control(Control::JrZI(signed8(b1))), 2u8)),
        0x30 => Ok((Instruction::Control(Control::JrNCI(signed8(b1))), 2u8)),
        0x38 => Ok((Instruction::Control(Control::JrCI(signed8(b1))), 2u8)),
        0xC3 => Ok((Instruction::Control(Control::JpI(Address(imm16(b1, b2)))), 3u8)),
        0xC2 => Ok((Instruction::Control(Control::JpNZI(Address(imm16(b1, b2)))), 3u8)),
        0xCA => Ok((Instruction::Control(Control::JpZI(Address(imm16(b1, b2)))), 3u8)),
        0xD2 => Ok((Instruction::Control(Control::JpNCI(Address(imm16(b1, b2)))), 3u8)),
        0xDA => Ok((Instruction::Control(Control::JpCI(Address(imm16(b1, b2)))), 3u8)),
        0xCD => Ok((Instruction::Control(Control::CallI(Address(imm16(b1, b2)))), 3u8)),
        0xC9 => Ok((Instruction::Control(Control::Ret), 1u8)),
        0x77 => Ok((Instruction::Load(Load::LdNR16(Register16::HL)), 1u8)),
        0x7E => Ok((Instruction::Load(Load::LdRN16(Register16::HL)), 1u8)),
        _ if 0x40 <= b0 && b0 <= 0x7F && b0 % 8 != 6 && (b0 / 8) % 8 != 6 => Ok((Instruction::Load(Load::LdRR(reg8_of((b0 / 8) % 8), reg8_of(b0 % 8))), 1u8)),
        0x06 | 0x0E | 0x16 | 0x1E | 0x26 | 0x2E | 0x3E => Ok((Instruction::Load(Load::LdRI(reg8_of(b0 / 8), b1)), 2u8)),
        0x01 | 0x11 | 0x21 | 0x31 => Ok((Instruction::Load(Load::LdRI16(pair_of(b0 / 16), imm16(b1, b2))), 3u8)),
        0x36 => Ok((Instruction::Load(Load::LdNI(b1)), 2u8)),
        0x02 => Ok((Instruction::Load(Load::LdNR16(Register16::BC)), 1u8)),
        0x12 => Ok((Instruction::Load(Load::LdNR16(Register16::DE)), 1u8)),
        0x0A => Ok((Instruction::Load(Load::LdRN16(Register16::BC)), 1u8)),
        0x1A => Ok((Instruction::Load(Load::LdRN16(Register16::DE)), 1u8)),
        0x22 => Ok((Instruction::Load(Load::LdNA(1i8)), 1u8)),
        0x32 => Ok((Instruction::Load(Load::LdNA(-1i8)), 1u8)),
        0x2A => Ok((Instruction::Load(Load::LdAN(1i8)), 1u8)),
        0x3A => Ok((Instruction::Load(Load::LdAN(-1i8)), 1u8)),
        0xE2 => Ok((Instruction::Load(Load::LdNCA), 1u8)),
        0xF2 => Ok((Instruction::Load(Load::LdANC), 1u8)),
        0xEA => Ok((Instruction::Load(Load::LdNIA16(Address(imm16(b1, b2)))), 3u8)),
        0xFA => Ok((Instruction::Load(Load::LdANI16(Address(imm16(b1, b2)))), 3u8)),
        0xE0 => Ok((Instruction::Load(Load::LdMR(Address(imm16(b1, 0xFF)), Register8::A)), 2u8)),
        0xF0 => Ok((Instruction::Load(Load::LdRM(Register8::A, Address(imm16(b1, 0xFF)))), 2u8)),
        0xC1 | 0xD1 | 0xE1 | 0xF1 => Ok((Instruction::Load(Load::Pop(stack_pair_of(b0 / 16 % 4))), 1u8)),
        0xC5 | 0xD5 | 0xE5 | 0xF5 => Ok((Instruction::Load(Load::Push(stack_pair_of(b0 / 16 % 4))), 1u8)),
        0xE6 => Ok((Instruction::Logic(Logic::AndI(b1)), 2u8)),
        0xA6 => Ok((Instruction::Logic(Logic::AndN), 1u8)),
        _ if 0xA0 <= b0 && b0 <= 0xA7 => Ok((Instruction::Logic(Logic::AndR(reg8_of(b0 % 8))), 1u8)),
        0xF6 => Ok((Instruction::Logic(Logic::OrI(b1)), 2u8)),
        0xB6 => Ok((Instruction::Logic(Logic::OrN), 1u8)),
        _ if 0xB0 <= b0 && b0 <= 0xB7 => Ok((Instruction::Logic(Logic::OrR(reg8_of(b0 % 8))), 1u8)),
        _ if 0xA8 <= b0 && b0 <= 0xAF && b0 != 0xAE => Ok((Instruction::Logic(Logic::XorR(reg8_of(b0 % 8))), 1u8)),
        _ => Err(ExecutionError::DecodeError),
    }
}

impl Instruction {
    /// Decodes the instruction at the start of a three-byte window.
    pub fn decode(bytes: [u8; 3]) -> (r: Result<(Instruction, u8), ExecutionError>)
        ensures
            r == decode_spec(bytes@[0], bytes@[1], bytes@[2]),
    {
        let b0 = bytes[0];
        let b1 = bytes[1];
        let b2 = bytes[2];
        match b0 {
            0x00 => Ok((Instruction::Nop, 1u8)),
            0x76 => Ok((Instruction::Halt, 1u8)),
            0xF3 => Ok((Instruction::Di, 1u8)),
            0xFB => Ok((Instruction::Ei, 1u8)),
            0xFE => Ok((Instruction::CpI(b1), 2u8)),
            _ if 0xB8 <= b0 && b0 <= 0xBF && b0 != 0xBE => Ok((Instruction::CpR(reg8_from_code(b0 % 8)), 1u8)),
            0xCB => if 0x80 <= b1 && b1 < 0xC0 && b1 % 8 != 6 {
                Ok((Instruction::Res(b1 / 8 % 8, reg8_from_code(b1 % 8)), 2u8))
            } else {
                Err(ExecutionError::DecodeError)
            },
            0x04 | 0x0C | 0x14 | 0x1C | 0x24 | 0x2C | 0x3C => Ok((Instruction::Arith(Arith::IncR(reg8_from_code(b0 / 8))), 1u8)),
            0x05 | 0x0D | 0x15 | 0x1D | 0x25 | 0x2D | 0x3D => Ok((Instruction::Arith(Arith::DecR(reg8_from_code(b0 / 8))), 1u8)),
            0x03 | 0x13 | 0x23 | 0x33 => Ok((Instruction::Arith(Arith::IncR16(pair_from_code(b0 / 16))), 1u8)),
            0x0B | 0x1B | 0x2B | 0x3B => Ok((Instruction::Arith(Arith::DecR16(pair_from_code(b0 / 16))), 1u8)),
            0x09 | 0x19 | 0x29 | 0x39 => Ok((Instruction::Arith(Arith::AddRR16(Register16::HL, pair_from_code(b0 / 16))), 1u8)),
            0x18 => Ok((Instruction::Control(Control::JrI(to_signed8(b1))), 2u8)),
            0x20 => Ok((Instruction::Control(Control::JrNZI(to_signed8(b1))), 2u8)),
            0x28 => Ok((Instruction::Control(Control::JrZI(to_signed8(b1))), 2u8)),
            0x30 => Ok((Instruction::Control(Control::JrNCI(to_signed8(b1))), 2u8)),
            0x38 => Ok((Instruction::Control(Control::JrCI(to_signed8(b1))), 2u8)),
            0xC3 => Ok((Instruction::Control(Control::JpI(Address(imm16_from(b1, b2)))), 3u8)),
            0xC2 => Ok((Instruction::Control(Control::JpNZI(Address(imm16_from(b1, b2)))), 3u8)),
            0xCA => Ok((Instruction::Control(Control::JpZI(Address(imm16_from(b1, b2)))), 3u8)),
            0xD2 => Ok((Instruction::Control(Control::JpNCI(Address(imm16_from(b1, b2)))), 3u8)),
            0xDA => Ok((Instruction::Control(Control::JpCI(Address(imm16_from(b1, b2)))), 3u8)),
            0xCD => Ok((Instruction::Control(Control::CallI(Address(imm16_from(b1, b2)))), 3u8)),
            0xC9 => Ok((Instruction::Control(Control::Ret), 1u8)),
            0x77 => Ok((Instruction::Load(Load::LdNR16(Register16::HL)), 1u8)),
            0x7E => Ok((Instruction::Load(Load::LdRN16(Register16::HL)), 1u8)),
            _ if 0x40 <= b0 && b0 <= 0x7F && b0 % 8 != 6 && (b0 / 8) % 8 != 6 => Ok((Instruction::Load(Load::LdRR(reg8_from_code((b0 / 8) % 8), reg8_from_code(b0 % 8))), 1u8)),
            0x06 | 0x0E | 0x16 | 0x1E | 0x26 | 0x2E | 0x3E => Ok((Instruction::Load(Load::LdRI(reg8_from_code(b0 / 8), b1)), 2u8)),
            0x01 | 0x11 | 0x21 | 0x31 => Ok((Instruction::Load(Load::LdRI16(pair_from_code(b0 / 16), imm16_from(b1, b2))), 3u8)),
            0x36 => Ok((Instruction::Load(Load::LdNI(b1)), 2u8)),
            0x02 => Ok((Instruction::Load(Load::LdNR16(Register16::BC)), 1u8)),
            0x12 => Ok((Instruction::Load(Load::LdNR16(Register16::DE)), 1u8)),
            0x0A => Ok((Instruction::Load(Load::LdRN16(Register16::BC)), 1u8)),
            0x1A => Ok((Instruction::Load(Load::LdRN16(Register16::DE)), 1u8)),
            0x22 => Ok((Instruction::Load(Load::LdNA(1i8)), 1u8)),
            0x32 => Ok((Instruction::Load(Load::LdNA(-1i8)), 1u8)),
            0x2A => Ok((Instruction::Load(Load::LdAN(1i8)), 1u8)),
            0x3A => Ok((Instruction::Load(Load::LdAN(-1i8)), 1u8)),
            0xE2 => Ok((Instruction::Load(Load::LdNCA), 1u8)),
            0xF2 => Ok((Instruction::Load(Load::LdANC), 1u8)),
            0xEA => Ok((Instruction::Load(Load::LdNIA16(Address(imm16_from(b1, b2)))), 3u8)),
            0xFA => Ok((Instruction::Load(Load::LdANI16(Address(imm16_from(b1, b2)))), 3u8)),
            0xE0 => Ok((Instruction::Load(Load::LdMR(Address(imm16_from(b1, 0xFF)), Register8::A)), 2u8)),
            0xF0 => Ok((Instruction::Load(Load::LdRM(Register8::A, Address(imm16_from(b1, 0xFF)))), 2u8)),
            0xC1 | 0xD1 | 0xE1 | 0xF1 => Ok((Instruction::Load(Load::Pop(stack_pair_from_code(b0 / 16 % 4))), 1u8)),
            0xC5 | 0xD5 | 0xE5 | 0xF5 => Ok((Instruction::Load(Load::Push(stack_pair_from_code(b0 / 16 % 4))), 1u8)),
            0xE6 => Ok((Instruction::Logic(Logic::AndI(b1)), 2u8)),
            0xA6 => Ok((Instruction::Logic(Logic::AndN), 1u8)),
            _ if 0xA0 <= b0 && b0 <= 0xA7 => Ok((Instruction::Logic(Logic::AndR(reg8_from_code(b0 % 8))), 1u8)),
            0xF6 => Ok((Instruction::Logic(Logic::OrI(b1)), 2u8)),
            0xB6 => Ok((Instruction::Logic(Logic::OrN), 1u8)),
            _ if 0xB0 <= b0 && b0 <= 0xB7 => Ok((Instruction::Logic(Logic::OrR(reg8_from_code(b0 % 8))), 1u8)),
            _ if 0xA8 <= b0 && b0 <= 0xAF && b0 != 0xAE => Ok((Instruction::Logic(Logic::XorR(reg8_from_code(b0 % 8))), 1u8)),
            _ => Err(ExecutionError::DecodeError),
        }
    }

    /// The cycle cost; for a conditional branch, `taken` tells which cost applies.
    pub open spec fn spec_cycles(self, taken: bool) -> u8 {
        match self {
            Instruction::Nop => 4u8,
            Instruction::Ei => 4u8,
            Instruction::Di => 4u8,
            Instruction::Halt => 4u8,
            Instruction::Res(_, _) => 8u8,
            Instruction::CpI(_) => 8u8,
            Instruction::CpR(_) => 4u8,
            Instruction::Arith(a) => match a {
                Arith::IncR(_) => 4u8,
                Arith::DecR(_) => 4u8,
                _ => 8u8,
            },
            Instruction::Control(c) => match c {
                Control::JrI(_) => 12u8,
                Control::JrNZI(_) | Control::JrZI(_) | Control::JrNCI(_) | Control::JrCI(_) => if taken { 12u8 } else { 8u8 },
                Control::JpI(_) => 16u8,
                Control::JpNZI(_) | Control::JpZI(_) | Control::JpNCI(_) | Control::JpCI(_) => if taken { 16u8 } else { 12u8 },
                Control::CallI(_) => 24u8,
                Control::Ret => 16u8,
            },
            Instruction::Load(l) => match l {
                Load::LdRR(_, _) => 4u8,
                Load::LdRM(_, _) | Load::LdMR(_, _) | Load::LdNI(_) | Load::LdRI16(_, _) | Load::Pop(_) => 12u8,
                Load::LdNIA16(_) | Load::LdANI16(_) | Load::Push(_) => 16u8,
                _ => 8u8,
            },
            Instruction::Logic(l) => match l {
                Logic::AndR(_) | Logic::OrR(_) | Logic::XorR(_) => 4u8,
                _ => 8u8,
            },
        }
    }

    /// The cycle cost; for a conditional branch, `taken` tells which cost applies.
    pub fn cycles(self, taken: bool) -> (r: u8)
        ensures
            r == self.spec_cycles(taken),
            r >= 4,
    {
        match self {
            Instruction::Nop => 4u8,
            Instruction::Ei => 4u8,
            Instruction::Di => 4u8,
            Instruction::Halt => 4u8,
            Instruction::Res(_, _) => 8u8,
            Instruction::CpI(_) => 8u8,
            Instruction::CpR(_) => 4u8,
            Instruction::Arith(a) => match a {
                Arith::IncR(_) => 4u8,
                Arith::DecR(_) => 4u8,
                _ => 8u8,
            },
            Instruction::Control(c) => match c {
                Control::JrI(_) => 12u8,
                Control::JrNZI(_) | Control::JrZI(_) | Control::JrNCI(_) | Control::JrCI(_) => if taken { 12u8 } else { 8u8 },
                Control::JpI(_) => 16u8,
                Control::JpNZI(_) | Control::JpZI(_) | Control::JpNCI(_) | Control::JpCI(_) => if taken { 16u8 } else { 12u8 },
                Control::CallI(_) => 24u8,
                Control::Ret => 16u8,
            },
            Instruction::Load(l) => match l {
                Load::LdRR(_, _) => 4u8,
                Load::LdRM(_, _) | Load::LdMR(_, _) | Load::LdNI(_) | Load::LdRI16(_, _) | Load::Pop(_) => 12u8,
                Load::LdNIA16(_) | Load::LdANI16(_) | Load::Push(_) => 16u8,
                _ => 8u8,
            },
            Instruction::Logic(l) => match l {
                Logic::AndR(_) | Logic::OrR(_) | Logic::XorR(_) => 4u8,
                _ => 8u8,
            },
        }
    }
}

} // verus!
