//! The instruction set and its decoder.
//!
//! An instruction is encoded in sixteen bits. The top four bits name a
//! family; within some families the low four or eight bits select the
//! instruction. The operands stand at fixed places: a register in bits 8 to
//! 11, a second register in bits 4 to 7, and below them a four-bit length, an
//! eight-bit literal or a twelve-bit address.

use vstd::prelude::*;
use vstd::string::StringExecFns;
use crate::hex::to_upper_hex;
use crate::hex::upper_hex;
use crate::register::Register;
use crate::register::RegisterParseError;
use crate::register::register_at;

verus! {

/// All the instructions of the architecture.
#[derive(Copy, Clone, Debug, PartialEq, Eq, Structural)]
pub enum Instruction {
    /// Jump to a machine code routine at the address. Only the first
    /// interpreters ran such routines.
    Sys { addr: u16 },
    /// Clear the display.
    Clr,
    /// Return from a subroutine: take the address on top of the stack as the
    /// program counter.
    Ret,
    /// Jump to the address.
    Jmp { addr: u16 },
    /// Call the subroutine at the address.
    Call { addr: u16 },
    /// Skip the next instruction if the register holds the value.
    SeImm { register: Register, value: u8 },
    /// Skip the next instruction if the register does not hold the value.
    SneImm { register: Register, value: u8 },
    /// Skip the next instruction if the two registers hold the same value.
    SeReg { reg1: Register, reg2: Register },
    /// Load the value into the register.
    LdImm { register: Register, value: u8 },
    /// Add the value to the register, wrapping, without touching the flag.
    AddImm { register: Register, value: u8 },
    /// Copy the source register into the destination.
    LdReg { dest: Register, src: Register },
    /// Bitwise OR of both registers, into the destination.
    Or { dest: Register, src: Register },
    /// Bitwise AND of both registers, into the destination.
    And { dest: Register, src: Register },
    /// Bitwise XOR of both registers, into the destination.
    Xor { dest: Register, src: Register },
    /// Add the source to the destination, wrapping. VF becomes 1 if the sum
    /// exceeds 255, else 0.
    AddReg { dest: Register, src: Register },
    /// Subtract the source from the destination, wrapping. VF becomes 1 if
    /// nothing was borrowed, else 0.
    Sub { dest: Register, src: Register },
    /// Shift the source right by one bit, into the destination. VF becomes
    /// the bit shifted out.
    Shr { dest: Register, src: Register },
    /// Subtract the destination from the source, wrapping, into the
    /// destination. VF becomes 1 if nothing was borrowed, else 0.
    SubNeg { dest: Register, src: Register },
    /// Shift the source left by one bit, into the destination. VF becomes
    /// the source's top bit, left in its place.
    Shl { dest: Register, src: Register },
    /// Skip the next instruction if the two registers differ.
    SneReg { reg1: Register, reg2: Register },
    /// Set the address register to the address.
    LdAddr { addr: u16 },
    /// Jump to the address plus the value of V0.
    JmpOff { base_addr: u16 },
    /// Store a random byte, masked by bitwise AND, in the register.
    Rnd { register: Register, mask: u8 },
    /// Draw the sprite of `length` rows found at the address register, at the
    /// place that the two registers give.
    Drw { x: Register, y: Register, length: u8 },
    /// Skip the next instruction if the key whose value is in the register is
    /// pressed.
    Skp { keycode: Register },
    /// Skip the next instruction if the key whose value is in the register is
    /// not pressed.
    SkpNeg { keycode: Register },
    /// Store the delay timer in the register.
    ReadDelay { register: Register },
    /// Wait for a key press, then store the key's value in the register.
    LdKey { register: Register },
    /// Set the delay timer to the register's value.
    StrDelay { register: Register },
    /// Set the sound timer to the register's value.
    StrSound { register: Register },
    /// Add the register's value to the address register.
    AddAddr { register: Register },
    /// Set the address register to where the sprite of the hexadecimal digit
    /// in the register lies.
    LdDigit { register: Register },
    /// Store the register's value in decimal at the address register:
    /// hundreds, tens, ones, a byte each.
    LdBcd { register: Register },
    /// Store the registers from V0 up to and including `end` in memory at the
    /// address register.
    StrArray { end: Register },
    /// Load the registers from V0 up to and including `end` from memory at
    /// the address register.
    LdArray { end: Register },
}

/// Why a word could not be decoded.
#[derive(Copy, Clone, Debug, PartialEq, Eq, Structural)]
pub enum DecodeErrorKind {
    /// The word encodes no instruction of the architecture.
    IllegalOpCode,
    /// An operand names a register that does not exist.
    RegisterDecodeError { register_error: RegisterParseError },
}

/// The error of decoding an instruction.
#[derive(Copy, Clone, Debug, PartialEq, Eq, Structural)]
pub struct DecodeInstructionError {
    /// The word that was being decoded.
    pub instr: u16,
    /// What was wrong with it.
    pub error_kind: DecodeErrorKind,
}

impl DecodeInstructionError {
    /// The error of decoding `instr` where `register_error` came up for one
    /// of its operands.
    pub fn from_register_decode(instr: u16, register_error: RegisterParseError) -> (e:
        DecodeInstructionError)
        ensures
            e.instr == instr,
            e.error_kind == (DecodeErrorKind::RegisterDecodeError { register_error }),
    {
        DecodeInstructionError {
            instr,
            error_kind: DecodeErrorKind::RegisterDecodeError { register_error },
        }
    }

    /// The error of decoding `instr` where it encodes no instruction.
    pub fn illegal_opcode(instr: u16) -> (e: DecodeInstructionError)
        ensures
            e.instr == instr,
            e.error_kind == DecodeErrorKind::IllegalOpCode,
    {
        DecodeInstructionError { instr, error_kind: DecodeErrorKind::IllegalOpCode }
    }
}

impl DecodeInstructionError {
    /// What the error says, in words: the message of the register's error,
    /// or that the opcode is illegal, with the word in hexadecimal.
    pub open spec fn spec_message(self) -> Seq<char> {
        match self.error_kind {
            DecodeErrorKind::RegisterDecodeError { register_error } => {
                register_error.spec_message()
            },
            DecodeErrorKind::IllegalOpCode => "illegal opcode: "@ + upper_hex(self.instr as nat),
        }
    }

    /// The error in words.
    pub fn message(&self) -> (text: String)
        ensures
            text@ == self.spec_message(),
    {
        match self.error_kind {
            DecodeErrorKind::RegisterDecodeError { register_error } => register_error.message(),
            DecodeErrorKind::IllegalOpCode => {
                let mut text = String::from_str("illegal opcode: ");
                let word = to_upper_hex(self.instr);
                text.append(word.as_str());
                text
            },
        }
    }
}

/// The family of a word: its top four bits.
pub open spec fn family(word: u16) -> int {
    word as int / 4096
}

/// The register named in bits 8 to 11.
pub open spec fn operand_x(word: u16) -> Register {
    register_at((word as int / 256) % 16)
}

/// The register named in bits 4 to 7.
pub open spec fn operand_y(word: u16) -> Register {
    register_at((word as int / 16) % 16)
}

/// The low four bits.
pub open spec fn operand_nibble(word: u16) -> u8 {
    (word as int % 16) as u8
}

/// The low eight bits.
pub open spec fn operand_byte(word: u16) -> u8 {
    (word as int % 256) as u8
}

/// The low twelve bits.
pub open spec fn operand_addr(word: u16) -> u16 {
    (word as int % 4096) as u16
}

/// The instruction of family 8 that `word` encodes: the low four bits select.
pub open spec fn decoded_arithmetic(word: u16) -> Option<Instruction> {
    let dest = operand_x(word);
    let src = operand_y(word);
    let selector = operand_nibble(word);
    if selector == 0x0 {
        Some(Instruction::LdReg { dest, src })
    } else if selector == 0x1 {
        Some(Instruction::Or { dest, src })
    } else if selector == 0x2 {
        Some(Instruction::And { dest, src })
    } else if selector == 0x3 {
        Some(Instruction::Xor { dest, src })
    } else if selector == 0x4 {
        Some(Instruction::AddReg { dest, src })
    } else if selector == 0x5 {
        Some(Instruction::Sub { dest, src })
    } else if selector == 0x6 {
        Some(Instruction::Shr { dest, src })
    } else if selector == 0x7 {
        Some(Instruction::SubNeg { dest, src })
    } else if selector == 0xE {
        Some(Instruction::Shl { dest, src })
    } else {
        None
    }
}

/// The instruction of family F that `word` encodes: the low byte selects.
pub open spec fn decoded_system(word: u16) -> Option<Instruction> {
    let register = operand_x(word);
    let selector = operand_byte(word);
    if selector == 0x07 {
        Some(Instruction::ReadDelay { register })
    } else if selector == 0x0A {
        Some(Instruction::LdKey { register })
    } else if selector == 0x15 {
        Some(Instruction::StrDelay { register })
    } else if selector == 0x18 {
        Some(Instruction::StrSound { register })
    } else if selector == 0x1E {
        Some(Instruction::AddAddr { register })
    } else if selector == 0x29 {
        Some(Instruction::LdDigit { register })
    } else if selector == 0x33 {
        Some(Instruction::LdBcd { register })
    } else if selector == 0x55 {
        Some(Instruction::StrArray { end: register })
    } else if selector == 0x65 {
        Some(Instruction::LdArray { end: register })
    } else {
        None
    }
}

/// The instruction that `word` encodes, if it encodes one.
pub open spec fn decoded(word: u16) -> Option<Instruction> {
    let f = family(word);
    let x = operand_x(word);
    let y = operand_y(word);
    let byte = operand_byte(word);
    let addr = operand_addr(word);
    if f == 0x0 {
        if word == 0x00E0 {
            Some(Instruction::Clr)
        } else if word == 0x00EE {
            Some(Instruction::Ret)
        } else {
            Some(Instruction::Sys { addr })
        }
    } else if f == 0x1 {
        Some(Instruction::Jmp { addr })
    } else if f == 0x2 {
        Some(Instruction::Call { addr })
    } else if f == 0x3 {
        Some(Instruction::SeImm { register: x, value: byte })
    } else if f == 0x4 {
        Some(Instruction::SneImm { register: x, value: byte })
    } else if f == 0x5 {
        if operand_nibble(word) == 0 {
            Some(Instruction::SeReg { reg1: x, reg2: y })
        } else {
            None
        }
    } else if f == 0x6 {
        Some(Instruction::LdImm { register: x, value: byte })
    } else if f == 0x7 {
        Some(Instruction::AddImm { register: x, value: byte })
    } else if f == 0x8 {
        decoded_arithmetic(word)
    } else if f == 0x9 {
        if operand_nibble(word) == 0 {
            Some(Instruction::SneReg { reg1: x, reg2: y })
        } else {
            None
        }
    } else if f == 0xA {
        Some(Instruction::LdAddr { addr })
    } else if f == 0xB {
        Some(Instruction::JmpOff { base_addr: addr })
    } else if f == 0xC {
        Some(Instruction::Rnd { register: x, mask: byte })
    } else if f == 0xD {
        Some(Instruction::Drw { x, y, length: operand_nibble(word) })
    } else if f == 0xE {
        if byte == 0x9E {
            Some(Instruction::Skp { keycode: x })
        } else if byte == 0xA1 {
            Some(Instruction::SkpNeg { keycode: x })
        } else {
            None
        }
    } else {
        decoded_system(word)
    }
}

/// What `decode` returns for `word`: the instruction it encodes, or the
/// error of an illegal opcode, which carries the word.
pub open spec fn decode_result(word: u16) -> Result<Instruction, DecodeInstructionError> {
    match decoded(word) {
        Some(instruction) => Ok(instruction),
        None => Err(
            DecodeInstructionError { instr: word, error_kind: DecodeErrorKind::IllegalOpCode },
        ),
    }
}

/// Shifts and masks take a word apart at the same places as division.
proof fn lemma_fields(w: u16)
    by (bit_vector)
    ensures
        w >> 12 == w / 4096,
        (w >> 8) & 0xF == (w / 256) % 16,
        (w >> 4) & 0xF == (w / 16) % 16,
        w & 0xF == w % 16,
        w & 0xFF == w % 256,
        w & 0xFFF == w % 4096,
{
}

/// Decodes a 16-bit word into the instruction that it encodes.
pub fn decode(instr: u16) -> (r: Result<Instruction, DecodeInstructionError>)
    ensures
        r == decode_result(instr),
{
    proof {
        lemma_fields(instr);
    }
    // Most instructions differ in the first digit, so that is looked at first.
    let family: u16 = instr >> 12;
    let reg_x = Register::from_nibble(((instr >> 8) & 0xF) as u8);
    let reg_y = Register::from_nibble(((instr >> 4) & 0xF) as u8);
    let nibble: u8 = (instr & 0xF) as u8;
    let byte: u8 = (instr & 0xFF) as u8;
    let addr: u16 = instr & 0xFFF;
    match family {
        0x0 => match instr {
            0x00E0 => Ok(Instruction::Clr),
            0x00EE => Ok(Instruction::Ret),
            _ => Ok(Instruction::Sys { addr }),
        },
        0x1 => Ok(Instruction::Jmp { addr }),
        0x2 => Ok(Instruction::Call { addr }),
        0x3 => Ok(Instruction::SeImm { register: reg_x, value: byte }),
        0x4 => Ok(Instruction::SneImm { register: reg_x, value: byte }),
        0x5 => match nibble {
            0 => Ok(Instruction::SeReg { reg1: reg_x, reg2: reg_y }),
            _ => Err(DecodeInstructionError::illegal_opcode(instr)),
        },
        0x6 => Ok(Instruction::LdImm { register: reg_x, value: byte }),
        0x7 => Ok(Instruction::AddImm { register: reg_x, value: byte }),
        0x8 => match nibble {
            0x0 => Ok(Instruction::LdReg { dest: reg_x, src: reg_y }),
            0x1 => Ok(Instruction::Or { dest: reg_x, src: reg_y }),
            0x2 => Ok(Instruction::And { dest: reg_x, src: reg_y }),
            0x3 => Ok(Instruction::Xor { dest: reg_x, src: reg_y }),
            0x4 => Ok(Instruction::AddReg { dest: reg_x, src: reg_y }),
            0x5 => Ok(Instruction::Sub { dest: reg_x, src: reg_y }),
            0x6 => Ok(Instruction::Shr { dest: reg_x, src: reg_y }),
            0x7 => Ok(Instruction::SubNeg { dest: reg_x, src: reg_y }),
            0xE => Ok(Instruction::Shl { dest: reg_x, src: reg_y }),
            _ => Err(DecodeInstructionError::illegal_opcode(instr)),
        },
        0x9 => match nibble {
            0 => Ok(Instruction::SneReg { reg1: reg_x, reg2: reg_y }),
            _ => Err(DecodeInstructionError::illegal_opcode(instr)),
        },
        0xA => Ok(Instruction::LdAddr { addr }),
        0xB => Ok(Instruction::JmpOff { base_addr: addr }),
        0xC => Ok(Instruction::Rnd { register: reg_x, mask: byte }),
        0xD => Ok(Instruction::Drw { x: reg_x, y: reg_y, length: nibble }),
        0xE => match byte {
            0x9E => Ok(Instruction::Skp { keycode: reg_x }),
            0xA1 => Ok(Instruction::SkpNeg { keycode: reg_x }),
            _ => Err(DecodeInstructionError::illegal_opcode(instr)),
        },
        _ => match byte {
            0x07 => Ok(Instruction::ReadDelay { register: reg_x }),
            0x0A => Ok(Instruction::LdKey { register: reg_x }),
            0x15 => Ok(Instruction::StrDelay { register: reg_x }),
            0x18 => Ok(Instruction::StrSound { register: reg_x }),
            0x1E => Ok(Instruction::AddAddr { register: reg_x }),
            0x29 => Ok(Instruction::LdDigit { register: reg_x }),
            0x33 => Ok(Instruction::LdBcd { register: reg_x }),
            0x55 => Ok(Instruction::StrArray { end: reg_x }),
            0x65 => Ok(Instruction::LdArray { end: reg_x }),
            _ => Err(DecodeInstructionError::illegal_opcode(instr)),
        },
    }
}

} // verus!
