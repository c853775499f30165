use chemu::instruction::decode;
use chemu::instruction::DecodeErrorKind;
use chemu::instruction::DecodeInstructionError;
use chemu::instruction::Instruction;
use chemu::register::Register;
use chemu::register::RegisterParseError;

fn illegal(word: u16) -> Result<Instruction, DecodeInstructionError> {
    Err(DecodeInstructionError { instr: word, error_kind: DecodeErrorKind::IllegalOpCode })
}

#[test]
fn decodes_family_0() {
    assert_eq!(decode(0x00E0), Ok(Instruction::Clr));
    assert_eq!(decode(0x00EE), Ok(Instruction::Ret));
    assert_eq!(decode(0x0123), Ok(Instruction::Sys { addr: 0x123 }));
    assert_eq!(decode(0x0000), Ok(Instruction::Sys { addr: 0 }));
    assert_eq!(decode(0x00E1), Ok(Instruction::Sys { addr: 0x0E1 }));
}

#[test]
fn decodes_jumps_and_calls() {
    assert_eq!(decode(0x1ABC), Ok(Instruction::Jmp { addr: 0xABC }));
    assert_eq!(decode(0x2300), Ok(Instruction::Call { addr: 0x300 }));
    assert_eq!(decode(0xA123), Ok(Instruction::LdAddr { addr: 0x123 }));
    assert_eq!(decode(0xBFFF), Ok(Instruction::JmpOff { base_addr: 0xFFF }));
}

#[test]
fn decodes_register_and_byte() {
    assert_eq!(decode(0x3A3F), Ok(Instruction::SeImm { register: Register::VA, value: 0x3F }));
    assert_eq!(decode(0x4B00), Ok(Instruction::SneImm { register: Register::VB, value: 0x00 }));
    assert_eq!(decode(0x6A3F), Ok(Instruction::LdImm { register: Register::VA, value: 0x3F }));
    assert_eq!(decode(0x70FF), Ok(Instruction::AddImm { register: Register::V0, value: 0xFF }));
    assert_eq!(decode(0xCF0F), Ok(Instruction::Rnd { register: Register::VF, mask: 0x0F }));
}

#[test]
fn decodes_register_pairs() {
    assert_eq!(decode(0x5120), Ok(Instruction::SeReg { reg1: Register::V1, reg2: Register::V2 }));
    assert_eq!(decode(0x9EF0), Ok(Instruction::SneReg { reg1: Register::VE, reg2: Register::VF }));
    assert_eq!(
        decode(0xD125),
        Ok(Instruction::Drw { x: Register::V1, y: Register::V2, length: 5 })
    );
}

#[test]
fn decodes_family_8() {
    let dest = Register::V1;
    let src = Register::V2;
    assert_eq!(decode(0x8120), Ok(Instruction::LdReg { dest, src }));
    assert_eq!(decode(0x8121), Ok(Instruction::Or { dest, src }));
    assert_eq!(decode(0x8122), Ok(Instruction::And { dest, src }));
    assert_eq!(decode(0x8123), Ok(Instruction::Xor { dest, src }));
    assert_eq!(decode(0x8124), Ok(Instruction::AddReg { dest, src }));
    assert_eq!(decode(0x8125), Ok(Instruction::Sub { dest, src }));
    assert_eq!(decode(0x8126), Ok(Instruction::Shr { dest, src }));
    assert_eq!(decode(0x8127), Ok(Instruction::SubNeg { dest, src }));
    assert_eq!(decode(0x812E), Ok(Instruction::Shl { dest, src }));
}

#[test]
fn decodes_keys() {
    assert_eq!(decode(0xE39E), Ok(Instruction::Skp { keycode: Register::V3 }));
    assert_eq!(decode(0xE3A1), Ok(Instruction::SkpNeg { keycode: Register::V3 }));
}

#[test]
fn decodes_family_f() {
    let register = Register::V1;
    assert_eq!(decode(0xF107), Ok(Instruction::ReadDelay { register }));
    assert_eq!(decode(0xF10A), Ok(Instruction::LdKey { register }));
    assert_eq!(decode(0xF115), Ok(Instruction::StrDelay { register }));
    assert_eq!(decode(0xF118), Ok(Instruction::StrSound { register }));
    assert_eq!(decode(0xF11E), Ok(Instruction::AddAddr { register }));
    assert_eq!(decode(0xF129), Ok(Instruction::LdDigit { register }));
    assert_eq!(decode(0xF133), Ok(Instruction::LdBcd { register }));
    assert_eq!(decode(0xF155), Ok(Instruction::StrArray { end: register }));
    assert_eq!(decode(0xF165), Ok(Instruction::LdArray { end: register }));
}

#[test]
fn refuses_unmatched_words() {
    for word in [0x5001u16, 0x9002, 0xE0FF, 0x8008, 0x812F, 0xF000, 0xF1FF, 0xE09F, 0x500F] {
        assert_eq!(decode(word), illegal(word));
    }
}

#[test]
fn refuses_exactly_the_words_without_an_instruction() {
    let mut refused: u32 = 0;
    for word in 0..=0xFFFFu16 {
        match decode(word) {
            Ok(_) => {}
            Err(error) => {
                assert_eq!(error.instr, word);
                assert_eq!(error.error_kind, DecodeErrorKind::IllegalOpCode);
                refused += 1;
            }
        }
    }
    // Families 5 and 9 take 15 of 16 selectors away, family 8 takes 7 of 16,
    // family E all but 2 of 256, family F all but 9 of 256.
    let expected = 2 * 15 * 256 + 7 * 256 + 16 * 254 + 16 * 247;
    assert_eq!(refused, expected);
}

#[test]
fn every_nibble_names_a_register() {
    let all = [
        Register::V0,
        Register::V1,
        Register::V2,
        Register::V3,
        Register::V4,
        Register::V5,
        Register::V6,
        Register::V7,
        Register::V8,
        Register::V9,
        Register::VA,
        Register::VB,
        Register::VC,
        Register::VD,
        Register::VE,
        Register::VF,
    ];
    for (number, register) in all.iter().enumerate() {
        assert_eq!(Register::from_nibble(number as u8), *register);
        assert_eq!(Register::from_nibble(number as u8 + 0xA0), *register);
        assert_eq!(Register::try_from(number as u16), Ok(*register));
        assert_eq!(register.index(), number);
        assert_eq!(
            decode(0x6000 + 256 * number as u16),
            Ok(Instruction::LdImm { register: *register, value: 0 })
        );
    }
}

#[test]
fn no_register_beyond_fifteen() {
    assert_eq!(Register::try_from(16), Err(RegisterParseError { value: 16 }));
    assert_eq!(Register::try_from(0xFFFF), Err(RegisterParseError { value: 0xFFFF }));
}

#[test]
fn errors_in_words() {
    assert_eq!(DecodeInstructionError::illegal_opcode(0xE0FF).message(), "illegal opcode: E0FF");
    assert_eq!(DecodeInstructionError::illegal_opcode(0x5001).message(), "illegal opcode: 5001");
    assert_eq!(DecodeInstructionError::illegal_opcode(0).message(), "illegal opcode: 0");
    assert_eq!(RegisterParseError { value: 16 }.message(), "no register found for value: 10");
    assert_eq!(RegisterParseError { value: 0xABC }.message(), "no register found for value: ABC");
    let error = DecodeInstructionError::from_register_decode(0x1234, RegisterParseError { value: 255 });
    assert_eq!(error.instr, 0x1234);
    assert_eq!(
        error.error_kind,
        DecodeErrorKind::RegisterDecodeError { register_error: RegisterParseError { value: 255 } }
    );
    assert_eq!(error.message(), "no register found for value: FF");
}

#[test]
fn hexadecimal_text() {
    assert_eq!(chemu::hex::to_upper_hex(0), "0");
    assert_eq!(chemu::hex::to_upper_hex(9), "9");
    assert_eq!(chemu::hex::to_upper_hex(10), "A");
    assert_eq!(chemu::hex::to_upper_hex(0x10), "10");
    assert_eq!(chemu::hex::to_upper_hex(0xFFFF), "FFFF");
    assert_eq!(chemu::hex::to_upper_hex(0x0F0), "F0");
}
