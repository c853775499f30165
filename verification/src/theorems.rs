//! What holds of the decoder and the executor, whatever the word, the
//! instruction or the state.

use vstd::prelude::*;
use crate::instruction::DecodeErrorKind;
use crate::instruction::DecodeInstructionError;
use crate::instruction::Instruction;
use crate::instruction::decode_result;
use crate::instruction::decoded;
use crate::instruction::decoded_arithmetic;
use crate::instruction::decoded_system;
use crate::instruction::family;
use crate::instruction::operand_addr;
use crate::instruction::operand_byte;
use crate::instruction::operand_nibble;
use crate::instruction::operand_x;
use crate::instruction::operand_y;
use crate::machine::MachineState;
use crate::machine::advanced;
use crate::machine::computed_by;
use crate::machine::effect;
use crate::machine::executed;
use crate::machine::fault_of;
use crate::machine::flow;
use crate::machine::flows;
use crate::machine::register_of;
use crate::machine::sets_flag;
use crate::machine::well_formed;
use crate::register::Register;
use crate::register::lemma_index_of_register;
use crate::register::lemma_register_of_index;
use crate::register::register_at;

verus! {

/// The word that encodes `instr`: the family in the top four bits, the
/// operands and selectors below it.
pub open spec fn encoded(instr: Instruction) -> int {
    match instr {
        Instruction::Sys { addr } => addr as int,
        Instruction::Clr => 0x00E0,
        Instruction::Ret => 0x00EE,
        Instruction::Jmp { addr } => 0x1000 + addr,
        Instruction::Call { addr } => 0x2000 + addr,
        Instruction::SeImm { register, value } => 0x3000 + register.index() * 256 + value,
        Instruction::SneImm { register, value } => 0x4000 + register.index() * 256 + value,
        Instruction::SeReg { reg1, reg2 } => 0x5000 + reg1.index() * 256 + reg2.index() * 16,
        Instruction::LdImm { register, value } => 0x6000 + register.index() * 256 + value,
        Instruction::AddImm { register, value } => 0x7000 + register.index() * 256 + value,
        Instruction::LdReg { dest, src } => 0x8000 + dest.index() * 256 + src.index() * 16,
        Instruction::Or { dest, src } => 0x8001 + dest.index() * 256 + src.index() * 16,
        Instruction::And { dest, src } => 0x8002 + dest.index() * 256 + src.index() * 16,
        Instruction::Xor { dest, src } => 0x8003 + dest.index() * 256 + src.index() * 16,
        Instruction::AddReg { dest, src } => 0x8004 + dest.index() * 256 + src.index() * 16,
        Instruction::Sub { dest, src } => 0x8005 + dest.index() * 256 + src.index() * 16,
        Instruction::Shr { dest, src } => 0x8006 + dest.index() * 256 + src.index() * 16,
        Instruction::SubNeg { dest, src } => 0x8007 + dest.index() * 256 + src.index() * 16,
        Instruction::Shl { dest, src } => 0x800E + dest.index() * 256 + src.index() * 16,
        Instruction::SneReg { reg1, reg2 } => 0x9000 + reg1.index() * 256 + reg2.index() * 16,
        Instruction::LdAddr { addr } => 0xA000 + addr,
        Instruction::JmpOff { base_addr } => 0xB000 + base_addr,
        Instruction::Rnd { register, mask } => 0xC000 + register.index() * 256 + mask,
        Instruction::Drw { x, y, length } => 0xD000 + x.index() * 256 + y.index() * 16 + length,
        Instruction::Skp { keycode } => 0xE09E + keycode.index() * 256,
        Instruction::SkpNeg { keycode } => 0xE0A1 + keycode.index() * 256,
        Instruction::ReadDelay { register } => 0xF007 + register.index() * 256,
        Instruction::LdKey { register } => 0xF00A + register.index() * 256,
        Instruction::StrDelay { register } => 0xF015 + register.index() * 256,
        Instruction::StrSound { register } => 0xF018 + register.index() * 256,
        Instruction::AddAddr { register } => 0xF01E + register.index() * 256,
        Instruction::LdDigit { register } => 0xF029 + register.index() * 256,
        Instruction::LdBcd { register } => 0xF033 + register.index() * 256,
        Instruction::StrArray { end } => 0xF055 + end.index() * 256,
        Instruction::LdArray { end } => 0xF065 + end.index() * 256,
    }
}

/// Whether the operands of `instr` fit in the bits that a word has for them:
/// an address in twelve, a length in four. A routine's address is none of
/// the two words that clear the display and return.
pub open spec fn encodable(instr: Instruction) -> bool {
    match instr {
        Instruction::Sys { addr } => addr < 0x1000 && addr != 0x00E0 && addr != 0x00EE,
        Instruction::Jmp { addr } => addr < 0x1000,
        Instruction::Call { addr } => addr < 0x1000,
        Instruction::LdAddr { addr } => addr < 0x1000,
        Instruction::JmpOff { base_addr } => base_addr < 0x1000,
        Instruction::Drw { x, y, length } => length < 16,
        _ => true,
    }
}

/// A word is made of its four digits to the base sixteen.
proof fn lemma_digits(w: u16)
    by (bit_vector)
    ensures
        w == (w / 4096) * 4096 + ((w / 256) % 16) * 256 + ((w / 16) % 16) * 16 + w % 16,
        w / 4096 < 16,
        w % 256 == ((w / 16) % 16) * 16 + w % 16,
        w % 4096 == ((w / 256) % 16) * 256 + ((w / 16) % 16) * 16 + w % 16,
{
}

/// The word made of four digits to the base sixteen has these as its digits.
proof fn lemma_digits_of(f: u16, x: u16, y: u16, n: u16)
    by (bit_vector)
    requires
        f < 16,
        x < 16,
        y < 16,
        n < 16,
    ensures
        f * 4096 + x * 256 + y * 16 + n < 0x10000,
        (f * 4096 + x * 256 + y * 16 + n) / 4096 == f,
        ((f * 4096 + x * 256 + y * 16 + n) / 256) % 16 == x,
        ((f * 4096 + x * 256 + y * 16 + n) / 16) % 16 == y,
        (f * 4096 + x * 256 + y * 16 + n) % 16 == n,
        (f * 4096 + x * 256 + y * 16 + n) % 256 == y * 16 + n,
        (f * 4096 + x * 256 + y * 16 + n) % 4096 == x * 256 + y * 16 + n,
{
}

/// The word made of four digits to the base sixteen has these as its family
/// and operands.
proof fn lemma_composed(f: int, x: int, y: int, n: int)
    requires
        0 <= f < 16,
        0 <= x < 16,
        0 <= y < 16,
        0 <= n < 16,
    ensures
        ({
            let word = (f * 4096 + x * 256 + y * 16 + n) as u16;
            &&& word == f * 4096 + x * 256 + y * 16 + n
            &&& family(word) == f
            &&& operand_x(word) == register_at(x)
            &&& operand_y(word) == register_at(y)
            &&& operand_nibble(word) == n
            &&& operand_byte(word) == y * 16 + n
            &&& operand_addr(word) == x * 256 + y * 16 + n
        }),
{
    lemma_digits_of(f as u16, x as u16, y as u16, n as u16);
}

/// A word that encodes an instruction is the encoding of the instruction
/// that it is decoded to: every bit of the word is accounted for, so no two
/// words are decoded to the same instruction.
pub proof fn lemma_decoded_encodes(word: u16)
    ensures
        decoded(word) matches Some(instr) ==> encodable(instr) && encoded(instr) == word,
{
    lemma_digits(word);
    lemma_index_of_register((word as int / 256) % 16);
    lemma_index_of_register((word as int / 16) % 16);
    let x = operand_x(word).index() as int;
    let y = operand_y(word).index() as int;
    assert(x == (word as int / 256) % 16);
    assert(y == (word as int / 16) % 16);
    if family(word) == 0x8 {
        assert(decoded(word) == decoded_arithmetic(word));
    } else if family(word) == 0xF {
        assert(decoded(word) == decoded_system(word));
    }
}

/// The word made of a family, a register's number and a byte.
proof fn lemma_byte_of(f: u16, x: u16, byte: u8)
    by (bit_vector)
    requires
        f < 16,
        x < 16,
    ensures
        f * 4096 + x * 256 + byte < 0x10000,
        (f * 4096 + x * 256 + byte) / 4096 == f,
        ((f * 4096 + x * 256 + byte) / 256) % 16 == x,
        (f * 4096 + x * 256 + byte) % 256 == byte,
{
}

/// The word made of a family, a register's number and a byte has these as
/// its family and operands.
proof fn lemma_with_byte(f: int, x: int, byte: u8)
    requires
        0 <= f < 16,
        0 <= x < 16,
    ensures
        ({
            let word = (f * 4096 + x * 256 + byte) as u16;
            &&& word == f * 4096 + x * 256 + byte
            &&& family(word) == f
            &&& operand_x(word) == register_at(x)
            &&& operand_byte(word) == byte
        }),
{
    lemma_byte_of(f as u16, x as u16, byte);
}

/// The word made of a family and an address of twelve bits.
proof fn lemma_address_of(f: u16, addr: u16)
    by (bit_vector)
    requires
        f < 16,
        addr < 4096,
    ensures
        f * 4096 + addr < 0x10000,
        (f * 4096 + addr) / 4096 == f,
        (f * 4096 + addr) % 4096 == addr,
{
}

/// The word made of a family and an address of twelve bits has these as its
/// family and operand.
proof fn lemma_with_address(f: int, addr: u16)
    requires
        0 <= f < 16,
        addr < 4096,
    ensures
        ({
            let word = (f * 4096 + addr) as u16;
            &&& word == f * 4096 + addr
            &&& family(word) == f
            &&& operand_addr(word) == addr
        }),
{
    lemma_address_of(f as u16, addr);
}

/// The word made of family 8, two registers and a selector is decoded by the
/// selector, with these registers as operands.
proof fn lemma_composed_arithmetic(dest: Register, src: Register, selector: int)
    requires
        0 <= selector < 16,
    ensures
        ({
            let word = (0x8000 + dest.index() * 256 + src.index() * 16 + selector) as u16;
            &&& word == 0x8000 + dest.index() * 256 + src.index() * 16 + selector
            &&& decoded(word) == decoded_arithmetic(word)
            &&& operand_x(word) == dest
            &&& operand_y(word) == src
            &&& operand_nibble(word) == selector
        }),
{
    lemma_register_of_index(dest);
    lemma_register_of_index(src);
    lemma_composed(8, dest.index() as int, src.index() as int, selector);
}

/// Whether `instr` has an address for its operand, or none at all.
spec fn takes_address(instr: Instruction) -> bool {
    instr is Sys || instr is Clr || instr is Ret || instr is Jmp || instr is Call
        || instr is LdAddr || instr is JmpOff
}

/// An instruction with an address for its operand, or none at all, is what
/// its encoding is decoded to.
proof fn lemma_jump_decodes(instr: Instruction)
    requires
        encodable(instr),
        takes_address(instr),
    ensures
        0 <= encoded(instr) < 0x10000,
        decoded(encoded(instr) as u16) == Some(instr),
{
    match instr {
        Instruction::Sys { addr } => {
            lemma_with_address(0, addr);
        },
        Instruction::Clr => {
            lemma_composed(0, 0, 0xE, 0x0);
        },
        Instruction::Ret => {
            lemma_composed(0, 0, 0xE, 0xE);
        },
        Instruction::Jmp { addr } => {
            lemma_with_address(1, addr);
        },
        Instruction::Call { addr } => {
            lemma_with_address(2, addr);
        },
        Instruction::LdAddr { addr } => {
            lemma_with_address(10, addr);
        },
        Instruction::JmpOff { base_addr } => {
            lemma_with_address(11, base_addr);
        },
        _ => {},
    }
}

/// Whether `instr` has a register and a byte for its operands.
spec fn takes_byte(instr: Instruction) -> bool {
    instr is SeImm || instr is SneImm || instr is LdImm || instr is AddImm || instr is Rnd
}

/// An instruction with a register and a byte for its operands is what its
/// encoding is decoded to.
proof fn lemma_immediate_decodes(instr: Instruction)
    requires
        encodable(instr),
        takes_byte(instr),
    ensures
        0 <= encoded(instr) < 0x10000,
        decoded(encoded(instr) as u16) == Some(instr),
{
    match instr {
        Instruction::SeImm { register, value } => {
            lemma_register_of_index(register);
            lemma_with_byte(3, register.index() as int, value);
        },
        Instruction::SneImm { register, value } => {
            lemma_register_of_index(register);
            lemma_with_byte(4, register.index() as int, value);
        },
        Instruction::LdImm { register, value } => {
            lemma_register_of_index(register);
            lemma_with_byte(6, register.index() as int, value);
        },
        Instruction::AddImm { register, value } => {
            lemma_register_of_index(register);
            lemma_with_byte(7, register.index() as int, value);
        },
        Instruction::Rnd { register, mask } => {
            lemma_register_of_index(register);
            lemma_with_byte(12, register.index() as int, mask);
        },
        _ => {},
    }
}

/// Whether `instr` compares two registers or draws at the place they give.
spec fn takes_pair(instr: Instruction) -> bool {
    instr is SeReg || instr is SneReg || instr is Drw
}

/// Whether `instr` copies a register or combines two bit by bit.
spec fn combines_bits(instr: Instruction) -> bool {
    instr is LdReg || instr is Or || instr is And || instr is Xor
}

/// An instruction that compares two registers or draws at the place they
/// give is what its encoding is decoded to.
proof fn lemma_pair_decodes(instr: Instruction)
    requires
        encodable(instr),
        takes_pair(instr),
    ensures
        0 <= encoded(instr) < 0x10000,
        decoded(encoded(instr) as u16) == Some(instr),
{
    match instr {
        Instruction::SeReg { reg1, reg2 } => {
            lemma_register_of_index(reg1);
            lemma_register_of_index(reg2);
            lemma_composed(5, reg1.index() as int, reg2.index() as int, 0);
        },
        Instruction::SneReg { reg1, reg2 } => {
            lemma_register_of_index(reg1);
            lemma_register_of_index(reg2);
            lemma_composed(9, reg1.index() as int, reg2.index() as int, 0);
        },
        Instruction::Drw { x, y, length } => {
            lemma_register_of_index(x);
            lemma_register_of_index(y);
            lemma_composed(13, x.index() as int, y.index() as int, length as int);
        },
        _ => {},
    }
}

/// An instruction that copies a register or combines two bit by bit is what
/// its encoding is decoded to.
proof fn lemma_bits_decodes(instr: Instruction)
    requires
        encodable(instr),
        combines_bits(instr),
    ensures
        0 <= encoded(instr) < 0x10000,
        decoded(encoded(instr) as u16) == Some(instr),
{
    match instr {
        Instruction::LdReg { dest, src } => {
            lemma_composed_arithmetic(dest, src, 0);
        },
        Instruction::Or { dest, src } => {
            lemma_composed_arithmetic(dest, src, 1);
        },
        Instruction::And { dest, src } => {
            lemma_composed_arithmetic(dest, src, 2);
        },
        Instruction::Xor { dest, src } => {
            lemma_composed_arithmetic(dest, src, 3);
        },
        _ => {},
    }
}

/// An instruction that sets the flag is what its encoding is decoded to.
proof fn lemma_arithmetic_decodes(instr: Instruction)
    requires
        encodable(instr),
        sets_flag(instr),
    ensures
        0 <= encoded(instr) < 0x10000,
        decoded(encoded(instr) as u16) == Some(instr),
{
    match instr {
        Instruction::AddReg { dest, src } => {
            lemma_composed_arithmetic(dest, src, 4);
        },
        Instruction::Sub { dest, src } => {
            lemma_composed_arithmetic(dest, src, 5);
        },
        Instruction::Shr { dest, src } => {
            lemma_composed_arithmetic(dest, src, 6);
        },
        Instruction::SubNeg { dest, src } => {
            lemma_composed_arithmetic(dest, src, 7);
        },
        Instruction::Shl { dest, src } => {
            lemma_composed_arithmetic(dest, src, 14);
        },
        _ => {},
    }
}

/// Whether `instr` looks at a key or waits for one.
spec fn takes_key(instr: Instruction) -> bool {
    instr is Skp || instr is SkpNeg || instr is LdKey
}

/// An instruction that looks at a key or waits for one is what its encoding
/// is decoded to.
proof fn lemma_key_decodes(instr: Instruction)
    requires
        encodable(instr),
        takes_key(instr),
    ensures
        0 <= encoded(instr) < 0x10000,
        decoded(encoded(instr) as u16) == Some(instr),
{
    match instr {
        Instruction::Skp { keycode } => {
            lemma_register_of_index(keycode);
            lemma_with_byte(14, keycode.index() as int, 0x9E);
        },
        Instruction::SkpNeg { keycode } => {
            lemma_register_of_index(keycode);
            lemma_with_byte(14, keycode.index() as int, 0xA1);
        },
        Instruction::LdKey { register } => {
            lemma_composed_system(register, 0x0A);
        },
        _ => {},
    }
}

/// Whether `instr` works with one register on a timer, the address register
/// or memory.
spec fn takes_register(instr: Instruction) -> bool {
    instr is ReadDelay || instr is StrDelay || instr is StrSound || instr is AddAddr
        || instr is LdDigit || instr is LdBcd || instr is StrArray || instr is LdArray
}

/// An instruction on a timer, the address register or memory is what its
/// encoding is decoded to.
proof fn lemma_system_decodes(instr: Instruction)
    requires
        encodable(instr),
        takes_register(instr),
    ensures
        0 <= encoded(instr) < 0x10000,
        decoded(encoded(instr) as u16) == Some(instr),
{
    match instr {
        Instruction::ReadDelay { register } => {
            lemma_composed_system(register, 0x07);
        },
        Instruction::StrDelay { register } => {
            lemma_composed_system(register, 0x15);
        },
        Instruction::StrSound { register } => {
            lemma_composed_system(register, 0x18);
        },
        Instruction::AddAddr { register } => {
            lemma_composed_system(register, 0x1E);
        },
        Instruction::LdDigit { register } => {
            lemma_composed_system(register, 0x29);
        },
        Instruction::LdBcd { register } => {
            lemma_composed_system(register, 0x33);
        },
        Instruction::StrArray { end } => {
            lemma_composed_system(end, 0x55);
        },
        Instruction::LdArray { end } => {
            lemma_composed_system(end, 0x65);
        },
        _ => {},
    }
}

/// The word made of family F, a register and a selector is decoded by the
/// selector, with the register as operand.
proof fn lemma_composed_system(register: Register, selector: u8)
    ensures
        ({
            let word = (0xF000 + register.index() * 256 + selector) as u16;
            &&& word == 0xF000 + register.index() * 256 + selector
            &&& decoded(word) == decoded_system(word)
            &&& operand_x(word) == register
            &&& operand_byte(word) == selector
        }),
{
    lemma_register_of_index(register);
    lemma_with_byte(15, register.index() as int, selector);
}

/// An instruction whose operands fit is what its encoding is decoded to: the
/// decoder finds every instruction, with the operands it was encoded with.
pub proof fn lemma_encoded_decodes(instr: Instruction)
    requires
        encodable(instr),
    ensures
        0 <= encoded(instr) < 0x10000,
        decoded(encoded(instr) as u16) == Some(instr),
{
    if takes_address(instr) {
        lemma_jump_decodes(instr);
    } else if takes_byte(instr) {
        lemma_immediate_decodes(instr);
    } else if takes_pair(instr) {
        lemma_pair_decodes(instr);
    } else if combines_bits(instr) {
        lemma_bits_decodes(instr);
    } else if sets_flag(instr) {
        lemma_arithmetic_decodes(instr);
    } else if takes_key(instr) {
        lemma_key_decodes(instr);
    } else {
        lemma_system_decodes(instr);
    }
}

/// A word that encodes no instruction is refused, and the error carries the
/// word.
pub proof fn lemma_illegal_word_refused(word: u16)
    ensures
        decoded(word) is None <==> decode_result(word) is Err,
        decode_result(word) is Err ==> decode_result(word)->Err_0 == (DecodeInstructionError {
            instr: word,
            error_kind: DecodeErrorKind::IllegalOpCode,
        }),
{
}

/// A sum and its flag together are the true sum: the flag counts the 256
/// that the register could not hold.
pub proof fn lemma_sum_with_carry(instr: Instruction, dest_value: u8, src_value: u8)
    requires
        instr is AddReg,
    ensures
        computed_by(instr, dest_value, src_value).0 + 256 * computed_by(
            instr,
            dest_value,
            src_value,
        ).1 == dest_value + src_value,
        computed_by(instr, dest_value, src_value).1 <= 1,
{
}

/// A difference and its flag together are the true difference: the flag is 1
/// exactly if nothing had to be borrowed, and where it is 0 the register
/// holds the difference raised by the 256 that were borrowed.
pub proof fn lemma_difference_with_borrow(instr: Instruction, dest_value: u8, src_value: u8)
    requires
        instr is Sub || instr is SubNeg,
    ensures
        ({
            let minuend = if instr is Sub { dest_value } else { src_value };
            let subtrahend = if instr is Sub { src_value } else { dest_value };
            let computed = computed_by(instr, dest_value, src_value);
            &&& computed.1 == 1 <==> minuend >= subtrahend
            &&& computed.1 == 0 <==> minuend < subtrahend
            &&& computed.0 == minuend - subtrahend + 256 * (1 - computed.1)
        }),
{
}

/// An instruction that sets the flag leaves the flag in `VF` even where `VF`
/// is its destination, puts the value in any other destination, and leaves
/// every other register alone.
pub proof fn lemma_flag_written_last(s: MachineState, instr: Instruction, random: u8, r: Register)
    requires
        well_formed(s),
        sets_flag(instr),
    ensures
        ({
            let after = executed(s, instr, random);
            let dest = destination(instr);
            let computed = computed_by(instr, register_of(s, dest), register_of(s, source(instr)));
            &&& register_of(after, Register::VF) == computed.1
            &&& dest != Register::VF ==> register_of(after, dest) == computed.0
            &&& r != dest && r != Register::VF ==> register_of(after, r) == register_of(s, r)
        }),
{
    lemma_register_of_index(r);
    lemma_register_of_index(destination(instr));
}

/// The register that an instruction on two registers writes to.
pub open spec fn destination(instr: Instruction) -> Register {
    match instr {
        Instruction::LdReg { dest, .. }
        | Instruction::Or { dest, .. }
        | Instruction::And { dest, .. }
        | Instruction::Xor { dest, .. }
        | Instruction::AddReg { dest, .. }
        | Instruction::Sub { dest, .. }
        | Instruction::Shr { dest, .. }
        | Instruction::SubNeg { dest, .. }
        | Instruction::Shl { dest, .. } => dest,
        _ => Register::V0,
    }
}

/// The register that an instruction on two registers only reads.
pub open spec fn source(instr: Instruction) -> Register {
    match instr {
        Instruction::LdReg { src, .. }
        | Instruction::Or { src, .. }
        | Instruction::And { src, .. }
        | Instruction::Xor { src, .. }
        | Instruction::AddReg { src, .. }
        | Instruction::Sub { src, .. }
        | Instruction::Shr { src, .. }
        | Instruction::SubNeg { src, .. }
        | Instruction::Shl { src, .. } => src,
        _ => Register::V0,
    }
}

/// A skip on equality moves the program counter by four where the register
/// holds the value and by two where it does not, and changes nothing else.
/// The skip on inequality does the opposite.
pub proof fn lemma_skip_immediate(s: MachineState, register: Register, value: u8, random: u8)
    requires
        well_formed(s),
        s.program_counter + 2 <= 4096,
    ensures
        executed(s, (Instruction::SeImm { register, value }), random) == advanced(
            s,
            if register_of(s, register) == value { 4int } else { 2int },
        ),
        executed(s, (Instruction::SneImm { register, value }), random) == advanced(
            s,
            if register_of(s, register) == value { 2int } else { 4int },
        ),
        advanced(s, 2).program_counter == s.program_counter + 2,
        advanced(s, 4).program_counter == s.program_counter + 4,
{
}

/// A call followed by a return goes on behind the call, with the stack
/// pointer where it was. The return finds its address wherever the call
/// found room for it.
pub proof fn lemma_call_return(s: MachineState, addr: u16, random: u8)
    requires
        well_formed(s),
        fault_of(s, (Instruction::Call { addr })) is None,
    ensures
        ({
            let called = executed(s, (Instruction::Call { addr }), random);
            let returned = executed(called, Instruction::Ret, random);
            &&& called.program_counter == addr
            &&& called.stack_pointer == s.stack_pointer + 2
            &&& addr + 2 <= 4096 ==> fault_of(called, Instruction::Ret) is None
            &&& returned.program_counter == s.program_counter + 2
            &&& returned.stack_pointer == s.stack_pointer
            &&& returned.registers == s.registers
            &&& returned.memory == called.memory
        }),
{
    let back = s.program_counter + 2;
    assert((back / 256) * 256 + back % 256 == back);
}

/// The three bytes that the decimal store writes are the digits of the
/// register's value, and nothing else in memory changes.
pub proof fn lemma_decimal_digits(s: MachineState, register: Register, random: u8)
    requires
        well_formed(s),
        fault_of(s, (Instruction::LdBcd { register })) is None,
    ensures
        ({
            let after = executed(s, (Instruction::LdBcd { register }), random);
            let at = s.address_register as int;
            &&& after.memory[at] * 100 + after.memory[at + 1] * 10 + after.memory[at + 2]
                == register_of(s, register)
            &&& after.memory[at] < 10
            &&& after.memory[at + 1] < 10
            &&& after.memory[at + 2] < 10
            &&& forall|a: int|
                0 <= a < 4096 && !(at <= a < at + 3) ==> after.memory[a] == s.memory[a]
            &&& after.registers == s.registers
        }),
{
}

/// What was stored from the registers up to `end` is what loading them from
/// the same address gives back, whatever the registers hold by then. The
/// registers beyond `end` are not loaded.
pub proof fn lemma_store_load(
    s: MachineState,
    t: MachineState,
    end: Register,
    random: u8,
    i: int,
)
    requires
        well_formed(s),
        well_formed(t),
        fault_of(s, (Instruction::StrArray { end })) is None,
        t.memory == executed(s, (Instruction::StrArray { end }), random).memory,
        t.address_register == s.address_register,
        0 <= i < 16,
    ensures
        executed(t, (Instruction::LdArray { end }), random).registers[i] == if i <= end.index() {
            s.registers[i]
        } else {
            t.registers[i]
        },
{
}

/// Whatever byte is drawn, a random instruction leaves no bit in its
/// register that the mask does not have.
pub proof fn lemma_random_masked(s: MachineState, register: Register, mask: u8, random: u8)
    requires
        well_formed(s),
    ensures
        register_of(executed(s, (Instruction::Rnd { register, mask }), random), register) & !mask
            == 0,
{
    assert((random & mask) & !mask == 0) by (bit_vector);
}

/// Only a random instruction depends on the byte that is drawn.
pub proof fn lemma_random_only(s: MachineState, instr: Instruction, random: u8, other: u8)
    requires
        !(instr is Rnd),
    ensures
        executed(s, instr, random) == executed(s, instr, other),
{
}

/// No instruction but the two that store to a timer changes that timer.
pub proof fn lemma_timers_kept(s: MachineState, instr: Instruction, random: u8)
    ensures
        !(instr is StrDelay) ==> executed(s, instr, random).delay_timer == s.delay_timer,
        !(instr is StrSound) ==> executed(s, instr, random).sound_timer == s.sound_timer,
{
}

/// What an instruction that no fault stops does to the values leaves a
/// well-formed state well formed, and the stack pointer and the program counter where they were.
proof fn lemma_effect_well_formed(s: MachineState, instr: Instruction, random: u8)
    requires
        well_formed(s),
        fault_of(s, instr) is None,
    ensures
        well_formed(effect(s, instr, random)),
        effect(s, instr, random).stack_pointer == s.stack_pointer,
        effect(s, instr, random).program_counter == s.program_counter,
{
}

/// What an instruction does to the flow of control leaves a well-formed
/// state well formed, where it can do it.
proof fn lemma_flow_well_formed(s: MachineState, instr: Instruction)
    requires
        well_formed(s),
        flows(s, instr),
    ensures
        well_formed(flow(s, instr)),
{
}

/// An instruction that no fault stops leaves a well-formed state well
/// formed.
pub proof fn lemma_executed_well_formed(s: MachineState, instr: Instruction, random: u8)
    requires
        well_formed(s),
        fault_of(s, instr) is None,
    ensures
        well_formed(executed(s, instr, random)),
{
    lemma_effect_well_formed(s, instr, random);
    lemma_flow_well_formed(effect(s, instr, random), instr);
}

/// Drawing the same sprite twice restores the display: the second drawing
/// flips back every pixel that the first one flipped.
pub proof fn lemma_draw_twice_restores(
    s: MachineState,
    x: Register,
    y: Register,
    length: u8,
    random: u8,
)
    requires
        well_formed(s),
    ensures
        ({
            let once = executed(s, (Instruction::Drw { x, y, length }), random);
            let twice = executed(once, (Instruction::Drw { x, y, length }), random);
            &&& twice.display.pixels == s.display.pixels
            &&& twice.registers == s.registers
            &&& twice.memory == s.memory
        }),
{
    let at = s.address_register as int;
    crate::display::lemma_draw_twice(
        s.display.pixels,
        register_of(s, x) as int,
        register_of(s, y) as int,
        s.memory.subrange(at, at + length),
    );
}

} // verus!
