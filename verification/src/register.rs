//! The sixteen general registers of the machine.

use vstd::prelude::*;
use vstd::string::StringExecFns;
use crate::hex::to_upper_hex;
use crate::hex::upper_hex;

verus! {

/// The registers directly available to programs. Each stores one byte.
#[derive(Copy, Clone, Debug, PartialEq, Eq, Structural)]
pub enum Register {
    V0,
    V1,
    V2,
    V3,
    V4,
    V5,
    V6,
    V7,
    V8,
    V9,
    VA,
    VB,
    VC,
    VD,
    VE,
    /// Written by the instructions that set a flag. Programs should not keep
    /// important data in it.
    VF,
}

/// The value that was asked for names no register.
#[derive(Copy, Clone, Debug, PartialEq, Eq, Structural)]
pub struct RegisterParseError {
    pub value: u16,
}

impl RegisterParseError {
    /// What the error says, in words: that no register was found, and for
    /// which value, in hexadecimal.
    pub open spec fn spec_message(self) -> Seq<char> {
        "no register found for value: "@ + upper_hex(self.value as nat)
    }

    /// The error in words.
    pub fn message(&self) -> (text: String)
        ensures
            text@ == self.spec_message(),
    {
        let mut text = String::from_str("no register found for value: ");
        let value = to_upper_hex(self.value);
        text.append(value.as_str());
        text
    }
}

/// The register whose number is `index`, for `0 <= index < 16`.
pub open spec fn register_at(index: int) -> Register {
    if index == 0 {
        Register::V0
    } else if index == 1 {
        Register::V1
    } else if index == 2 {
        Register::V2
    } else if index == 3 {
        Register::V3
    } else if index == 4 {
        Register::V4
    } else if index == 5 {
        Register::V5
    } else if index == 6 {
        Register::V6
    } else if index == 7 {
        Register::V7
    } else if index == 8 {
        Register::V8
    } else if index == 9 {
        Register::V9
    } else if index == 10 {
        Register::VA
    } else if index == 11 {
        Register::VB
    } else if index == 12 {
        Register::VC
    } else if index == 13 {
        Register::VD
    } else if index == 14 {
        Register::VE
    } else {
        Register::VF
    }
}

impl Register {
    /// The register's number, from 0 for `V0` to 15 for `VF`.
    pub open spec fn spec_index(self) -> usize {
        match self {
            Register::V0 => 0,
            Register::V1 => 1,
            Register::V2 => 2,
            Register::V3 => 3,
            Register::V4 => 4,
            Register::V5 => 5,
            Register::V6 => 6,
            Register::V7 => 7,
            Register::V8 => 8,
            Register::V9 => 9,
            Register::VA => 10,
            Register::VB => 11,
            Register::VC => 12,
            Register::VD => 13,
            Register::VE => 14,
            Register::VF => 15,
        }
    }

    /// The register's number, which is its place in the register file.
    #[verifier::when_used_as_spec(spec_index)]
    pub fn index(self) -> (i: usize)
        ensures
            i == self.spec_index(),
            i < 16,
    {
        match self {
            Register::V0 => 0,
            Register::V1 => 1,
            Register::V2 => 2,
            Register::V3 => 3,
            Register::V4 => 4,
            Register::V5 => 5,
            Register::V6 => 6,
            Register::V7 => 7,
            Register::V8 => 8,
            Register::V9 => 9,
            Register::VA => 10,
            Register::VB => 11,
            Register::VC => 12,
            Register::VD => 13,
            Register::VE => 14,
            Register::VF => 15,
        }
    }

    /// The register that the low four bits of `nibble` select. Every value
    /// selects one: the sixteen registers cover the whole range of four bits.
    pub fn from_nibble(nibble: u8) -> (r: Register)
        ensures
            r == register_at(nibble as int % 16),
            r.index() == nibble % 16,
    {
        let n: u8 = nibble % 16;
        if n == 0 {
            Register::V0
        } else if n == 1 {
            Register::V1
        } else if n == 2 {
            Register::V2
        } else if n == 3 {
            Register::V3
        } else if n == 4 {
            Register::V4
        } else if n == 5 {
            Register::V5
        } else if n == 6 {
            Register::V6
        } else if n == 7 {
            Register::V7
        } else if n == 8 {
            Register::V8
        } else if n == 9 {
            Register::V9
        } else if n == 10 {
            Register::VA
        } else if n == 11 {
            Register::VB
        } else if n == 12 {
            Register::VC
        } else if n == 13 {
            Register::VD
        } else if n == 14 {
            Register::VE
        } else {
            Register::VF
        }
    }

    /// The register numbered `value`, or an error that carries `value` where
    /// it is 16 or more.
    pub fn try_from(value: u16) -> (r: Result<Register, RegisterParseError>)
        ensures
            value < 16 ==> r == Ok::<Register, RegisterParseError>(register_at(value as int)),
            value >= 16 ==> r == Err::<Register, RegisterParseError>(
                (RegisterParseError { value }),
            ),
    {
        if value < 16 {
            Ok(Register::from_nibble(value as u8))
        } else {
            Err(RegisterParseError { value })
        }
    }
}

/// A register is the one that its own number names.
pub proof fn lemma_register_of_index(r: Register)
    ensures
        register_at(r.index() as int) == r,
        r.index() < 16,
{
}

/// The register that a number names has that number.
pub proof fn lemma_index_of_register(index: int)
    requires
        0 <= index < 16,
    ensures
        register_at(index).index() == index,
{
}

} // verus!
