//! A virtual machine for the CHIP-8 architecture: an instruction decoder and
//! the executor that applies each instruction to the machine's state.

pub mod display;
pub mod hex;
pub mod instruction;
pub mod keyboard;
pub mod machine;
pub mod register;
pub mod theorems;
