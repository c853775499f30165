//! The machine: its state, and the executor that applies one instruction to
//! it at a time.
//!
//! An instruction first does what it does to the values (registers, memory,
//! the address register, the timers, the display), then to the flow of
//! control: where nothing else is said, the program counter moves on by the
//! two bytes of an instruction.
//!
//! An instruction that would read or write beyond the end of memory, return
//! without a call, or leave the sixteen bits of an address is not run: the
//! executor returns a fault and leaves the state as it was. The stack starts
//! behind the sprites of the digits and may grow up to the end of memory;
//! nothing keeps it from growing over the program.
//!
//! Drawing leaves `VF` alone: whether a sprite turned a pixel off is known to
//! the display, and not handed on to the flag.
//!
//! The instruction that waits for a key is not run by a step. The step says
//! that the machine waits, and for which register, and `store_key` runs the
//! instruction once a key has been pressed; until then the timers may go on.

use vstd::prelude::*;
use rand::rngs::ThreadRng;
use rand::Rng;
use crate::display::Display;
use crate::display::DisplayState;
use crate::display::PixelRect;
use crate::display::cell;
use crate::display::drawn;
use crate::display::lit_rects;
use crate::instruction::DecodeInstructionError;
use crate::instruction::Instruction;
use crate::instruction::decode;
use crate::instruction::decode_result;
use crate::keyboard::InputEvent;
use crate::keyboard::Key;
use crate::keyboard::KeyEvent;
use crate::keyboard::Keyboard;
use crate::keyboard::first_key_down;
use crate::keyboard::key_event_of;
use crate::keyboard::keycode_of;
use crate::keyboard::pressed_after;
pub use crate::register::Register;
pub use crate::register::RegisterParseError;

verus! {

/// The sprites of the sixteen hexadecimal digits, five bytes each.
pub const DIGITS: [u8; 80] = [
    0xF0, 0x90, 0x90, 0x90, 0xF0,
    0x20, 0x60, 0x20, 0x20, 0x70,
    0xF0, 0x10, 0xF0, 0x80, 0xF0,
    0xF0, 0x10, 0xF0, 0x10, 0xF0,
    0x90, 0x90, 0xF0, 0x10, 0x10,
    0xF0, 0x80, 0xF0, 0x10, 0xF0,
    0xF0, 0x80, 0xF0, 0x90, 0xF0,
    0xF0, 0x10, 0x20, 0x40, 0x40,
    0xF0, 0x90, 0xF0, 0x90, 0xF0,
    0xF0, 0x90, 0xF0, 0x10, 0xF0,
    0xF0, 0x90, 0xF0, 0x90, 0x90,
    0xE0, 0x90, 0xE0, 0x90, 0xE0,
    0xF0, 0x80, 0x80, 0x80, 0xF0,
    0xE0, 0x90, 0x90, 0x90, 0xE0,
    0xF0, 0x80, 0xF0, 0x80, 0xF0,
    0xF0, 0x80, 0xF0, 0x80, 0x80,
];

/// Where a program is loaded, and where it starts to run.
pub const PROGRAM_START: usize = 512;

/// The number of bytes of memory.
pub const MEMORY_SIZE: usize = 4096;

/// Where the stack starts: behind the sprites of the digits.
pub const STACK_START: usize = 80;

/// The number of bytes that an address takes on the stack.
pub const ADDR_SIZE: usize = 2;

/// The number of bytes that an instruction takes.
pub const OPCODE_SIZE: usize = 2;

/// The width of the window that the display is shown in.
pub const WINDOW_WIDTH: u32 = 640;

/// The height of the window that the display is shown in.
pub const WINDOW_HEIGHT: u32 = 320;

/// The state of a machine.
pub struct MachineState {
    /// The sixteen registers, `V0` first.
    pub registers: Seq<u8>,
    pub address_register: u16,
    pub program_counter: u16,
    pub stack_pointer: u16,
    pub delay_timer: u8,
    pub sound_timer: u8,
    /// The 4096 bytes of memory.
    pub memory: Seq<u8>,
    pub display: DisplayState,
    /// The key codes of the keys that are held.
    pub pressed: Set<i32>,
}

/// A machine with its display and its keyboard.
pub struct Machine {
    registers: Vec<u8>,
    address_register: u16,
    program_counter: u16,
    stack_pointer: u16,
    delay_timer: u8,
    sound_timer: u8,
    memory: Vec<u8>,
    random: ThreadRng,
    display: Display,
    keyboard: Keyboard,
}

/// The generator of random numbers that `rand` keeps for each thread.
#[verifier::external_type_specification]
#[verifier::external_body]
pub struct ExThreadRng(ThreadRng);

/// `rand::thread_rng` hands out the calling thread's generator. Nothing is
/// claimed of it. It panics where the system gives it nothing to seed the
/// generator with.
pub assume_specification[ rand::thread_rng ]() -> ThreadRng;

/// Draws a byte from the generator with `rand::Rng::gen`. Nothing is claimed
/// of the byte: any may come.
#[verifier::external_body]
fn random_byte(random: &mut ThreadRng) -> (byte: u8) {
    random.gen()
}

/// Why an instruction could not be run. Each carries the address at which
/// the instruction went wrong.
#[derive(Copy, Clone, Debug, PartialEq, Eq, Structural)]
pub enum MachineFault {
    /// The program counter leaves no room for an instruction before the end
    /// of memory. Carries the program counter.
    ProgramCounter { address: u16 },
    /// The instruction reads or writes beyond the end of memory. Carries the
    /// address register.
    Memory { address: u16 },
    /// A call leaves no room for the return address before the end of
    /// memory. Carries the stack pointer.
    StackOverflow { address: u16 },
    /// A return with no call before it. Carries the stack pointer.
    StackUnderflow { address: u16 },
    /// An address that does not fit in sixteen bits. Carries the address
    /// that was to be added to.
    AddressOverflow { address: u16 },
    /// A jump to a machine code routine, which this machine cannot run.
    /// Carries the routine's address.
    Unsupported { address: u16 },
}

/// How an instruction ended.
#[derive(Copy, Clone, Debug, PartialEq, Eq, Structural)]
pub enum StepOutcome {
    /// The instruction was run.
    Completed,
    /// The instruction waits for a key, whose value is to go to `register`.
    /// Nothing has changed; `store_key` runs the instruction once a key has
    /// been pressed.
    AwaitingKey { register: Register },
}

/// Why a step could not be made.
#[derive(Copy, Clone, Debug, PartialEq, Eq, Structural)]
pub enum StepError {
    /// The word at the program counter encodes no instruction.
    Decode(DecodeInstructionError),
    /// The instruction could not be run.
    Fault(MachineFault),
}

/// The value of register `r`.
pub open spec fn register_of(s: MachineState, r: Register) -> u8 {
    s.registers[r.index() as int]
}

/// The state `s` with `value` in register `r`.
pub open spec fn with_register(s: MachineState, r: Register, value: u8) -> MachineState {
    MachineState { registers: s.registers.update(r.index() as int, value), ..s }
}

/// The state `s` with `value` in register `r` and then `flag` in `VF`: where
/// `r` is `VF` itself, the flag is what stays.
pub open spec fn with_result(s: MachineState, r: Register, value: u8, flag: u8) -> MachineState {
    with_register(with_register(s, r, value), Register::VF, flag)
}

/// The state `s` with the program counter moved on by `bytes`.
pub open spec fn advanced(s: MachineState, bytes: int) -> MachineState {
    MachineState { program_counter: (s.program_counter + bytes) as u16, ..s }
}

/// Whether the key whose value is `value` is held.
pub open spec fn key_held(s: MachineState, value: u8) -> bool {
    match keycode_of(value) {
        Some(code) => s.pressed.contains(code),
        None => false,
    }
}

/// The address that the two bytes at `address` hold, the high byte first.
pub open spec fn address_at(memory: Seq<u8>, address: int) -> u16 {
    (memory[address] * 256 + memory[address + 1]) as u16
}

/// The fault that stops `instr` in state `s`, if one does.
pub open spec fn fault_of(s: MachineState, instr: Instruction) -> Option<MachineFault> {
    if s.program_counter + 2 > 4096 {
        Some(MachineFault::ProgramCounter { address: s.program_counter })
    } else {
        match instr {
            Instruction::Sys { addr } => Some(MachineFault::Unsupported { address: addr }),
            Instruction::Call { addr } => if s.stack_pointer + 2 > 4096 {
                Some(MachineFault::StackOverflow { address: s.stack_pointer })
            } else {
                None
            },
            Instruction::Ret => if s.stack_pointer < 80 + 2 {
                Some(MachineFault::StackUnderflow { address: s.stack_pointer })
            } else {
                None
            },
            Instruction::JmpOff { base_addr } => if base_addr + register_of(s, Register::V0)
                > 0xFFFF {
                Some(MachineFault::AddressOverflow { address: base_addr })
            } else {
                None
            },
            Instruction::AddAddr { register } => if s.address_register + register_of(s, register)
                > 0xFFFF {
                Some(MachineFault::AddressOverflow { address: s.address_register })
            } else {
                None
            },
            Instruction::LdBcd { register } => if s.address_register + 3 > 4096 {
                Some(MachineFault::Memory { address: s.address_register })
            } else {
                None
            },
            Instruction::StrArray { end } => if s.address_register + end.index() + 1 > 4096 {
                Some(MachineFault::Memory { address: s.address_register })
            } else {
                None
            },
            Instruction::LdArray { end } => if s.address_register + end.index() + 1 > 4096 {
                Some(MachineFault::Memory { address: s.address_register })
            } else {
                None
            },
            Instruction::Drw { x, y, length } => if s.address_register + length > 4096 {
                Some(MachineFault::Memory { address: s.address_register })
            } else {
                None
            },
            _ => None,
        }
    }
}

/// Whether `instr` loads one register, or combines two bit by bit.
pub open spec fn loads_register(instr: Instruction) -> bool {
    instr is LdImm || instr is AddImm || instr is LdReg || instr is Or || instr is And
        || instr is Xor || instr is Rnd || instr is ReadDelay
}

/// Whether `instr` computes with two registers and sets the flag.
pub open spec fn sets_flag(instr: Instruction) -> bool {
    instr is AddReg || instr is Sub || instr is Shr || instr is SubNeg || instr is Shl
}

/// Whether `instr` sets the address register or a timer.
pub open spec fn sets_pointer_or_timer(instr: Instruction) -> bool {
    instr is LdAddr || instr is StrDelay || instr is StrSound || instr is AddAddr
        || instr is LdDigit
}

/// What an instruction that sets the flag computes from the values of its
/// destination and source registers: the value that goes to the destination,
/// and the flag.
///
/// A sum or difference wraps round. The flag of a sum is 1 if the sum exceeds
/// 255, that of a difference is 1 if nothing was borrowed. A shift moves the
/// source by one bit; the flag of a right shift is the bit that fell out, that
/// of a left shift is the source's top bit, left in its place.
pub open spec fn computed_by(instr: Instruction, dest_value: u8, src_value: u8) -> (u8, u8) {
    match instr {
        Instruction::AddReg { .. } => (
            ((dest_value + src_value) % 256) as u8,
            if dest_value + src_value > 255 { 1u8 } else { 0u8 },
        ),
        Instruction::Sub { .. } => (
            ((dest_value - src_value) % 256) as u8,
            if dest_value >= src_value { 1u8 } else { 0u8 },
        ),
        Instruction::Shr { .. } => (src_value / 2, src_value % 2),
        Instruction::SubNeg { .. } => (
            ((src_value - dest_value) % 256) as u8,
            if src_value >= dest_value { 1u8 } else { 0u8 },
        ),
        Instruction::Shl { .. } => (
            ((src_value * 2) % 256) as u8,
            if src_value >= 128 { 0x80u8 } else { 0u8 },
        ),
        _ => (dest_value, 0u8),
    }
}

/// What `instr` does to registers, memory, the address register, the timers
/// and the display, whatever it does to the flow of control. `random` is the
/// byte that was drawn for it.
pub open spec fn effect(s: MachineState, instr: Instruction, random: u8) -> MachineState {
    match instr {
        Instruction::LdImm { register, value } => with_register(s, register, value),
        Instruction::AddImm { register, value } => with_register(
            s,
            register,
            ((register_of(s, register) + value) % 256) as u8,
        ),
        Instruction::LdReg { dest, src } => with_register(s, dest, register_of(s, src)),
        Instruction::Or { dest, src } => with_register(
            s,
            dest,
            register_of(s, dest) | register_of(s, src),
        ),
        Instruction::And { dest, src } => with_register(
            s,
            dest,
            register_of(s, dest) & register_of(s, src),
        ),
        Instruction::Xor { dest, src } => with_register(
            s,
            dest,
            register_of(s, dest) ^ register_of(s, src),
        ),
        Instruction::AddReg { dest, src }
        | Instruction::Sub { dest, src }
        | Instruction::Shr { dest, src }
        | Instruction::SubNeg { dest, src }
        | Instruction::Shl { dest, src } => {
            let computed = computed_by(instr, register_of(s, dest), register_of(s, src));
            with_result(s, dest, computed.0, computed.1)
        },
        Instruction::LdAddr { addr } => MachineState { address_register: addr, ..s },
        Instruction::Rnd { register, mask } => with_register(s, register, random & mask),
        Instruction::ReadDelay { register } => with_register(s, register, s.delay_timer),
        Instruction::StrDelay { register } => MachineState {
            delay_timer: register_of(s, register),
            ..s
        },
        Instruction::StrSound { register } => MachineState {
            sound_timer: register_of(s, register),
            ..s
        },
        Instruction::AddAddr { register } => MachineState {
            address_register: (s.address_register + register_of(s, register)) as u16,
            ..s
        },
        Instruction::LdDigit { register } => MachineState {
            address_register: (5 * register_of(s, register)) as u16,
            ..s
        },
        Instruction::LdBcd { register } => {
            let value = register_of(s, register);
            let at = s.address_register as int;
            MachineState {
                memory: s.memory.update(at, value / 100).update(
                    at + 1,
                    (value % 100) / 10,
                ).update(at + 2, value % 10),
                ..s
            }
        },
        Instruction::StrArray { end } => {
            let at = s.address_register as int;
            MachineState {
                memory: Seq::new(
                    s.memory.len(),
                    |a: int|
                        if at <= a <= at + end.index() {
                            s.registers[a - at]
                        } else {
                            s.memory[a]
                        },
                ),
                ..s
            }
        },
        Instruction::LdArray { end } => {
            let at = s.address_register as int;
            MachineState {
                registers: Seq::new(
                    s.registers.len(),
                    |i: int|
                        if i <= end.index() {
                            s.memory[at + i]
                        } else {
                            s.registers[i]
                        },
                ),
                ..s
            }
        },
        Instruction::Clr => MachineState {
            display: DisplayState {
                pixels: Seq::new(2048, |k: int| false),
                update_pending: true,
                ..s.display
            },
            ..s
        },
        Instruction::Drw { x, y, length } => {
            let at = s.address_register as int;
            MachineState {
                display: DisplayState {
                    pixels: drawn(
                        s.display.pixels,
                        register_of(s, x) as int,
                        register_of(s, y) as int,
                        s.memory.subrange(at, at + length),
                    ),
                    update_pending: true,
                    ..s.display
                },
                ..s
            }
        },
        _ => s,
    }
}

/// What `instr` does to the flow of control: where no instruction says
/// otherwise, the program counter moves on to the next instruction.
pub open spec fn flow(s: MachineState, instr: Instruction) -> MachineState {
    match instr {
        Instruction::Jmp { addr } => MachineState { program_counter: addr, ..s },
        Instruction::Call { addr } => {
            let back = s.program_counter + 2;
            let top = s.stack_pointer as int;
            MachineState {
                memory: s.memory.update(top, (back / 256) as u8).update(
                    top + 1,
                    (back % 256) as u8,
                ),
                stack_pointer: (top + 2) as u16,
                program_counter: addr,
                ..s
            }
        },
        Instruction::Ret => {
            let top = s.stack_pointer - 2;
            MachineState {
                stack_pointer: top as u16,
                program_counter: address_at(s.memory, top),
                ..s
            }
        },
        Instruction::SeImm { register, value } => advanced(
            s,
            if register_of(s, register) == value { 4 } else { 2 },
        ),
        Instruction::SneImm { register, value } => advanced(
            s,
            if register_of(s, register) != value { 4 } else { 2 },
        ),
        Instruction::SeReg { reg1, reg2 } => advanced(
            s,
            if register_of(s, reg1) == register_of(s, reg2) { 4 } else { 2 },
        ),
        Instruction::SneReg { reg1, reg2 } => advanced(
            s,
            if register_of(s, reg1) != register_of(s, reg2) { 4 } else { 2 },
        ),
        Instruction::JmpOff { base_addr } => MachineState {
            program_counter: (base_addr + register_of(s, Register::V0)) as u16,
            ..s
        },
        Instruction::Skp { keycode } => advanced(
            s,
            if key_held(s, register_of(s, keycode)) { 4 } else { 2 },
        ),
        Instruction::SkpNeg { keycode } => advanced(
            s,
            if !key_held(s, register_of(s, keycode)) { 4 } else { 2 },
        ),
        Instruction::LdKey { register } => s,
        Instruction::Sys { addr } => s,
        _ => advanced(s, 2),
    }
}

/// Whether `instr` can do to the flow of control what it is meant to do: the
/// instruction lies within memory, a call finds room on the stack, a return
/// finds an address there, and a jump goes to an address of sixteen bits.
pub open spec fn flows(s: MachineState, instr: Instruction) -> bool {
    &&& s.program_counter + 2 <= 4096
    &&& instr is Call ==> s.stack_pointer + 2 <= 4096
    &&& instr is Ret ==> s.stack_pointer >= 80 + 2
    &&& instr matches Instruction::JmpOff { base_addr } ==> base_addr + register_of(
        s,
        Register::V0,
    ) <= 0xFFFF
}

/// The state after `instr` was run in state `s`, where no fault stops it and
/// `random` is the byte that was drawn for it. An instruction that waits for
/// a key leaves the state as it is.
pub open spec fn executed(s: MachineState, instr: Instruction, random: u8) -> MachineState {
    flow(effect(s, instr, random), instr)
}

/// The word at the program counter.
pub open spec fn fetched(s: MachineState) -> u16 {
    address_at(s.memory, s.program_counter as int)
}

/// The instruction that the next step runs, or why there is none: the
/// program counter leaves no room for one, or the word there encodes none.
pub open spec fn next_instruction(s: MachineState) -> Result<Instruction, StepError> {
    if s.program_counter + 2 > 4096 {
        Err(StepError::Fault(MachineFault::ProgramCounter { address: s.program_counter }))
    } else {
        match decode_result(fetched(s)) {
            Ok(instr) => Ok(instr),
            Err(error) => Err(StepError::Decode(error)),
        }
    }
}

/// The state after the key that an instruction waited for was pressed: the
/// key's value is in `register`, and the program goes on.
pub open spec fn key_stored(s: MachineState, register: Register, key: Key) -> MachineState {
    advanced(with_register(s, register, key.0), 2)
}

/// The state after a tick of the clock: each timer that is not zero is lower
/// by one.
pub open spec fn ticked(s: MachineState) -> MachineState {
    MachineState {
        delay_timer: if s.delay_timer > 0 { (s.delay_timer - 1) as u8 } else { 0u8 },
        sound_timer: if s.sound_timer > 0 { (s.sound_timer - 1) as u8 } else { 0u8 },
        ..s
    }
}

/// How `instr` ends where no fault stops it.
pub open spec fn outcome_of(instr: Instruction) -> StepOutcome {
    match instr {
        Instruction::LdKey { register } => StepOutcome::AwaitingKey { register },
        _ => StepOutcome::Completed,
    }
}

/// Whether a state has sixteen registers, 4096 bytes of memory and 2048
/// pixels, and a stack pointer between the start of the stack and the end of
/// memory.
pub open spec fn well_formed(s: MachineState) -> bool {
    &&& s.registers.len() == 16
    &&& s.memory.len() == 4096
    &&& s.display.pixels.len() == 2048
    &&& 80 <= s.stack_pointer <= 4096
}

/// The memory of a machine that has just loaded `program`: the sprites of
/// the digits at its start, the program from address 512 on as far as it
/// fits, and zero elsewhere.
pub open spec fn loaded_memory(program: Seq<u8>) -> Seq<u8> {
    Seq::new(
        4096,
        |a: int|
            if a < 80 {
                DIGITS@[a]
            } else if 512 <= a < 512 + program.len() {
                program[a - 512]
            } else {
                0u8
            },
    )
}

/// The state of a machine that has just loaded `program`.
pub open spec fn loaded(program: Seq<u8>) -> MachineState {
    MachineState {
        registers: Seq::new(16, |i: int| 0u8),
        address_register: 0,
        program_counter: 512,
        stack_pointer: 80,
        delay_timer: 0,
        sound_timer: 0,
        memory: loaded_memory(program),
        display: DisplayState {
            pixels: Seq::new(2048, |k: int| false),
            update_pending: false,
            width: 640,
            height: 320,
        },
        pressed: Set::empty(),
    }
}

impl View for Machine {
    type V = MachineState;

    closed spec fn view(&self) -> MachineState {
        MachineState {
            registers: self.registers@,
            address_register: self.address_register,
            program_counter: self.program_counter,
            stack_pointer: self.stack_pointer,
            delay_timer: self.delay_timer,
            sound_timer: self.sound_timer,
            memory: self.memory@,
            display: self.display@,
            pressed: self.keyboard@,
        }
    }
}

/// Computes what an instruction that sets the flag gives for the values of
/// its destination and source registers.
fn compute(instr: &Instruction, dest_value: u8, src_value: u8) -> (computed: (u8, u8))
    ensures
        computed == computed_by(*instr, dest_value, src_value),
{
    match instr {
        Instruction::AddReg { .. } => {
            let sum: u16 = dest_value as u16 + src_value as u16;
            ((sum % 256) as u8, if sum > 255 { 1 } else { 0 })
        },
        Instruction::Sub { .. } => {
            if dest_value >= src_value {
                (dest_value - src_value, 1)
            } else {
                ((256 - (src_value - dest_value) as u16) as u8, 0)
            }
        },
        Instruction::Shr { .. } => {
            assert(src_value >> 1 == src_value / 2 && src_value & 0x1 == src_value % 2)
                by (bit_vector);
            (src_value >> 1, src_value & 0x1)
        },
        Instruction::SubNeg { .. } => {
            if src_value >= dest_value {
                (src_value - dest_value, 1)
            } else {
                ((256 - (dest_value - src_value) as u16) as u8, 0)
            }
        },
        Instruction::Shl { .. } => {
            assert(src_value << 1 == (src_value as u16 * 2) % 256) by (bit_vector);
            assert(src_value & 0x80 == if src_value >= 128 { 0x80u8 } else { 0u8 })
                by (bit_vector);
            (src_value << 1, src_value & 0x80)
        },
        _ => (dest_value, 0),
    }
}

impl Machine {
    /// Whether the machine's state is well formed. Every machine that this
    /// module hands out is.
    pub open spec fn wf(&self) -> bool {
        well_formed(self@)
    }

    /// A machine that has loaded the contents of a program file: the program
    /// stands in memory from address 512 on, cut off at the end of memory.
    pub fn from_file(program: &[u8]) -> (machine: Machine)
        ensures
            machine.wf(),
            machine@ == loaded(program@),
    {
        let mut memory: Vec<u8> = Vec::new();
        let mut a: usize = 0;
        while a < MEMORY_SIZE
            invariant
                a <= MEMORY_SIZE,
                memory@.len() == a,
                forall|i: int| 0 <= i < a ==> memory@[i] == loaded_memory(program@)[i],
            decreases MEMORY_SIZE - a,
        {
            let byte: u8 = if a < STACK_START {
                DIGITS[a]
            } else if a >= PROGRAM_START && a - PROGRAM_START < program.len() {
                program[a - PROGRAM_START]
            } else {
                0
            };
            memory.push(byte);
            a = a + 1;
        }
        let mut registers: Vec<u8> = Vec::new();
        let mut i: usize = 0;
        while i < 16
            invariant
                i <= 16,
                registers@.len() == i,
                forall|j: int| 0 <= j < i ==> registers@[j] == 0,
            decreases 16 - i,
        {
            registers.push(0);
            i = i + 1;
        }
        let machine = Machine {
            registers,
            address_register: 0,
            program_counter: PROGRAM_START as u16,
            stack_pointer: STACK_START as u16,
            delay_timer: 0,
            sound_timer: 0,
            memory,
            random: rand::thread_rng(),
            display: Display::new(WINDOW_WIDTH, WINDOW_HEIGHT),
            keyboard: Keyboard::new(),
        };
        proof {
            assert(machine@.registers =~= loaded(program@).registers);
            assert(machine@.memory =~= loaded(program@).memory);
        }
        machine
    }

    /// The address that the two bytes of memory at `address` hold, the high
    /// byte first.
    fn read_address(&self, address: usize) -> (held: u16)
        requires
            self.wf(),
            address + 2 <= 4096,
        ensures
            held == address_at(self@.memory, address as int),
    {
        let high: u16 = self.memory[address] as u16;
        let low: u16 = self.memory[address + 1] as u16;
        high * 256 + low
    }

    /// The fault that stops `instr` in the machine's state, if one does.
    fn fault(&self, instr: &Instruction) -> (fault: Option<MachineFault>)
        requires
            self.wf(),
        ensures
            fault == fault_of(self@, *instr),
    {
        if self.program_counter as usize + OPCODE_SIZE > MEMORY_SIZE {
            return Some(MachineFault::ProgramCounter { address: self.program_counter });
        }
        let at: usize = self.address_register as usize;
        match instr {
            Instruction::Sys { addr } => Some(MachineFault::Unsupported { address: *addr }),
            Instruction::Call { addr: _ } => {
                if self.stack_pointer as usize + ADDR_SIZE > MEMORY_SIZE {
                    Some(MachineFault::StackOverflow { address: self.stack_pointer })
                } else {
                    None
                }
            },
            Instruction::Ret => {
                if (self.stack_pointer as usize) < STACK_START + ADDR_SIZE {
                    Some(MachineFault::StackUnderflow { address: self.stack_pointer })
                } else {
                    None
                }
            },
            Instruction::JmpOff { base_addr } => {
                if *base_addr as usize + self.registers[Register::V0.index()] as usize > 0xFFFF {
                    Some(MachineFault::AddressOverflow { address: *base_addr })
                } else {
                    None
                }
            },
            Instruction::AddAddr { register } => {
                if at + self.registers[register.index()] as usize > 0xFFFF {
                    Some(MachineFault::AddressOverflow { address: self.address_register })
                } else {
                    None
                }
            },
            Instruction::LdBcd { register: _ } => {
                if at + 3 > MEMORY_SIZE {
                    Some(MachineFault::Memory { address: self.address_register })
                } else {
                    None
                }
            },
            Instruction::StrArray { end } => {
                if at + end.index() + 1 > MEMORY_SIZE {
                    Some(MachineFault::Memory { address: self.address_register })
                } else {
                    None
                }
            },
            Instruction::LdArray { end } => {
                if at + end.index() + 1 > MEMORY_SIZE {
                    Some(MachineFault::Memory { address: self.address_register })
                } else {
                    None
                }
            },
            Instruction::Drw { x: _, y: _, length } => {
                if at + *length as usize > MEMORY_SIZE {
                    Some(MachineFault::Memory { address: self.address_register })
                } else {
                    None
                }
            },
            _ => None,
        }
    }

    /// Puts `value` in register `r` and then `flag` in `VF`.
    fn set_result(&mut self, r: Register, value: u8, flag: u8)
        requires
            old(self).wf(),
        ensures
            final(self)@ == with_result(old(self)@, r, value, flag),
    {
        self.registers.set(r.index(), value);
        self.registers.set(Register::VF.index(), flag);
    }

    /// Copies the registers from `V0` up to and including `end` to memory at
    /// the address register.
    fn store_registers(&mut self, end: Register)
        requires
            old(self).wf(),
            old(self)@.address_register + end.index() + 1 <= 4096,
        ensures
            final(self)@ == effect(old(self)@, (Instruction::StrArray { end }), 0),
    {
        let at: usize = self.address_register as usize;
        let last: usize = end.index();
        let mut i: usize = 0;
        while i <= last
            invariant
                i <= last + 1,
                last < 16,
                at + last + 1 <= 4096,
                at == self.address_register,
                old(self).wf(),
                self.registers@ == old(self).registers@,
                self.memory@.len() == 4096,
                self@ == (MachineState { memory: self.memory@, ..old(self)@ }),
                forall|a: int|
                    0 <= a < 4096 ==> self.memory@[a] == if at <= a < at + i {
                        old(self).registers@[a - at]
                    } else {
                        old(self).memory@[a]
                    },
            decreases last + 1 - i,
        {
            let value: u8 = self.registers[i];
            self.memory.set(at + i, value);
            i = i + 1;
        }
        assert(self@.memory =~= effect(old(self)@, (Instruction::StrArray { end }), 0).memory);
    }

    /// Copies memory at the address register to the registers from `V0` up
    /// to and including `end`.
    fn load_registers(&mut self, end: Register)
        requires
            old(self).wf(),
            old(self)@.address_register + end.index() + 1 <= 4096,
        ensures
            final(self)@ == effect(old(self)@, (Instruction::LdArray { end }), 0),
    {
        let at: usize = self.address_register as usize;
        let last: usize = end.index();
        let mut i: usize = 0;
        while i <= last
            invariant
                i <= last + 1,
                last < 16,
                at + last + 1 <= 4096,
                at == self.address_register,
                old(self).wf(),
                self.memory@ == old(self).memory@,
                self.registers@.len() == 16,
                self@ == (MachineState { registers: self.registers@, ..old(self)@ }),
                forall|j: int|
                    0 <= j < 16 ==> self.registers@[j] == if j < i {
                        old(self).memory@[at + j]
                    } else {
                        old(self).registers@[j]
                    },
            decreases last + 1 - i,
        {
            let value: u8 = self.memory[at + i];
            self.registers.set(i, value);
            i = i + 1;
        }
        assert(self@.registers =~= effect(old(self)@, (Instruction::LdArray { end }), 0).registers);
    }

    /// Puts `value` in register `r`.
    fn set_register(&mut self, r: Register, value: u8)
        requires
            old(self).wf(),
        ensures
            final(self)@ == with_register(old(self)@, r, value),
    {
        self.registers.set(r.index(), value);
    }

    /// The value of register `r`.
    pub fn register(&self, r: Register) -> (value: u8)
        requires
            self.wf(),
        ensures
            value == register_of(self@, r),
    {
        self.registers[r.index()]
    }

    /// Writes the value of `register` in decimal to memory at the address
    /// register: hundreds, tens, ones.
    fn store_decimal(&mut self, register: Register)
        requires
            old(self).wf(),
            old(self)@.address_register + 3 <= 4096,
        ensures
            final(self)@ == effect(old(self)@, (Instruction::LdBcd { register }), 0),
    {
        let value: u8 = self.registers[register.index()];
        let at: usize = self.address_register as usize;
        self.memory.set(at, value / 100);
        self.memory.set(at + 1, (value % 100) / 10);
        self.memory.set(at + 2, value % 10);
    }

    /// Turns every pixel of the display off.
    fn clear_display(&mut self)
        requires
            old(self).wf(),
        ensures
            final(self)@ == effect(old(self)@, Instruction::Clr, 0),
    {
        self.display.clear();
    }

    /// Draws the sprite of `length` rows that lies at the address register,
    /// at the column in register `x` and the row in register `y`.
    fn draw_sprite(&mut self, x: Register, y: Register, length: u8)
        requires
            old(self).wf(),
            old(self)@.address_register + length <= 4096,
        ensures
            final(self)@ == effect(old(self)@, (Instruction::Drw { x, y, length }), 0),
    {
        let at: usize = self.address_register as usize;
        let column: u8 = self.registers[x.index()];
        let line: u8 = self.registers[y.index()];
        let sprite = vstd::slice::slice_subrange(self.memory.as_slice(), at, at + length as usize);
        // Whether a pixel was turned off is not handed on to VF.
        let _ = self.display.draw(column, line, sprite);
    }

    /// Runs an instruction that loads one register or combines two bit by
    /// bit.
    fn apply_load(&mut self, instr: Instruction, random: u8)
        requires
            old(self).wf(),
            loads_register(instr),
        ensures
            final(self)@ == effect(old(self)@, instr, random),
    {
        match instr {
            Instruction::LdImm { register, value } => {
                self.set_register(register, value);
            },
            Instruction::AddImm { register, value } => {
                let sum: u16 = self.register(register) as u16 + value as u16;
                self.set_register(register, (sum % 256) as u8);
            },
            Instruction::LdReg { dest, src } => {
                let value: u8 = self.register(src);
                self.set_register(dest, value);
            },
            Instruction::Or { dest, src } => {
                let value: u8 = self.register(dest) | self.register(src);
                self.set_register(dest, value);
            },
            Instruction::And { dest, src } => {
                let value: u8 = self.register(dest) & self.register(src);
                self.set_register(dest, value);
            },
            Instruction::Xor { dest, src } => {
                let value: u8 = self.register(dest) ^ self.register(src);
                self.set_register(dest, value);
            },
            Instruction::Rnd { register, mask } => {
                self.set_register(register, random & mask);
            },
            Instruction::ReadDelay { register } => {
                let value: u8 = self.delay_timer;
                self.set_register(register, value);
            },
            _ => {},
        }
    }

    /// Runs an instruction that computes with two registers and sets the
    /// flag.
    fn apply_arithmetic(&mut self, instr: Instruction)
        requires
            old(self).wf(),
            sets_flag(instr),
        ensures
            final(self)@ == effect(old(self)@, instr, 0),
    {
        match instr {
            Instruction::AddReg { dest, src }
            | Instruction::Sub { dest, src }
            | Instruction::Shr { dest, src }
            | Instruction::SubNeg { dest, src }
            | Instruction::Shl { dest, src } => {
                let (value, flag) = compute(&instr, self.register(dest), self.register(src));
                self.set_result(dest, value, flag);
            },
            _ => {},
        }
    }

    /// Runs an instruction that sets the address register or a timer.
    fn apply_setting(&mut self, instr: Instruction)
        requires
            old(self).wf(),
            sets_pointer_or_timer(instr),
            fault_of(old(self)@, instr) is None,
        ensures
            final(self)@ == effect(old(self)@, instr, 0),
    {
        match instr {
            Instruction::LdAddr { addr } => {
                self.address_register = addr;
            },
            Instruction::StrDelay { register } => {
                self.delay_timer = self.register(register);
            },
            Instruction::StrSound { register } => {
                self.sound_timer = self.register(register);
            },
            Instruction::AddAddr { register } => {
                self.address_register = self.address_register + self.register(register) as u16;
            },
            Instruction::LdDigit { register } => {
                self.address_register = self.register(register) as u16 * 5;
            },
            _ => {},
        }
    }

    /// Does what `instr` does to registers, memory, the address register,
    /// the timers and the display.
    fn apply_effect(&mut self, instr: Instruction, random: u8)
        requires
            old(self).wf(),
            fault_of(old(self)@, instr) is None,
        ensures
            final(self).wf(),
            final(self)@ == effect(old(self)@, instr, random),
    {
        match instr {
            Instruction::LdImm { .. }
            | Instruction::AddImm { .. }
            | Instruction::LdReg { .. }
            | Instruction::Or { .. }
            | Instruction::And { .. }
            | Instruction::Xor { .. }
            | Instruction::Rnd { .. }
            | Instruction::ReadDelay { .. } => {
                self.apply_load(instr, random);
            },
            Instruction::AddReg { .. }
            | Instruction::Sub { .. }
            | Instruction::Shr { .. }
            | Instruction::SubNeg { .. }
            | Instruction::Shl { .. } => {
                self.apply_arithmetic(instr);
            },
            Instruction::LdAddr { .. }
            | Instruction::StrDelay { .. }
            | Instruction::StrSound { .. }
            | Instruction::AddAddr { .. }
            | Instruction::LdDigit { .. } => {
                self.apply_setting(instr);
            },
            Instruction::LdBcd { register } => {
                self.store_decimal(register);
            },
            Instruction::StrArray { end } => {
                self.store_registers(end);
            },
            Instruction::LdArray { end } => {
                self.load_registers(end);
            },
            Instruction::Clr => {
                self.clear_display();
            },
            Instruction::Drw { x, y, length } => {
                self.draw_sprite(x, y, length);
            },
            _ => {},
        }
    }

    /// Moves the program counter on by `bytes`.
    fn advance(&mut self, bytes: u16)
        requires
            old(self).wf(),
            old(self)@.program_counter + bytes <= 0xFFFF,
        ensures
            final(self)@ == advanced(old(self)@, bytes as int),
    {
        self.program_counter = self.program_counter + bytes;
    }

    /// Moves the program counter past the next instruction too if `skip`
    /// holds, else on to the next instruction.
    fn advance_or_skip(&mut self, skip: bool)
        requires
            old(self).wf(),
            old(self)@.program_counter + 2 <= 4096,
        ensures
            final(self)@ == advanced(old(self)@, if skip { 4int } else { 2int }),
    {
        if skip {
            self.advance(2 * OPCODE_SIZE as u16);
        } else {
            self.advance(OPCODE_SIZE as u16);
        }
    }

    /// Pushes the address of the next instruction and jumps to `addr`.
    fn call(&mut self, addr: u16)
        requires
            old(self).wf(),
            old(self)@.program_counter + 2 <= 4096,
            old(self)@.stack_pointer + 2 <= 4096,
        ensures
            final(self)@ == flow(old(self)@, (Instruction::Call { addr })),
    {
        let back: u16 = self.program_counter + OPCODE_SIZE as u16;
        let top: usize = self.stack_pointer as usize;
        self.memory.set(top, (back / 256) as u8);
        self.memory.set(top + 1, (back % 256) as u8);
        self.stack_pointer = self.stack_pointer + ADDR_SIZE as u16;
        self.program_counter = addr;
    }

    /// Pops the address on top of the stack and jumps to it.
    fn ret(&mut self)
        requires
            old(self).wf(),
            old(self)@.stack_pointer >= 80 + 2,
        ensures
            final(self)@ == flow(old(self)@, Instruction::Ret),
    {
        self.stack_pointer = self.stack_pointer - ADDR_SIZE as u16;
        self.program_counter = self.read_address(self.stack_pointer as usize);
    }

    /// Does what `instr` does to the flow of control.
    fn apply_flow(&mut self, instr: Instruction)
        requires
            old(self).wf(),
            flows(old(self)@, instr),
        ensures
            final(self).wf(),
            final(self)@ == flow(old(self)@, instr),
    {
        match instr {
            Instruction::Jmp { addr } => {
                self.program_counter = addr;
            },
            Instruction::Call { addr } => {
                self.call(addr);
            },
            Instruction::Ret => {
                self.ret();
            },
            Instruction::SeImm { register, value } => {
                let skip = self.register(register) == value;
                self.advance_or_skip(skip);
            },
            Instruction::SneImm { register, value } => {
                let skip = self.register(register) != value;
                self.advance_or_skip(skip);
            },
            Instruction::SeReg { reg1, reg2 } => {
                let skip = self.register(reg1) == self.register(reg2);
                self.advance_or_skip(skip);
            },
            Instruction::SneReg { reg1, reg2 } => {
                let skip = self.register(reg1) != self.register(reg2);
                self.advance_or_skip(skip);
            },
            Instruction::JmpOff { base_addr } => {
                self.program_counter = base_addr + self.register(Register::V0) as u16;
            },
            Instruction::Skp { keycode } => {
                let skip = self.keyboard.is_pressed(Key(self.register(keycode)));
                self.advance_or_skip(skip);
            },
            Instruction::SkpNeg { keycode } => {
                let skip = !self.keyboard.is_pressed(Key(self.register(keycode)));
                self.advance_or_skip(skip);
            },
            Instruction::LdKey { register: _ } => {},
            Instruction::Sys { addr: _ } => {},
            _ => {
                self.advance(OPCODE_SIZE as u16);
            },
        }
    }

    /// Runs `instr`, with `random` as the byte that a random instruction
    /// draws.
    ///
    /// Where a fault stops the instruction, the fault is returned and nothing
    /// has changed. An instruction that waits for a key changes nothing
    /// either, and says so in its outcome.
    pub fn exec_with(&mut self, instr: Instruction, random: u8) -> (outcome: Result<
        StepOutcome,
        MachineFault,
    >)
        requires
            old(self).wf(),
        ensures
            final(self).wf(),
            match fault_of(old(self)@, instr) {
                Some(fault) => outcome == Err::<StepOutcome, MachineFault>(fault) && final(self)@
                    == old(self)@,
                None => outcome == Ok::<StepOutcome, MachineFault>(outcome_of(instr))
                    && final(self)@ == executed(old(self)@, instr, random),
            },
    {
        if let Some(fault) = self.fault(&instr) {
            return Err(fault);
        }
        // First what the instruction does to the values, then where it goes on.
        self.apply_effect(instr, random);
        self.apply_flow(instr);
        match instr {
            Instruction::LdKey { register } => Ok(StepOutcome::AwaitingKey { register }),
            _ => Ok(StepOutcome::Completed),
        }
    }

    /// Runs `instr`. A random instruction draws its byte from the machine's
    /// generator, so that of its result only this is known: it is what some
    /// byte gives.
    ///
    /// Where a fault stops the instruction, the fault is returned and nothing
    /// has changed. An instruction that waits for a key changes nothing
    /// either, and says so in its outcome.
    pub fn exec_instr(&mut self, instr: Instruction) -> (outcome: Result<StepOutcome, MachineFault>)
        requires
            old(self).wf(),
        ensures
            final(self).wf(),
            match fault_of(old(self)@, instr) {
                Some(fault) => outcome == Err::<StepOutcome, MachineFault>(fault) && final(self)@
                    == old(self)@,
                None => {
                    &&& outcome == Ok::<StepOutcome, MachineFault>(outcome_of(instr))
                    &&& exists|random: u8|
                        final(self)@ == #[trigger] executed(old(self)@, instr, random)
                    &&& !(instr is Rnd) ==> final(self)@ == executed(old(self)@, instr, 0)
                },
            },
    {
        let random: u8 = match instr {
            Instruction::Rnd { .. } => random_byte(&mut self.random),
            _ => 0,
        };
        self.exec_with(instr, random)
    }

    /// Makes one step: reads the word at the program counter, decodes it and
    /// runs the instruction.
    ///
    /// Where the word cannot be read or decoded, or the instruction cannot be
    /// run, the error says so and nothing has changed.
    pub fn exec_next(&mut self) -> (outcome: Result<StepOutcome, StepError>)
        requires
            old(self).wf(),
        ensures
            final(self).wf(),
            match next_instruction(old(self)@) {
                Err(error) => outcome == Err::<StepOutcome, StepError>(error) && final(self)@
                    == old(self)@,
                Ok(instr) => match fault_of(old(self)@, instr) {
                    Some(fault) => outcome == Err::<StepOutcome, StepError>(
                        StepError::Fault(fault),
                    ) && final(self)@ == old(self)@,
                    None => {
                        &&& outcome == Ok::<StepOutcome, StepError>(outcome_of(instr))
                        &&& exists|random: u8|
                            final(self)@ == #[trigger] executed(old(self)@, instr, random)
                        &&& !(instr is Rnd) ==> final(self)@ == executed(old(self)@, instr, 0)
                    },
                },
            },
    {
        if self.program_counter as usize + OPCODE_SIZE > MEMORY_SIZE {
            return Err(
                StepError::Fault(MachineFault::ProgramCounter { address: self.program_counter }),
            );
        }
        let encoded: u16 = self.read_address(self.program_counter as usize);
        let instr = match decode(encoded) {
            Ok(instr) => instr,
            Err(error) => {
                return Err(StepError::Decode(error));
            },
        };
        match self.exec_instr(instr) {
            Ok(outcome) => Ok(outcome),
            Err(fault) => Err(StepError::Fault(fault)),
        }
    }

    /// Runs the instruction that waited for a key, now that `key` has been
    /// pressed: the key's value goes to `register`, and the program goes on
    /// with the next instruction.
    pub fn store_key(&mut self, register: Register, key: Key) -> (stored: Result<(), MachineFault>)
        requires
            old(self).wf(),
        ensures
            final(self).wf(),
            old(self)@.program_counter + 2 > 4096 ==> stored == Err::<(), MachineFault>(
                MachineFault::ProgramCounter { address: old(self)@.program_counter },
            ) && final(self)@ == old(self)@,
            old(self)@.program_counter + 2 <= 4096 ==> stored == Ok::<(), MachineFault>(())
                && final(self)@ == key_stored(old(self)@, register, key),
    {
        if self.program_counter as usize + OPCODE_SIZE > MEMORY_SIZE {
            return Err(MachineFault::ProgramCounter { address: self.program_counter });
        }
        self.set_register(register, key.0);
        self.advance(OPCODE_SIZE as u16);
        Ok(())
    }

    /// Lowers each timer that is not zero by one.
    pub fn decrement_timers(&mut self)
        ensures
            final(self)@ == ticked(old(self)@),
    {
        if self.delay_timer > 0 {
            self.delay_timer = self.delay_timer - 1;
        }
        if self.sound_timer > 0 {
            self.sound_timer = self.sound_timer - 1;
        }
    }

    /// Takes note of what the keyboard reported, in its order.
    pub fn process_key_events(&mut self, events: &[InputEvent])
        ensures
            final(self)@ == (MachineState {
                pressed: pressed_after(old(self)@.pressed, events@),
                ..old(self)@
            }),
    {
        self.keyboard.process_events(events);
    }

    /// Takes note of what the keyboard reported, up to and including the
    /// first report that a key of the keypad went down. Returns that key, if
    /// there is one, and the number of reports taken note of.
    pub fn next_key(&mut self, events: &[InputEvent]) -> (found: (Option<Key>, usize))
        ensures
            found.1 == if first_key_down(events@) < events@.len() {
                first_key_down(events@) + 1
            } else {
                events@.len() as int
            },
            final(self)@ == (MachineState {
                pressed: pressed_after(old(self)@.pressed, events@.take(found.1 as int)),
                ..old(self)@
            }),
            first_key_down(events@) < events@.len() ==> found.0 is Some && key_event_of(
                events@[first_key_down(events@)],
            ) == Some(KeyEvent::KeyDown(found.0->Some_0)),
            first_key_down(events@) >= events@.len() ==> found.0 is None,
    {
        self.keyboard.next_key(events)
    }

    /// Hands out what is to be shown, if the display has changed since the
    /// last call: one rectangle of the window for each lit pixel, row by row.
    pub fn update_display(&mut self) -> (rects: Option<Vec<PixelRect>>)
        requires
            old(self).wf(),
        ensures
            final(self).wf(),
            final(self)@ == (MachineState {
                display: DisplayState { update_pending: false, ..old(self)@.display },
                ..old(self)@
            }),
            old(self)@.display.update_pending ==> rects is Some && rects->Some_0@ == lit_rects(
                old(self)@.display.pixels,
                2048,
                (old(self)@.display.width / 64) as u32,
                (old(self)@.display.height / 32) as u32,
            ),
            !old(self)@.display.update_pending ==> rects is None,
    {
        self.display.update()
    }

    /// The address at which the next instruction is read.
    pub fn program_counter(&self) -> (address: u16)
        ensures
            address == self@.program_counter,
    {
        self.program_counter
    }

    /// The address at which the next call puts its return address.
    pub fn stack_pointer(&self) -> (address: u16)
        ensures
            address == self@.stack_pointer,
    {
        self.stack_pointer
    }

    /// The address that the instructions on memory and sprites work at.
    pub fn address_register(&self) -> (address: u16)
        ensures
            address == self@.address_register,
    {
        self.address_register
    }

    /// The delay timer.
    pub fn delay_timer(&self) -> (value: u8)
        ensures
            value == self@.delay_timer,
    {
        self.delay_timer
    }

    /// The sound timer.
    pub fn sound_timer(&self) -> (value: u8)
        ensures
            value == self@.sound_timer,
    {
        self.sound_timer
    }

    /// The byte of memory at `address`; none beyond the end of memory.
    pub fn memory_at(&self, address: usize) -> (byte: Option<u8>)
        requires
            self.wf(),
        ensures
            byte == if address < 4096 {
                Some(self@.memory[address as int])
            } else {
                None
            },
    {
        if address < MEMORY_SIZE {
            Some(self.memory[address])
        } else {
            None
        }
    }

    /// Whether the pixel in column `x` of row `y` is on; `false` outside the
    /// grid.
    pub fn pixel(&self, x: usize, y: usize) -> (on: bool)
        requires
            self.wf(),
        ensures
            on == (x < 64 && y < 32 && self@.display.pixels[cell(x as int, y as int)]),
    {
        self.display.pixel(x, y)
    }

    /// Whether `key` is held.
    pub fn is_pressed(&self, key: Key) -> (held: bool)
        ensures
            held == key_held(self@, key.0),
    {
        self.keyboard.is_pressed(key)
    }
}

} // verus!
