use chemu::instruction::DecodeErrorKind;
use chemu::instruction::DecodeInstructionError;
use chemu::instruction::Instruction;
use chemu::keyboard::InputEvent;
use chemu::keyboard::Key;
use chemu::machine::Machine;
use chemu::machine::MachineFault;
use chemu::machine::Register;
use chemu::machine::StepError;
use chemu::machine::StepOutcome;
use chemu::machine::DIGITS;

const REGISTERS: [Register; 16] = [
    Register::V0,
    Register::V1,
    Register::V2,
    Register::V3,
    Register::V4,
    Register::V5,
    Register::V6,
    Register::V7,
    Register::V8,
    Register::V9,
    Register::VA,
    Register::VB,
    Register::VC,
    Register::VD,
    Register::VE,
    Register::VF,
];

fn run(machine: &mut Machine, instr: Instruction) {
    assert_eq!(machine.exec_instr(instr), Ok(StepOutcome::Completed));
}

fn load(machine: &mut Machine, register: Register, value: u8) {
    run(machine, Instruction::LdImm { register, value });
}

fn registers(machine: &Machine) -> Vec<u8> {
    REGISTERS.iter().map(|r| machine.register(*r)).collect()
}

fn memory(machine: &Machine) -> Vec<u8> {
    (0..4096).map(|a| machine.memory_at(a).unwrap()).collect()
}

fn lit(machine: &Machine) -> Vec<(usize, usize)> {
    let mut found = Vec::new();
    for y in 0..32 {
        for x in 0..64 {
            if machine.pixel(x, y) {
                found.push((x, y));
            }
        }
    }
    found
}

/// A machine with `dest` and `src` loaded into V1 and V2, after `make(V1, V2)`
/// was run: the values of V1 and VF.
fn compute(make: fn(Register, Register) -> Instruction, dest: u8, src: u8) -> (u8, u8) {
    let mut machine = Machine::from_file(&[]);
    load(&mut machine, Register::V1, dest);
    load(&mut machine, Register::V2, src);
    run(&mut machine, make(Register::V1, Register::V2));
    assert_eq!(machine.register(Register::V2), src);
    assert_eq!(machine.program_counter(), 512 + 6);
    (machine.register(Register::V1), machine.register(Register::VF))
}

#[test]
fn a_new_machine() {
    let machine = Machine::from_file(&[0x12, 0x34, 0x56]);
    assert_eq!(registers(&machine), vec![0; 16]);
    assert_eq!(machine.program_counter(), 512);
    assert_eq!(machine.stack_pointer(), 80);
    assert_eq!(machine.address_register(), 0);
    assert_eq!(machine.delay_timer(), 0);
    assert_eq!(machine.sound_timer(), 0);
    let held = memory(&machine);
    assert_eq!(&held[..80], &DIGITS[..]);
    assert!(held[80..512].iter().all(|b| *b == 0));
    assert_eq!(&held[512..515], &[0x12, 0x34, 0x56]);
    assert!(held[515..].iter().all(|b| *b == 0));
    assert_eq!(machine.memory_at(4096), None);
    assert!(lit(&machine).is_empty());
}

#[test]
fn a_program_that_fills_memory() {
    let program: Vec<u8> = (0..4000u32).map(|i| (i % 251) as u8 + 1).collect();
    let machine = Machine::from_file(&program);
    let held = memory(&machine);
    assert_eq!(&held[512..], &program[..3584]);
    assert_eq!(&held[..80], &DIGITS[..]);
    let exact = Machine::from_file(&program[..3584]);
    assert_eq!(memory(&exact), held);
}

#[test]
fn digits_are_five_bytes_each() {
    assert_eq!(DIGITS.len(), 80);
    assert_eq!(&DIGITS[0..5], &[0xF0, 0x90, 0x90, 0x90, 0xF0]);
    assert_eq!(&DIGITS[5..10], &[0x20, 0x60, 0x20, 0x20, 0x70]);
    assert_eq!(&DIGITS[75..80], &[0xF0, 0x80, 0xF0, 0x80, 0x80]);
}

#[test]
fn loads_and_copies() {
    let mut machine = Machine::from_file(&[]);
    load(&mut machine, Register::VA, 0x3F);
    assert_eq!(machine.register(Register::VA), 0x3F);
    run(&mut machine, Instruction::LdReg { dest: Register::V0, src: Register::VA });
    assert_eq!(machine.register(Register::V0), 0x3F);
    assert_eq!(machine.program_counter(), 516);
    let mut expected = vec![0; 16];
    expected[0] = 0x3F;
    expected[10] = 0x3F;
    assert_eq!(registers(&machine), expected);
}

#[test]
fn add_immediate_wraps_without_flag() {
    let mut machine = Machine::from_file(&[]);
    load(&mut machine, Register::V1, 0xFE);
    run(&mut machine, Instruction::AddImm { register: Register::V1, value: 3 });
    assert_eq!(machine.register(Register::V1), 1);
    assert_eq!(machine.register(Register::VF), 0);
    run(&mut machine, Instruction::AddImm { register: Register::V1, value: 3 });
    assert_eq!(machine.register(Register::V1), 4);
}

#[test]
fn bitwise_instructions() {
    assert_eq!(compute(|dest, src| Instruction::Or { dest, src }, 0b1100, 0b1010), (0b1110, 0));
    assert_eq!(compute(|dest, src| Instruction::And { dest, src }, 0b1100, 0b1010), (0b1000, 0));
    assert_eq!(compute(|dest, src| Instruction::Xor { dest, src }, 0b1100, 0b1010), (0b0110, 0));
}

#[test]
fn add_with_overflow() {
    let add: fn(Register, Register) -> Instruction = |dest, src| Instruction::AddReg { dest, src };
    assert_eq!(compute(add, 0xFF, 0x02), (0x01, 1));
    assert_eq!(compute(add, 0x01, 0x02), (0x03, 0));
    assert_eq!(compute(add, 0xFF, 0x01), (0x00, 1));
    assert_eq!(compute(add, 0xFF, 0x00), (0xFF, 0));
    assert_eq!(compute(add, 0xFF, 0xFF), (0xFE, 1));
}

#[test]
fn subtract_flags_no_borrow() {
    let sub: fn(Register, Register) -> Instruction = |dest, src| Instruction::Sub { dest, src };
    assert_eq!(compute(sub, 5, 3), (2, 1));
    assert_eq!(compute(sub, 3, 5), (0xFE, 0));
    assert_eq!(compute(sub, 7, 7), (0, 1));
    assert_eq!(compute(sub, 0, 255), (1, 0));
}

#[test]
fn subtract_negated() {
    let sub: fn(Register, Register) -> Instruction = |dest, src| Instruction::SubNeg { dest, src };
    assert_eq!(compute(sub, 3, 5), (2, 1));
    assert_eq!(compute(sub, 5, 3), (0xFE, 0));
    assert_eq!(compute(sub, 7, 7), (0, 1));
}

#[test]
fn shifts_take_the_source() {
    let shr: fn(Register, Register) -> Instruction = |dest, src| Instruction::Shr { dest, src };
    assert_eq!(compute(shr, 0xAA, 0b0000_0101), (0b0000_0010, 1));
    assert_eq!(compute(shr, 0xAA, 0b1000_0100), (0b0100_0010, 0));
    let shl: fn(Register, Register) -> Instruction = |dest, src| Instruction::Shl { dest, src };
    // The flag of a left shift is the top bit where it stood.
    assert_eq!(compute(shl, 0xAA, 0b1000_0101), (0b0000_1010, 0x80));
    assert_eq!(compute(shl, 0xAA, 0b0100_0001), (0b1000_0010, 0));
}

#[test]
fn the_flag_stays_where_the_flag_register_is_the_destination() {
    let mut machine = Machine::from_file(&[]);
    load(&mut machine, Register::VF, 0xFF);
    load(&mut machine, Register::V1, 0x02);
    run(&mut machine, Instruction::AddReg { dest: Register::VF, src: Register::V1 });
    assert_eq!(machine.register(Register::VF), 1);
    load(&mut machine, Register::VF, 9);
    run(&mut machine, Instruction::Sub { dest: Register::VF, src: Register::V1 });
    assert_eq!(machine.register(Register::VF), 1);
}

#[test]
fn skip_equal_immediate() {
    let mut machine = Machine::from_file(&[]);
    load(&mut machine, Register::V4, 7);
    assert_eq!(machine.program_counter(), 514);
    run(&mut machine, Instruction::SeImm { register: Register::V4, value: 7 });
    assert_eq!(machine.program_counter(), 518);
    run(&mut machine, Instruction::SeImm { register: Register::V4, value: 8 });
    assert_eq!(machine.program_counter(), 520);
}

#[test]
fn skip_not_equal_immediate() {
    let mut machine = Machine::from_file(&[]);
    load(&mut machine, Register::V4, 7);
    run(&mut machine, Instruction::SneImm { register: Register::V4, value: 7 });
    assert_eq!(machine.program_counter(), 516);
    run(&mut machine, Instruction::SneImm { register: Register::V4, value: 8 });
    assert_eq!(machine.program_counter(), 520);
}

#[test]
fn skips_on_registers() {
    let mut machine = Machine::from_file(&[]);
    load(&mut machine, Register::V1, 7);
    load(&mut machine, Register::V2, 7);
    load(&mut machine, Register::V3, 8);
    assert_eq!(machine.program_counter(), 518);
    run(&mut machine, Instruction::SeReg { reg1: Register::V1, reg2: Register::V2 });
    assert_eq!(machine.program_counter(), 522);
    run(&mut machine, Instruction::SeReg { reg1: Register::V1, reg2: Register::V3 });
    assert_eq!(machine.program_counter(), 524);
    run(&mut machine, Instruction::SneReg { reg1: Register::V1, reg2: Register::V2 });
    assert_eq!(machine.program_counter(), 526);
    run(&mut machine, Instruction::SneReg { reg1: Register::V1, reg2: Register::V3 });
    assert_eq!(machine.program_counter(), 530);
}

#[test]
fn jumps() {
    let mut machine = Machine::from_file(&[]);
    run(&mut machine, Instruction::Jmp { addr: 0xABC });
    assert_eq!(machine.program_counter(), 0xABC);
    load(&mut machine, Register::V0, 0x10);
    run(&mut machine, Instruction::JmpOff { base_addr: 0x300 });
    assert_eq!(machine.program_counter(), 0x310);
    assert_eq!(machine.stack_pointer(), 80);
}

#[test]
fn call_and_return() {
    let mut machine = Machine::from_file(&[]);
    assert_eq!(machine.program_counter(), 512);
    run(&mut machine, Instruction::Call { addr: 0x300 });
    assert_eq!(machine.program_counter(), 0x300);
    assert_eq!(machine.stack_pointer(), 82);
    assert_eq!(machine.memory_at(80), Some(0x02));
    assert_eq!(machine.memory_at(81), Some(0x02));
    run(&mut machine, Instruction::Ret);
    assert_eq!(machine.program_counter(), 514);
    assert_eq!(machine.stack_pointer(), 80);
}

#[test]
fn nested_calls_return_in_turn() {
    let mut machine = Machine::from_file(&[]);
    run(&mut machine, Instruction::Call { addr: 0x300 });
    run(&mut machine, Instruction::Call { addr: 0x400 });
    assert_eq!(machine.stack_pointer(), 84);
    run(&mut machine, Instruction::Ret);
    assert_eq!(machine.program_counter(), 0x302);
    run(&mut machine, Instruction::Ret);
    assert_eq!(machine.program_counter(), 514);
    assert_eq!(machine.stack_pointer(), 80);
}

#[test]
fn return_without_call_is_a_fault() {
    let mut machine = Machine::from_file(&[]);
    assert_eq!(
        machine.exec_instr(Instruction::Ret),
        Err(MachineFault::StackUnderflow { address: 80 })
    );
    assert_eq!(machine.program_counter(), 512);
    assert_eq!(machine.stack_pointer(), 80);
}

#[test]
fn calls_beyond_memory_are_a_fault() {
    let mut machine = Machine::from_file(&[]);
    for _ in 0..(4096 - 80) / 2 {
        run(&mut machine, Instruction::Call { addr: 0x200 });
    }
    assert_eq!(machine.stack_pointer(), 4096);
    let before = memory(&machine);
    assert_eq!(
        machine.exec_instr(Instruction::Call { addr: 0x200 }),
        Err(MachineFault::StackOverflow { address: 4096 })
    );
    assert_eq!(machine.stack_pointer(), 4096);
    assert_eq!(memory(&machine), before);
    run(&mut machine, Instruction::Ret);
    assert_eq!(machine.stack_pointer(), 4094);
    assert_eq!(machine.program_counter(), 0x202);
}

#[test]
fn program_counter_beyond_memory_is_a_fault() {
    let mut machine = Machine::from_file(&[]);
    run(&mut machine, Instruction::Jmp { addr: 4094 });
    load(&mut machine, Register::V0, 1);
    assert_eq!(machine.program_counter(), 4096);
    assert_eq!(
        machine.exec_instr(Instruction::LdImm { register: Register::V0, value: 2 }),
        Err(MachineFault::ProgramCounter { address: 4096 })
    );
    assert_eq!(machine.register(Register::V0), 1);
    assert_eq!(
        machine.exec_next(),
        Err(StepError::Fault(MachineFault::ProgramCounter { address: 4096 }))
    );
    assert_eq!(
        machine.store_key(Register::V0, Key(3)),
        Err(MachineFault::ProgramCounter { address: 4096 })
    );
    assert_eq!(machine.register(Register::V0), 1);
    let mut odd = Machine::from_file(&[]);
    run(&mut odd, Instruction::Jmp { addr: 4095 });
    assert_eq!(
        odd.exec_next(),
        Err(StepError::Fault(MachineFault::ProgramCounter { address: 4095 }))
    );
}

#[test]
fn machine_code_routines_are_not_run() {
    let mut machine = Machine::from_file(&[]);
    assert_eq!(
        machine.exec_instr(Instruction::Sys { addr: 0x123 }),
        Err(MachineFault::Unsupported { address: 0x123 })
    );
    assert_eq!(machine.program_counter(), 512);
}

#[test]
fn jump_with_offset_beyond_sixteen_bits_is_a_fault() {
    let mut machine = Machine::from_file(&[]);
    load(&mut machine, Register::V0, 1);
    assert_eq!(
        machine.exec_instr(Instruction::JmpOff { base_addr: 0xFFFF }),
        Err(MachineFault::AddressOverflow { address: 0xFFFF })
    );
    run(&mut machine, Instruction::JmpOff { base_addr: 0xFFFE });
    assert_eq!(machine.program_counter(), 0xFFFF);
}

#[test]
fn address_register() {
    let mut machine = Machine::from_file(&[]);
    run(&mut machine, Instruction::LdAddr { addr: 0x123 });
    assert_eq!(machine.address_register(), 0x123);
    load(&mut machine, Register::V5, 0xFF);
    run(&mut machine, Instruction::AddAddr { register: Register::V5 });
    assert_eq!(machine.address_register(), 0x222);
    assert_eq!(machine.register(Register::VF), 0);
    run(&mut machine, Instruction::LdAddr { addr: 0xFFFF });
    assert_eq!(
        machine.exec_instr(Instruction::AddAddr { register: Register::V5 }),
        Err(MachineFault::AddressOverflow { address: 0xFFFF })
    );
    assert_eq!(machine.address_register(), 0xFFFF);
    run(&mut machine, Instruction::LdAddr { addr: 0xFF00 });
    run(&mut machine, Instruction::AddAddr { register: Register::V5 });
    assert_eq!(machine.address_register(), 0xFFFF);
}

#[test]
fn digit_addresses() {
    let mut machine = Machine::from_file(&[]);
    for digit in 0..16u8 {
        load(&mut machine, Register::V1, digit);
        run(&mut machine, Instruction::LdDigit { register: Register::V1 });
        assert_eq!(machine.address_register(), 5 * digit as u16);
    }
    load(&mut machine, Register::V1, 255);
    run(&mut machine, Instruction::LdDigit { register: Register::V1 });
    assert_eq!(machine.address_register(), 1275);
}

#[test]
fn draws_a_digit() {
    let mut machine = Machine::from_file(&[]);
    load(&mut machine, Register::V1, 0x1);
    run(&mut machine, Instruction::LdDigit { register: Register::V1 });
    load(&mut machine, Register::V2, 10);
    load(&mut machine, Register::V3, 20);
    run(&mut machine, Instruction::Drw { x: Register::V2, y: Register::V3, length: 5 });
    // 0x20, 0x60, 0x20, 0x20, 0x70
    assert_eq!(
        lit(&machine),
        vec![(12, 20), (11, 21), (12, 21), (12, 22), (12, 23), (11, 24), (12, 24), (13, 24)]
    );
    // The flag is not set by drawing.
    run(&mut machine, Instruction::Drw { x: Register::V2, y: Register::V3, length: 5 });
    assert!(lit(&machine).is_empty());
    assert_eq!(machine.register(Register::VF), 0);
}

#[test]
fn draw_wraps_at_the_right_edge() {
    let mut machine = Machine::from_file(&[0xFF]);
    run(&mut machine, Instruction::LdAddr { addr: 512 });
    load(&mut machine, Register::V0, 63);
    load(&mut machine, Register::V1, 0);
    run(&mut machine, Instruction::Drw { x: Register::V0, y: Register::V1, length: 1 });
    assert_eq!(
        lit(&machine),
        vec![(0, 0), (1, 0), (2, 0), (3, 0), (4, 0), (5, 0), (6, 0), (63, 0)]
    );
}

#[test]
fn draw_beyond_memory_is_a_fault() {
    let mut machine = Machine::from_file(&[]);
    run(&mut machine, Instruction::LdAddr { addr: 4090 });
    assert_eq!(
        machine.exec_instr(Instruction::Drw { x: Register::V0, y: Register::V0, length: 7 }),
        Err(MachineFault::Memory { address: 4090 })
    );
    run(&mut machine, Instruction::Drw { x: Register::V0, y: Register::V0, length: 6 });
    run(&mut machine, Instruction::LdAddr { addr: 4096 });
    run(&mut machine, Instruction::Drw { x: Register::V0, y: Register::V0, length: 0 });
    assert_eq!(
        machine.exec_instr(Instruction::Drw { x: Register::V0, y: Register::V0, length: 1 }),
        Err(MachineFault::Memory { address: 4096 })
    );
}

#[test]
fn clear_display() {
    let mut machine = Machine::from_file(&[]);
    run(&mut machine, Instruction::Drw { x: Register::V0, y: Register::V0, length: 5 });
    assert!(!lit(&machine).is_empty());
    run(&mut machine, Instruction::Clr);
    assert!(lit(&machine).is_empty());
    assert_eq!(machine.program_counter(), 516);
}

#[test]
fn decimal_store() {
    let mut machine = Machine::from_file(&[]);
    load(&mut machine, Register::V7, 123);
    run(&mut machine, Instruction::LdAddr { addr: 0x300 });
    run(&mut machine, Instruction::LdBcd { register: Register::V7 });
    assert_eq!(machine.memory_at(0x300), Some(1));
    assert_eq!(machine.memory_at(0x301), Some(2));
    assert_eq!(machine.memory_at(0x302), Some(3));
    assert_eq!(machine.memory_at(0x303), Some(0));
    assert_eq!(machine.memory_at(0x2FF), Some(0));
    load(&mut machine, Register::V7, 255);
    run(&mut machine, Instruction::LdBcd { register: Register::V7 });
    assert_eq!(&memory(&machine)[0x300..0x303], &[2, 5, 5]);
    load(&mut machine, Register::V7, 7);
    run(&mut machine, Instruction::LdBcd { register: Register::V7 });
    assert_eq!(&memory(&machine)[0x300..0x303], &[0, 0, 7]);
}

#[test]
fn decimal_store_beyond_memory_is_a_fault() {
    let mut machine = Machine::from_file(&[]);
    load(&mut machine, Register::V7, 123);
    run(&mut machine, Instruction::LdAddr { addr: 4094 });
    let before = memory(&machine);
    assert_eq!(
        machine.exec_instr(Instruction::LdBcd { register: Register::V7 }),
        Err(MachineFault::Memory { address: 4094 })
    );
    assert_eq!(memory(&machine), before);
    run(&mut machine, Instruction::LdAddr { addr: 4093 });
    run(&mut machine, Instruction::LdBcd { register: Register::V7 });
    assert_eq!(&memory(&machine)[4093..], &[1, 2, 3]);
}

#[test]
fn array_store_and_load() {
    let mut machine = Machine::from_file(&[]);
    for (number, register) in REGISTERS.iter().enumerate() {
        load(&mut machine, *register, 0x10 + number as u8);
    }
    run(&mut machine, Instruction::LdAddr { addr: 0x300 });
    run(&mut machine, Instruction::StrArray { end: Register::V3 });
    // The end register is stored too, the next one is not.
    assert_eq!(&memory(&machine)[0x300..0x305], &[0x10, 0x11, 0x12, 0x13, 0]);
    assert_eq!(machine.address_register(), 0x300);
    for register in REGISTERS.iter() {
        load(&mut machine, *register, 0);
    }
    run(&mut machine, Instruction::LdArray { end: Register::V3 });
    let mut expected = vec![0; 16];
    expected[..4].copy_from_slice(&[0x10, 0x11, 0x12, 0x13]);
    assert_eq!(registers(&machine), expected);
}

#[test]
fn array_store_of_one_and_of_all() {
    let mut machine = Machine::from_file(&[]);
    for (number, register) in REGISTERS.iter().enumerate() {
        load(&mut machine, *register, 0xA0 + number as u8);
    }
    run(&mut machine, Instruction::LdAddr { addr: 0x400 });
    run(&mut machine, Instruction::StrArray { end: Register::V0 });
    assert_eq!(&memory(&machine)[0x400..0x402], &[0xA0, 0]);
    run(&mut machine, Instruction::StrArray { end: Register::VF });
    let expected: Vec<u8> = (0..16).map(|i| 0xA0 + i).collect();
    assert_eq!(&memory(&machine)[0x400..0x410], &expected[..]);
    assert_eq!(machine.memory_at(0x410), Some(0));
}

#[test]
fn array_beyond_memory_is_a_fault() {
    let mut machine = Machine::from_file(&[]);
    run(&mut machine, Instruction::LdAddr { addr: 4093 });
    assert_eq!(
        machine.exec_instr(Instruction::StrArray { end: Register::V3 }),
        Err(MachineFault::Memory { address: 4093 })
    );
    assert_eq!(
        machine.exec_instr(Instruction::LdArray { end: Register::V3 }),
        Err(MachineFault::Memory { address: 4093 })
    );
    run(&mut machine, Instruction::StrArray { end: Register::V2 });
    run(&mut machine, Instruction::LdArray { end: Register::V2 });
}

#[test]
fn timers() {
    let mut machine = Machine::from_file(&[]);
    load(&mut machine, Register::V1, 2);
    load(&mut machine, Register::V2, 1);
    run(&mut machine, Instruction::StrDelay { register: Register::V1 });
    run(&mut machine, Instruction::StrSound { register: Register::V2 });
    assert_eq!((machine.delay_timer(), machine.sound_timer()), (2, 1));
    machine.decrement_timers();
    assert_eq!((machine.delay_timer(), machine.sound_timer()), (1, 0));
    run(&mut machine, Instruction::ReadDelay { register: Register::V3 });
    assert_eq!(machine.register(Register::V3), 1);
    machine.decrement_timers();
    assert_eq!((machine.delay_timer(), machine.sound_timer()), (0, 0));
    machine.decrement_timers();
    assert_eq!((machine.delay_timer(), machine.sound_timer()), (0, 0));
    assert_eq!(machine.program_counter(), 512 + 10);
}

#[test]
fn random_is_masked() {
    let mut machine = Machine::from_file(&[]);
    for mask in [0x00u8, 0x0F, 0xF0, 0x55, 0x01, 0x80] {
        for _ in 0..64 {
            run(&mut machine, Instruction::Jmp { addr: 512 });
            run(&mut machine, Instruction::Rnd { register: Register::V1, mask });
            assert_eq!(machine.register(Register::V1) & !mask, 0);
        }
    }
}

#[test]
fn random_bytes_differ() {
    let mut machine = Machine::from_file(&[]);
    let mut seen = std::collections::HashSet::new();
    for _ in 0..256 {
        run(&mut machine, Instruction::Jmp { addr: 512 });
        run(&mut machine, Instruction::Rnd { register: Register::V1, mask: 0xFF });
        seen.insert(machine.register(Register::V1));
    }
    assert!(seen.len() > 1);
}

#[test]
fn the_byte_that_was_drawn_is_masked() {
    let mut machine = Machine::from_file(&[]);
    assert_eq!(
        machine.exec_with(Instruction::Rnd { register: Register::V1, mask: 0x3C }, 0xA5),
        Ok(StepOutcome::Completed)
    );
    assert_eq!(machine.register(Register::V1), 0x24);
    assert_eq!(machine.program_counter(), 514);
}

#[test]
fn skips_on_keys() {
    let mut machine = Machine::from_file(&[]);
    load(&mut machine, Register::V1, 0xA);
    assert!(!machine.is_pressed(Key(0xA)));
    run(&mut machine, Instruction::Skp { keycode: Register::V1 });
    assert_eq!(machine.program_counter(), 516);
    run(&mut machine, Instruction::SkpNeg { keycode: Register::V1 });
    assert_eq!(machine.program_counter(), 520);
    machine.process_key_events(&[InputEvent::KeyDown { keycode: Some('a' as i32) }]);
    assert!(machine.is_pressed(Key(0xA)));
    run(&mut machine, Instruction::Skp { keycode: Register::V1 });
    assert_eq!(machine.program_counter(), 524);
    run(&mut machine, Instruction::SkpNeg { keycode: Register::V1 });
    assert_eq!(machine.program_counter(), 526);
    machine.process_key_events(&[InputEvent::KeyUp { keycode: Some('a' as i32) }]);
    run(&mut machine, Instruction::Skp { keycode: Register::V1 });
    assert_eq!(machine.program_counter(), 528);
}

#[test]
fn no_key_has_a_value_beyond_fifteen() {
    let mut machine = Machine::from_file(&[]);
    machine.process_key_events(&[InputEvent::KeyDown { keycode: Some(16) }]);
    load(&mut machine, Register::V1, 16);
    run(&mut machine, Instruction::Skp { keycode: Register::V1 });
    assert_eq!(machine.program_counter(), 516);
    run(&mut machine, Instruction::SkpNeg { keycode: Register::V1 });
    assert_eq!(machine.program_counter(), 520);
}

#[test]
fn waits_for_a_key() {
    let mut machine = Machine::from_file(&[0xF3, 0x0A, 0x63, 0x01]);
    machine.decrement_timers();
    assert_eq!(machine.exec_next(), Ok(StepOutcome::AwaitingKey { register: Register::V3 }));
    assert_eq!(machine.program_counter(), 512);
    assert_eq!(registers(&machine), vec![0; 16]);
    // Still waiting at the next step.
    assert_eq!(machine.exec_next(), Ok(StepOutcome::AwaitingKey { register: Register::V3 }));
    let events = [
        InputEvent::Other,
        InputEvent::KeyDown { keycode: Some('x' as i32) },
        InputEvent::KeyDown { keycode: Some('e' as i32) },
    ];
    assert_eq!(machine.next_key(&events[..2]), (None, 2));
    assert_eq!(machine.next_key(&events[2..]), (Some(Key(0xE)), 1));
    assert!(machine.is_pressed(Key(0xE)));
    assert_eq!(machine.store_key(Register::V3, Key(0xE)), Ok(()));
    assert_eq!(machine.register(Register::V3), 0xE);
    assert_eq!(machine.program_counter(), 514);
    assert_eq!(machine.exec_next(), Ok(StepOutcome::Completed));
    assert_eq!(machine.register(Register::V3), 1);
}

#[test]
fn steps_through_a_program() {
    // V0 = 0xFF; V1 = 2; V0 += V1; skip if V0 == 1; (skipped); I = 0x300; store BCD of V0
    let program = [
        0x60, 0xFF, 0x61, 0x02, 0x80, 0x14, 0x30, 0x01, 0x00, 0x00, 0xA3, 0x00, 0xF0, 0x33,
    ];
    let mut machine = Machine::from_file(&program);
    for _ in 0..6 {
        assert_eq!(machine.exec_next(), Ok(StepOutcome::Completed));
    }
    assert_eq!(machine.register(Register::V0), 1);
    assert_eq!(machine.register(Register::VF), 1);
    assert_eq!(machine.program_counter(), 512 + 14);
    assert_eq!(&memory(&machine)[0x300..0x303], &[0, 0, 1]);
    // What follows the program is zero: a routine in machine code.
    assert_eq!(
        machine.exec_next(),
        Err(StepError::Fault(MachineFault::Unsupported { address: 0 }))
    );
    assert_eq!(machine.program_counter(), 512 + 14);
}

#[test]
fn a_word_that_is_no_instruction_stops_the_program() {
    let mut machine = Machine::from_file(&[0x61, 0x07, 0x50, 0x01, 0x62, 0x09]);
    assert_eq!(machine.exec_next(), Ok(StepOutcome::Completed));
    let error = StepError::Decode(DecodeInstructionError {
        instr: 0x5001,
        error_kind: DecodeErrorKind::IllegalOpCode,
    });
    assert_eq!(machine.exec_next(), Err(error));
    assert_eq!(machine.exec_next(), Err(error));
    assert_eq!(machine.program_counter(), 514);
    assert_eq!(machine.register(Register::V1), 7);
    assert_eq!(machine.register(Register::V2), 0);
}

#[test]
fn reads_instructions_high_byte_first() {
    let mut machine = Machine::from_file(&[0x1A, 0xBC]);
    assert_eq!(machine.exec_next(), Ok(StepOutcome::Completed));
    assert_eq!(machine.program_counter(), 0xABC);
}

#[test]
fn a_call_may_write_over_the_program() {
    let mut machine = Machine::from_file(&[0x22, 0x00]);
    for _ in 0..(512 - 80) / 2 {
        assert_eq!(machine.exec_next(), Ok(StepOutcome::Completed));
    }
    assert_eq!(machine.stack_pointer(), 512);
    assert_eq!(machine.exec_next(), Ok(StepOutcome::Completed));
    // The return address 0x0202 now stands where the call stood.
    assert_eq!(&memory(&machine)[512..514], &[0x02, 0x02]);
    assert_eq!(
        machine.exec_next(),
        Err(StepError::Fault(MachineFault::Unsupported { address: 0x202 }))
    );
}

#[test]
fn display_is_handed_out_when_it_has_changed() {
    let mut machine = Machine::from_file(&[]);
    assert_eq!(machine.update_display(), None);
    load(&mut machine, Register::V0, 2);
    load(&mut machine, Register::V1, 3);
    run(&mut machine, Instruction::LdAddr { addr: 5 });
    run(&mut machine, Instruction::Drw { x: Register::V0, y: Register::V1, length: 1 });
    let rects = machine.update_display().unwrap();
    assert_eq!(rects.len(), 1);
    assert_eq!((rects[0].x, rects[0].y, rects[0].width, rects[0].height), (40, 30, 10, 10));
    assert_eq!(machine.update_display(), None);
    assert_eq!(lit(&machine), vec![(4, 3)]);
}
