use bytecode_vm::machine::{cpu_multiplier, CPUMemory, RunState, VmError};

/// `ADD r0, r0` with `r0 = 200`: 200 + 200 = 400 mod 256 = 144, carry set.
#[test]
fn add_same_register_overflows() {
    let mut cpu = CPUMemory::new();
    cpu.registers[0] = 200;
    cpu.memory[0] = 0x80;
    cpu.memory[1] = 0x04;
    assert_eq!(cpu.step(), Ok(RunState::Running));
    assert_eq!(cpu.registers[0], 144);
    assert_eq!(cpu.registers[0xF], 1);
}

/// Overflow boundary: 250 + 10 wraps to 4 with the flag set.
#[test]
fn add_overflow_boundary_wraps() {
    let mut cpu = CPUMemory::new();
    cpu.registers[0] = 250;
    cpu.registers[1] = 10;
    cpu.memory[0] = 0x80;
    cpu.memory[1] = 0x14;
    assert_eq!(cpu.step(), Ok(RunState::Running));
    assert_eq!(cpu.registers[0], 4);
    assert_eq!(cpu.registers[0xF], 1);
}

/// No overflow: 100 + 10 = 110 and the flag is cleared.
#[test]
fn add_without_overflow_clears_flag() {
    let mut cpu = CPUMemory::new();
    cpu.registers[0] = 100;
    cpu.registers[1] = 10;
    cpu.registers[0xF] = 1;
    cpu.memory[0] = 0x80;
    cpu.memory[1] = 0x14;
    assert_eq!(cpu.step(), Ok(RunState::Running));
    assert_eq!(cpu.registers[0], 110);
    assert_eq!(cpu.registers[0xF], 0);
}

/// The sum and the carry are the same whichever way the operands are
/// named; only the destination register differs.
#[test]
fn add_computes_symmetrically() {
    let mut forward = CPUMemory::new();
    forward.registers[0] = 250;
    forward.registers[1] = 10;
    forward.memory[0] = 0x80;
    forward.memory[1] = 0x14;
    assert_eq!(forward.step(), Ok(RunState::Running));

    let mut backward = CPUMemory::new();
    backward.registers[0] = 250;
    backward.registers[1] = 10;
    backward.memory[0] = 0x81;
    backward.memory[1] = 0x04;
    assert_eq!(backward.step(), Ok(RunState::Running));

    assert_eq!(forward.registers[0], 4);
    assert_eq!(backward.registers[1], 4);
    assert_eq!(forward.registers[0xF], backward.registers[0xF]);
    assert_eq!(forward.registers[0xF], 1);
}

/// With `x == 0xF` the flag write lands last and overwrites the sum:
/// the flag register never shows the sum of an ADD aimed at it.
#[test]
fn flag_register_destination_is_overwritten() {
    let mut cpu = CPUMemory::new();
    cpu.registers[0xF] = 200;
    cpu.registers[1] = 100;
    cpu.memory[0] = 0x8F;
    cpu.memory[1] = 0x14;
    assert_eq!(cpu.step(), Ok(RunState::Running));
    assert_eq!(cpu.registers[0xF], 1);

    let mut cpu = CPUMemory::new();
    cpu.registers[0xF] = 10;
    cpu.registers[1] = 5;
    cpu.memory[0] = 0x8F;
    cpu.memory[1] = 0x14;
    assert_eq!(cpu.step(), Ok(RunState::Running));
    assert_eq!(cpu.registers[0xF], 0);
}

/// CALL at 0x000 then RETURN at 0x100: the program counter lands on the
/// instruction after the CALL and the stack pointer is restored.
#[test]
fn call_return_round_trip() {
    let mut cpu = CPUMemory::new();
    cpu.memory[0x000] = 0x21;
    cpu.memory[0x001] = 0x00;
    cpu.memory[0x100] = 0x00;
    cpu.memory[0x101] = 0xEE;
    assert_eq!(cpu.step(), Ok(RunState::Running));
    assert_eq!(cpu.position_in_memory, 0x100);
    assert_eq!(cpu.stack_pointer, 1);
    assert_eq!(cpu.step(), Ok(RunState::Running));
    assert_eq!(cpu.position_in_memory, 0x002);
    assert_eq!(cpu.stack_pointer, 0);
}

/// Sixteen nested calls fill the stack; the seventeenth reports
/// StackOverflow and leaves the state exactly as before the failed push.
#[test]
fn seventeenth_nested_call_overflows() {
    let mut cpu = CPUMemory::new();
    // CALL 0x000 at 0x000: each step pushes and jumps back to the start.
    cpu.memory[0] = 0x20;
    cpu.memory[1] = 0x00;
    for depth in 1..=16usize {
        assert_eq!(cpu.step(), Ok(RunState::Running));
        assert_eq!(cpu.stack_pointer, depth);
    }
    let registers_before = cpu.registers.clone();
    let stack_before = cpu.stack.clone();
    assert_eq!(cpu.step(), Err(VmError::StackOverflow));
    // The fetch completed, so the counter sits past the CALL word;
    // nothing of the failed push itself is visible.
    assert_eq!(cpu.position_in_memory, 2);
    assert_eq!(cpu.stack_pointer, 16);
    assert_eq!(cpu.registers, registers_before);
    assert_eq!(cpu.stack, stack_before);
}

/// RETURN with an empty stack reports StackUnderflow; nothing is loaded
/// into the program counter, which shows only the fetch's advance.
#[test]
fn return_on_empty_stack_underflows() {
    let mut cpu = CPUMemory::new();
    cpu.memory[0] = 0x00;
    cpu.memory[1] = 0xEE;
    assert_eq!(cpu.step(), Err(VmError::StackUnderflow));
    assert_eq!(cpu.position_in_memory, 2);
    assert_eq!(cpu.stack_pointer, 0);
}

/// The dedicated methods report the same two stack faults without
/// touching the program counter.
#[test]
fn call_and_ret_report_stack_faults() {
    let mut cpu = CPUMemory::new();
    assert_eq!(cpu.ret(), Err(VmError::StackUnderflow));
    assert_eq!(cpu.position_in_memory, 0);
    cpu.stack_pointer = 16;
    assert_eq!(cpu.call(0x200), Err(VmError::StackOverflow));
    assert_eq!(cpu.position_in_memory, 0);
}

/// `call` pushes the current program counter as the dispatcher left it:
/// after the fetch of a CALL at 0x000 the counter reads 0x002, and that
/// is the saved return address.
#[test]
fn call_saves_current_counter() {
    let mut cpu = CPUMemory::new();
    cpu.position_in_memory = 0x002;
    assert_eq!(cpu.call(0x100), Ok(()));
    assert_eq!(cpu.stack[0], 0x002);
    assert_eq!(cpu.stack_pointer, 1);
    assert_eq!(cpu.position_in_memory, 0x100);
}

/// A fetch at the last byte of memory cannot read a whole word.
#[test]
fn fetch_past_end_of_memory() {
    let mut cpu = CPUMemory::new();
    cpu.position_in_memory = 4095;
    assert_eq!(cpu.step(), Err(VmError::OutOfBoundsFetch));
    assert_eq!(cpu.position_in_memory, 4095);
}

/// An unknown pattern reports the raw offending word; the counter has
/// advanced 2 past it and nothing else happened.
#[test]
fn unknown_opcode_is_reported() {
    let mut cpu = CPUMemory::new();
    cpu.memory[0] = 0xF0;
    cpu.memory[1] = 0x12;
    assert_eq!(cpu.step(), Err(VmError::UnimplementedOpcode(0xF012)));
    assert_eq!(cpu.position_in_memory, 2);
}

/// A zero word is HALT: the step reports it and advances past the word.
#[test]
fn halt_word_halts() {
    let mut cpu = CPUMemory::new();
    assert_eq!(cpu.step(), Ok(RunState::Halted));
    assert_eq!(cpu.position_in_memory, 2);
}

/// The worked multiplier example: two calls to a routine that adds
/// r1 into r0 twice; 5 + 4 * 10 = 45, stack empty again at the end.
#[test]
fn multiplier_reaches_45() {
    let cpu = cpu_multiplier();
    assert_eq!(cpu.registers[0], 45);
    assert_eq!(cpu.stack_pointer, 0);
}

/// The same program built by hand and driven by `run`.
#[test]
fn run_to_halt_by_hand() {
    let mut cpu = CPUMemory::new();
    cpu.registers[0] = 5;
    cpu.registers[1] = 10;
    let program: [(usize, u8); 12] = [
        (0x000, 0x21),
        (0x001, 0x00),
        (0x002, 0x21),
        (0x003, 0x00),
        (0x004, 0x00),
        (0x005, 0x00),
        (0x100, 0x80),
        (0x101, 0x14),
        (0x102, 0x80),
        (0x103, 0x14),
        (0x104, 0x00),
        (0x105, 0xEE),
    ];
    for (addr, byte) in program {
        cpu.memory[addr] = byte;
    }
    assert_eq!(cpu.run(), Ok(()));
    assert_eq!(cpu.registers[0], 45);
    assert_eq!(cpu.stack_pointer, 0);
    assert_eq!(cpu.position_in_memory, 6);
}

/// `run` surfaces a fault instead of swallowing it, and the effects of
/// the instructions before the fault are visible.
#[test]
fn run_surfaces_fault() {
    let mut cpu = CPUMemory::new();
    cpu.registers[0] = 1;
    cpu.registers[1] = 2;
    cpu.memory[0] = 0x80;
    cpu.memory[1] = 0x14;
    cpu.memory[2] = 0xF0;
    cpu.memory[3] = 0x0D;
    assert_eq!(cpu.run(), Err(VmError::UnimplementedOpcode(0xF00D)));
    assert_eq!(cpu.registers[0], 3);
    // The bad word sits at 0x002; its completed fetch left the counter
    // 2 past it.
    assert_eq!(cpu.position_in_memory, 4);
}
