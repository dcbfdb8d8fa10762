use bytecode_vm::cpu::{cpu_sample, CPU};

#[test]
fn sample_adds_5_and_10() {
    let cpu = cpu_sample();
    assert_eq!(cpu.registers[0], 15);
    assert_eq!(cpu.registers[1], 10);
}

#[test]
fn reduced_machine_runs_one_add() {
    let mut cpu = CPU::new();
    cpu.current_operation = 0x8104;
    cpu.registers[0] = 7;
    cpu.registers[1] = 20;
    cpu.run();
    assert_eq!(cpu.registers[0], 7);
    assert_eq!(cpu.registers[1], 27);
}

#[test]
fn read_opcode_returns_held_word() {
    let mut cpu = CPU::new();
    cpu.current_operation = 0x8014;
    assert_eq!(cpu.read_opcode(), 0x8014);
}
