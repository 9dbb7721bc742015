use nesrs::cpu::CPU;
use nesrs::mock_bus::MockBus;

fn prepare_test_cpu(program: &[u8]) -> CPU<MockBus> {
    let mut bus = MockBus::new();

    bus.load_program(program, 0x8000);

    let mut cpu = CPU::new(bus);

    cpu.program_counter = 0x8000;

    cpu
}

fn get_program_end(pc: u16, program_len: usize) -> usize {
    (pc + program_len as u16) as usize
}

#[test]
fn test_program_execution() {
    let program = [0xa9, 0x05, 0x85, 0x00, 0x00]; // LDA #$05, STA $00, BRK
    let mut cpu = prepare_test_cpu(&program);

    cpu.interpret(get_program_end(cpu.program_counter, program.len()));

    assert_eq!(cpu.register_a, 0x05);
    assert_eq!(cpu.mem_read(0x00), 0x05);
}

#[test]
fn test_adc_immediate() {
    let program = vec![0x69, 0x03]; // ADC immediate

    let mut cpu = prepare_test_cpu(&program);

    cpu.register_a = 0x05;

    cpu.interpret_for_test(get_program_end(cpu.program_counter, program.len()), false);

    assert_eq!(cpu.register_a, 0x08); // (0x05 + 0x03)
    assert!(!cpu.flags.z);
    assert!(!cpu.flags.c);
}

#[test]
fn test_adc_zero_flag() {
    let program = vec![0x69, 0x01]; // ADC immediate

    let mut cpu = prepare_test_cpu(&program);

    cpu.register_a = 0xff;

    cpu.interpret_for_test(get_program_end(cpu.program_counter, program.len()), false);

    assert_eq!(cpu.register_a, 0x00); // ADC #0x01 (0xFF + 0x01 = 0x00)
    assert!(cpu.flags.c);
    assert!(cpu.flags.z);
    assert!(!cpu.flags.v);
}

#[test]
fn test_adc_carry_flag() {
    let program = vec![0x69, 0x02]; // ADC immediate
    let mut cpu = prepare_test_cpu(&program);

    cpu.register_a = 0xfe;

    cpu.interpret_for_test(get_program_end(cpu.program_counter, program.len()), false);

    assert_eq!(cpu.register_a, 0x00); // ADC #0x02 (0xFE + 0x02 = 0x00)
    assert!(cpu.flags.z);
    assert!(cpu.flags.c);
}

#[test]
fn test_and_accumulator() {
    let program = vec![0x29, 0xaa]; // AND #$AA
    let mut cpu = prepare_test_cpu(&program);

    cpu.register_a = 0b1100_1100; // 204
    cpu.mem_write(0x2000, 0b1010_1010); // 170

    cpu.interpret_for_test(get_program_end(cpu.program_counter, program.len()), false);

    assert_eq!(cpu.register_a, 0b1000_1000); // 136
}

#[test]
fn test_and_zero_page() {
    let program = vec![0x25, 0x00]; // AND $00
    let mut cpu = prepare_test_cpu(&program);

    cpu.register_a = 0b1100_1100; // 204
    cpu.mem_write(0x00, 0b1010_1010); // 170

    cpu.interpret_for_test(get_program_end(cpu.program_counter, program.len()), false);

    assert_eq!(cpu.register_a, 0b1000_1000); // 136
}

#[test]
fn test_asl_accumulator() {
    let program = vec![0x0a]; // ASL
    let mut cpu = prepare_test_cpu(&program);

    cpu.register_a = 0b1100_1100; // 204

    cpu.interpret_for_test(get_program_end(cpu.program_counter, program.len()), false);

    assert_eq!(cpu.register_a, 0b1001_1000); // 152
    assert!(cpu.flags.c);
}

#[test]
fn test_asl_zero_page() {
    let program = vec![0x06, 0x00]; // ASL $00
    let mut cpu = prepare_test_cpu(&program);

    cpu.mem_write(0x00, 0b1100_1100); // 204

    cpu.interpret_for_test(get_program_end(cpu.program_counter, program.len()), false);

    assert_eq!(cpu.mem_read(0x00), 0b1001_1000); // 152
    assert!(cpu.flags.c);
}

#[test]
fn test_bcc_branch_taken() {
    let program = vec![0x90, 0x05]; // BCC with offset of 5
    let mut cpu = prepare_test_cpu(&program);

    cpu.flags.c = false;

    cpu.interpret_for_test(get_program_end(cpu.program_counter, program.len()), false);

    assert_eq!(cpu.program_counter, 0x8007);
}

#[test]
fn test_bcc_branch_not_taken() {
    let program = vec![0x90, 0x05]; // BCC with offset of 5
    let mut cpu = prepare_test_cpu(&program);

    cpu.flags.c = true;

    cpu.interpret_for_test(get_program_end(cpu.program_counter, program.len()), true);

    assert_eq!(cpu.program_counter, 0x8002);
}

#[test]
fn test_bcc_negative_offset() {
    let program = vec![0x90, 0xfb]; // BCC with offset of -5
    let mut cpu = prepare_test_cpu(&program);

    cpu.flags.c = false;

    cpu.interpret_for_test(get_program_end(cpu.program_counter, program.len()), true);

    // expected PC: 0x8000 (start) + 2 (instruction length) - 5 (offset) = 0x7FFD
    assert_eq!(cpu.program_counter, 0x7ffd);
}

#[test]
fn test_bcs_branch_taken() {
    let program = vec![0xb0, 0x05]; // BCS with offset of 5
    let mut cpu = prepare_test_cpu(&program);

    cpu.flags.c = true;

    cpu.interpret_for_test(get_program_end(cpu.program_counter, program.len()), true);

    assert_eq!(cpu.program_counter, 0x8007);
}

#[test]
fn test_bcs_branch_not_taken() {
    let program = vec![0xb0, 0x05]; // BCS with offset of 5
    let mut cpu = prepare_test_cpu(&program);

    cpu.flags.c = false;

    cpu.interpret_for_test(get_program_end(cpu.program_counter, program.len()), true);

    assert_eq!(cpu.program_counter, 0x8002);
}

#[test]
fn test_bcs_negative_offset() {
    let program = vec![0xb0, 0xfb]; // BCS with offset of -5
    let mut cpu = prepare_test_cpu(&program);

    cpu.flags.c = true;

    cpu.interpret_for_test(get_program_end(cpu.program_counter, program.len()), true);

    assert_eq!(cpu.program_counter, 0x8000u16.wrapping_add(2).wrapping_sub(5));
}

#[test]
fn test_bcs_nop5() {
    let program = vec![0xb0, 0x05, 0xea, 0xea, 0xea, 0xea, 0xea]; // BCS +5, then 5 NOPs
    let mut cpu = prepare_test_cpu(&program);

    cpu.flags.c = true;

    cpu.interpret_for_test(get_program_end(cpu.program_counter, program.len()), true);

    assert_eq!(cpu.program_counter, 0x8007);
}

#[test]
fn test_jmp_absolute() {
    let program = vec![0x4c, 0x34, 0x12]; // JMP $1234
    let mut cpu = prepare_test_cpu(&program);

    cpu.interpret_for_test(get_program_end(cpu.program_counter, program.len()), true);

    assert_eq!(cpu.program_counter, 0x1234);
}

#[test]
fn test_jmp_indirect() {
    let program = vec![0x6c, 0x00, 0x20]; // JMP ($2000)
    let mut cpu = prepare_test_cpu(&program);

    // set up the JMP indirect
    cpu.mem_write(0x2000, 0x78); // LSB
    cpu.mem_write(0x2001, 0x56); // MSB

    cpu.interpret_for_test(get_program_end(cpu.program_counter, program.len()), true);

    assert_eq!(cpu.program_counter, 0x5678);
}

#[test]
fn test_jsr() {
    let program = vec![0x20, 0x34, 0x12]; // JSR $1234
    let mut cpu = prepare_test_cpu(&program);

    cpu.stack_pointer = 0xff;

    cpu.interpret_for_test(get_program_end(cpu.program_counter, program.len()), true);

    assert_eq!(cpu.program_counter, 0x1234, "Program counter should be set to the target address");

    assert_eq!(cpu.stack_pointer, 0xfd, "Stack pointer should be decremented by 2");

    // check the values on the stack
    assert_eq!(cpu.pop_stack(), 0x02, "Low byte of return address should be on the stack");
    assert_eq!(cpu.pop_stack(), 0x80, "High byte of return address should be on the stack");
}
