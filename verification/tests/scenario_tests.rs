use nesrs::cpu::CPU;
use nesrs::cpu_bus::CpuBus;
use nesrs::mock_bus::MockBus;

fn prepare_test_cpu(program: &[u8]) -> CPU<MockBus> {
    let mut bus = MockBus::new();
    bus.load_program(program, 0x8000);
    let mut cpu = CPU::new(bus);
    cpu.program_counter = 0x8000;
    cpu
}

#[test]
fn lda_sta_brk_program_runs_to_the_vector() {
    // LDA #$05; STA $00; BRK, with the IRQ/BRK vector pointing at $9000
    let mut cpu = prepare_test_cpu(&[0xa9, 0x05, 0x85, 0x00, 0x00]);
    cpu.mem_write(0xfffe, 0x00);
    cpu.mem_write(0xffff, 0x90);
    let start = cpu.bus.cycles;

    cpu.interpret(0x8005);

    assert_eq!(cpu.register_a, 0x05);
    assert_eq!(cpu.mem_read(0x00), 0x05);
    assert!(cpu.flags.i);
    assert_eq!(cpu.program_counter, 0x9000);
    assert_eq!(cpu.bus.cycles, start + 2 + 3 + 7);
}

#[test]
fn adc_immediate_sets_no_flags_on_small_sum() {
    // A = $05, ADC #$03
    let mut cpu = prepare_test_cpu(&[0x69, 0x03]);
    cpu.register_a = 0x05;
    cpu.interpret_for_test(0x8001, true);
    assert_eq!(cpu.register_a, 0x08);
    assert!(!cpu.flags.c);
    assert!(!cpu.flags.z);
    assert!(!cpu.flags.v);
    assert!(!cpu.flags.n);
}

#[test]
fn adc_carries_and_zeroes() {
    // A = $FE, ADC #$02
    let mut cpu = prepare_test_cpu(&[0x69, 0x02]);
    cpu.register_a = 0xfe;
    cpu.interpret_for_test(0x8001, true);
    assert_eq!(cpu.register_a, 0x00);
    assert!(cpu.flags.c);
    assert!(cpu.flags.z);
    assert!(!cpu.flags.v);
}

#[test]
fn adc_overflow_into_the_sign_bit() {
    // A = $7F, ADC #$01 with C clear
    let mut cpu = prepare_test_cpu(&[0x69, 0x01]);
    cpu.register_a = 0x7f;
    cpu.flags.c = false;
    cpu.interpret_for_test(0x8001, true);
    assert_eq!(cpu.register_a, 0x80);
    assert!(cpu.flags.v);
    assert!(cpu.flags.n);
    assert!(!cpu.flags.c);
    assert!(!cpu.flags.z);
}

#[test]
fn sbc_borrow_and_overflow() {
    // A = $50, SBC #$F0 with C set: a borrow, no signed overflow
    let mut cpu = prepare_test_cpu(&[0xe9, 0xf0]);
    cpu.register_a = 0x50;
    cpu.flags.c = true;
    cpu.interpret_for_test(0x8001, true);
    assert_eq!(cpu.register_a, 0x60);
    assert!(!cpu.flags.c);
    assert!(!cpu.flags.n);
}

#[test]
fn sbc_signed_overflow() {
    // A = $50, SBC #$B0 with C set: +80 - (-80) overflows the sign bit
    let mut cpu = prepare_test_cpu(&[0xe9, 0xb0]);
    cpu.register_a = 0x50;
    cpu.flags.c = true;
    cpu.interpret_for_test(0x8001, true);
    assert_eq!(cpu.register_a, 0xa0);
    assert!(cpu.flags.v);
    assert!(!cpu.flags.c);
    assert!(cpu.flags.n);
}

#[test]
fn jmp_absolute_costs_three_cycles() {
    let mut cpu = prepare_test_cpu(&[0x4c, 0x34, 0x12]);
    let start = cpu.bus.cycles;
    cpu.interpret_for_test(0x8002, true);
    assert_eq!(cpu.program_counter, 0x1234);
    assert_eq!(cpu.bus.cycles, start + 3);
}

#[test]
fn jsr_pushes_the_return_address_and_costs_six_cycles() {
    let mut cpu = prepare_test_cpu(&[0x20, 0x34, 0x12]);
    cpu.stack_pointer = 0xff;
    let start = cpu.bus.cycles;
    cpu.interpret_for_test(0x8002, true);
    assert_eq!(cpu.program_counter, 0x1234);
    assert_eq!(cpu.stack_pointer, 0xfd);
    assert_eq!(cpu.mem_read(0x01ff), 0x80);
    assert_eq!(cpu.mem_read(0x01fe), 0x02);
    assert_eq!(cpu.bus.cycles, start + 6);
}

#[test]
fn taken_branch_in_page_costs_three_cycles() {
    // BCS +5 with C set from $8000: 2 base + 1 taken, no page cross
    let mut cpu = prepare_test_cpu(&[0xb0, 0x05]);
    cpu.flags.c = true;
    let start = cpu.bus.cycles;
    cpu.interpret_for_test(0x8001, true);
    assert_eq!(cpu.program_counter, 0x8007);
    assert_eq!(cpu.bus.cycles, start + 3);
}

#[test]
fn taken_branch_across_a_page_costs_four_cycles() {
    // BCS +$20 from $80F0 lands on $8112, crossing a page: 2 base + 1 + 1
    let mut bus = MockBus::new();
    bus.load_program(&[0xb0, 0x20], 0x80f0);
    let mut cpu = CPU::new(bus);
    cpu.program_counter = 0x80f0;
    cpu.flags.c = true;
    let start = cpu.bus.cycles;
    cpu.interpret_for_test(0x80f1, true);
    assert_eq!(cpu.program_counter, 0x8112);
    assert_eq!(cpu.bus.cycles, start + 4);
}

#[test]
fn branch_not_taken_costs_two_cycles() {
    let mut cpu = prepare_test_cpu(&[0xb0, 0x05]);
    cpu.flags.c = false;
    let start = cpu.bus.cycles;
    cpu.interpret_for_test(0x8001, true);
    assert_eq!(cpu.program_counter, 0x8002);
    assert_eq!(cpu.bus.cycles, start + 2);
}

#[test]
fn jmp_indirect_wraps_within_the_pointer_page() {
    // JMP ($10FF): the high byte comes from $1000, not $1100
    let mut cpu = prepare_test_cpu(&[0x6c, 0xff, 0x10]);
    cpu.mem_write(0x10ff, 0x34);
    cpu.mem_write(0x1000, 0x12);
    cpu.mem_write(0x1100, 0x99); // must not be used
    cpu.interpret_for_test(0x8002, true);
    assert_eq!(cpu.program_counter, 0x1234);
}

#[test]
fn zero_page_indexing_wraps_within_page_zero() {
    // LDA $FF,X with X = 1 reads from $00
    let mut cpu = prepare_test_cpu(&[0xb5, 0xff]);
    cpu.register_x = 1;
    cpu.mem_write(0x0000, 0x77);
    cpu.mem_write(0x0100, 0x11); // must not be used
    cpu.interpret_for_test(0x8001, true);
    assert_eq!(cpu.register_a, 0x77);
}

#[test]
fn indexed_read_crossing_a_page_costs_one_extra_cycle() {
    // LDA $80FF,X with X = 2 crosses into $8101: 4 base + 1 penalty
    let mut cpu = prepare_test_cpu(&[0xbd, 0xff, 0x80]);
    cpu.register_x = 2;
    cpu.mem_write(0x8101, 0x3c);
    let start = cpu.bus.cycles;
    cpu.interpret_for_test(0x8002, true);
    assert_eq!(cpu.register_a, 0x3c);
    assert_eq!(cpu.bus.cycles, start + 5);
}

#[test]
fn push_then_pop_returns_the_byte_with_s_unchanged() {
    let mut cpu = prepare_test_cpu(&[]);
    let s_before = cpu.stack_pointer;
    cpu.push_stack(0xab);
    assert_eq!(cpu.stack_pointer, s_before.wrapping_sub(1));
    let back = cpu.pop_stack();
    assert_eq!(back, 0xab);
    assert_eq!(cpu.stack_pointer, s_before);
}

#[test]
fn php_plp_round_trip_preserves_the_arithmetic_flags() {
    // PHP; PLP with a scrambled flag byte
    let mut cpu = prepare_test_cpu(&[0x08, 0x28]);
    cpu.flags.c = true;
    cpu.flags.z = false;
    cpu.flags.i = true;
    cpu.flags.d = true;
    cpu.flags.v = true;
    cpu.flags.n = false;
    cpu.flags.b = false;
    cpu.flags.u = true;
    cpu.interpret_for_test(0x8001, true);
    assert!(cpu.flags.c);
    assert!(!cpu.flags.z);
    assert!(cpu.flags.i);
    assert!(cpu.flags.d);
    assert!(cpu.flags.v);
    assert!(!cpu.flags.n);
    assert!(!cpu.flags.b); // live B survives the masked push
    assert!(cpu.flags.u);
}

#[test]
fn php_always_pushes_the_unused_bit_set() {
    let mut cpu = prepare_test_cpu(&[0x08]);
    cpu.flags.u = false; // even with the live bit cleared
    cpu.flags.b = false;
    let s = cpu.stack_pointer;
    cpu.interpret_for_test(0x8000, true);
    let pushed = cpu.mem_read(0x0100 + s as u16);
    assert_eq!(pushed & 0x20, 0x20);
    assert_eq!(pushed & 0x10, 0x10); // PHP also pushes B set
}

#[test]
fn status_register_packs_the_flags() {
    let mut cpu = prepare_test_cpu(&[]);
    cpu.flags.c = true;
    cpu.flags.z = false;
    cpu.flags.i = true;
    cpu.flags.d = false;
    cpu.flags.b = false;
    cpu.flags.u = true;
    cpu.flags.v = false;
    cpu.flags.n = true;
    assert_eq!(cpu.get_status_register(), 0b1010_0101);
}

#[test]
fn reset_loads_the_reset_vector() {
    let mut cpu = prepare_test_cpu(&[]);
    cpu.mem_write(0xfffc, 0x34);
    cpu.mem_write(0xfffd, 0x12);
    cpu.register_a = 0x55;
    let start = cpu.bus.cycles;
    cpu.reset();
    assert_eq!(cpu.program_counter, 0x1234);
    assert_eq!(cpu.stack_pointer, 0xfd);
    assert_eq!(cpu.get_status_register(), 0x24);
    assert_eq!(cpu.register_a, 0x55);
    assert_eq!(cpu.bus.cycles, start + 7);
}

#[test]
fn rts_resumes_after_the_call_site() {
    // JSR $9000; at $9000: RTS
    let mut cpu = prepare_test_cpu(&[0x20, 0x00, 0x90]);
    cpu.mem_write(0x9000, 0x60);
    cpu.interpret_for_test(0x8002, true);
    assert_eq!(cpu.program_counter, 0x9000);
    cpu.interpret_for_test(0x9000, true);
    assert_eq!(cpu.program_counter, 0x8003);
}

#[test]
fn step_instruction_reports_the_cycles_consumed() {
    let mut cpu = prepare_test_cpu(&[0xa9, 0x05]);
    let spent = cpu.step_instruction();
    assert_eq!(spent, 2);
    assert_eq!(cpu.register_a, 0x05);
}

#[test]
fn undefined_opcode_halts_the_dispatch_loop() {
    let mut cpu = prepare_test_cpu(&[0x02, 0xa9, 0x05]);
    cpu.interpret(0x8003);
    // the undefined byte is reported and nothing further runs
    assert_eq!(cpu.register_a, 0x00);
    assert_eq!(cpu.program_counter, 0x8001);
}

#[test]
fn compare_orders_register_against_operand() {
    // CMP #$10 with A = $20: C set, Z clear, N clear
    let mut cpu = prepare_test_cpu(&[0xc9, 0x10]);
    cpu.register_a = 0x20;
    cpu.interpret_for_test(0x8001, true);
    assert!(cpu.flags.c);
    assert!(!cpu.flags.z);
    assert!(!cpu.flags.n);
}

#[test]
fn rotate_left_carries_through_the_carry_flag() {
    // ROL A with C set: bit 0 becomes 1, old bit 7 goes to C
    let mut cpu = prepare_test_cpu(&[0x2a]);
    cpu.register_a = 0b1000_0001;
    cpu.flags.c = true;
    cpu.interpret_for_test(0x8000, true);
    assert_eq!(cpu.register_a, 0b0000_0011);
    assert!(cpu.flags.c);
}

#[test]
fn construction_runs_the_reset_sequence() {
    let mut bus = MockBus::new();
    bus.write(0xfffc, 0x00);
    bus.write(0xfffd, 0x80);
    let cpu = CPU::new(bus);
    assert_eq!(cpu.program_counter, 0x8000);
    assert_eq!(cpu.stack_pointer, 0xfd);
    assert_eq!(cpu.get_status_register(), 0x24);
    assert_eq!(cpu.bus.cycles, 7);
}
