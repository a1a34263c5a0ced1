use nes_emulator::cpu::{CpuStates, CPU};
use nes_emulator::instructions::{is_defined_opcode, Addressing, Instruction, Operation};
use nes_emulator::operations::{adc, asl, cmp, lsr, pha, pla, rol, ror, sbc};

/// A CPU whose 32 KB program image starts at 0x8000, with the reset
/// vector pointing there and `code` at its start.
fn cpu_with_program(code: &[u8]) -> CPU {
    let mut rom = vec![0xEAu8; 0x8000];
    rom[..code.len()].copy_from_slice(code);
    rom[0x7FFC] = 0x00;
    rom[0x7FFD] = 0x80;
    let mut cpu = CPU::new();
    cpu.init_memory(&rom, rom.len());
    cpu
}

/// Runs one whole instruction from a fetch and returns its cycle count.
fn run_instruction(cpu: &mut CPU) -> u32 {
    assert_eq!(cpu.state, CpuStates::Fetch);
    let mut cycles = 0;
    loop {
        cpu.do_cycle();
        cycles += 1;
        if cpu.state == CpuStates::Fetch {
            return cycles;
        }
    }
}

#[test]
fn power_on_state() {
    let cpu = CPU::new();
    assert_eq!(cpu.accumulator, 0);
    assert_eq!(cpu.reg_x, 0);
    assert_eq!(cpu.reg_y, 0);
    assert_eq!(cpu.stack_pointer, 0xFD);
    assert_eq!(cpu.state, CpuStates::Fetch);
}

#[test]
fn reset_reads_vector() {
    let cpu = cpu_with_program(&[]);
    assert_eq!(cpu.read_memory(0xFFFC), 0x00);
    assert_eq!(cpu.read_memory(0xFFFD), 0x80);
    assert_eq!(cpu.program_counter, 0x8000);
    assert!(cpu.status_flags.irq_disable);
}

#[test]
fn adc_signed_overflow() {
    let mut cpu = CPU::new();
    cpu.accumulator = 0x50;
    cpu.status_flags.carry = false;
    cpu.write_memory(0x0010, 0x50);
    adc(&mut cpu, 0x0010);
    assert_eq!(cpu.accumulator, 0xA0);
    assert!(!cpu.status_flags.carry);
    assert!(cpu.status_flags.overflow);
    assert!(cpu.status_flags.signed);
    assert!(!cpu.status_flags.zero);
}

#[test]
fn adc_carry_out_and_in() {
    let mut cpu = CPU::new();
    cpu.accumulator = 0xFF;
    cpu.status_flags.carry = true;
    cpu.write_memory(0x0010, 0x00);
    adc(&mut cpu, 0x0010);
    assert_eq!(cpu.accumulator, 0x00);
    assert!(cpu.status_flags.carry);
    assert!(cpu.status_flags.zero);
    assert!(!cpu.status_flags.overflow);
}

#[test]
fn sbc_borrow() {
    let mut cpu = CPU::new();
    cpu.accumulator = 0x50;
    cpu.status_flags.carry = true;
    cpu.write_memory(0x0010, 0x10);
    sbc(&mut cpu, 0x0010);
    assert_eq!(cpu.accumulator, 0x40);
    assert!(cpu.status_flags.carry);
    cpu.accumulator = 0x50;
    cpu.write_memory(0x0010, 0xF0);
    sbc(&mut cpu, 0x0010);
    assert_eq!(cpu.accumulator, 0x60);
    assert!(!cpu.status_flags.carry);
    assert!(!cpu.status_flags.overflow);
    cpu.accumulator = 0x50;
    cpu.status_flags.carry = true;
    cpu.write_memory(0x0010, 0xB0);
    sbc(&mut cpu, 0x0010);
    assert_eq!(cpu.accumulator, 0xA0);
    assert!(cpu.status_flags.overflow);
}

#[test]
fn cmp_equal() {
    let mut cpu = CPU::new();
    cpu.accumulator = 0x10;
    cpu.write_memory(0x0020, 0x10);
    cmp(&mut cpu, 0x0020);
    assert!(cpu.status_flags.zero);
    assert!(cpu.status_flags.carry);
    assert!(!cpu.status_flags.signed);
    cpu.write_memory(0x0020, 0x11);
    cmp(&mut cpu, 0x0020);
    assert!(!cpu.status_flags.zero);
    assert!(!cpu.status_flags.carry);
    assert!(cpu.status_flags.signed);
}

#[test]
fn beq_not_taken_two_cycles() {
    let mut cpu = cpu_with_program(&[0xF0, 0x05]);
    cpu.status_flags.zero = false;
    assert_eq!(run_instruction(&mut cpu), 2);
    assert_eq!(cpu.program_counter, 0x8002);
}

#[test]
fn beq_taken_same_page_three_cycles() {
    let mut cpu = cpu_with_program(&[0xF0, 0x05]);
    cpu.status_flags.zero = true;
    assert_eq!(run_instruction(&mut cpu), 3);
    assert_eq!(cpu.program_counter, 0x8007);
}

#[test]
fn beq_taken_other_page_four_cycles() {
    let mut code = vec![0xEAu8; 0xF2];
    code[0xF0] = 0xF0;
    code[0xF1] = 0x20;
    let mut cpu = cpu_with_program(&code);
    cpu.program_counter = 0x80F0;
    cpu.status_flags.zero = true;
    assert_eq!(run_instruction(&mut cpu), 4);
    assert_eq!(cpu.program_counter, 0x8112);
}

#[test]
fn branch_backwards() {
    let mut code = vec![0xEAu8; 0x12];
    code[0x10] = 0xD0;
    code[0x11] = 0xFC;
    let mut cpu = cpu_with_program(&code);
    cpu.program_counter = 0x8010;
    cpu.status_flags.zero = false;
    assert_eq!(run_instruction(&mut cpu), 3);
    assert_eq!(cpu.program_counter, 0x800E);
}

#[test]
fn pha_then_pla_restores() {
    let mut cpu = CPU::new();
    cpu.accumulator = 0x42;
    pha(&mut cpu);
    assert_eq!(cpu.stack_pointer, 0xFC);
    assert_eq!(cpu.read_memory(0x01FD), 0x42);
    cpu.accumulator = 0;
    pla(&mut cpu);
    assert_eq!(cpu.accumulator, 0x42);
    assert_eq!(cpu.stack_pointer, 0xFD);
    assert!(!cpu.status_flags.zero);
}

#[test]
fn stack_pointer_wraps_in_page_one() {
    let mut cpu = CPU::new();
    cpu.stack_pointer = 0x00;
    cpu.write_memory(0x0200, 0x77);
    cpu.write_memory(0x00FF, 0x66);
    cpu.push(0x99);
    assert_eq!(cpu.stack_pointer, 0xFF);
    assert_eq!(cpu.read_memory(0x0100), 0x99);
    assert_eq!(cpu.read_memory(0x0200), 0x77);
    assert_eq!(cpu.read_memory(0x00FF), 0x66);
    assert_eq!(cpu.pop(), 0x99);
    assert_eq!(cpu.stack_pointer, 0x00);
    cpu.stack_pointer = 0xFF;
    cpu.pop();
    assert_eq!(cpu.stack_pointer, 0x00);
}

#[test]
fn undefined_opcode_is_two_cycle_nop() {
    let mut cpu = cpu_with_program(&[0xFF]);
    let before_a = cpu.accumulator;
    let inst = Instruction::decode_inst(0xFF);
    assert_eq!(inst.operation, Operation::NOP);
    assert_eq!(inst.mode, Addressing::Implicit);
    assert_eq!(inst.execute_cycles, 2);
    assert_eq!(run_instruction(&mut cpu), 2);
    assert_eq!(cpu.program_counter, 0x8001);
    assert_eq!(cpu.accumulator, before_a);
}

#[test]
fn shifts_return_bit_out() {
    assert_eq!(asl(0x81), (0x02, true));
    assert_eq!(asl(0x40), (0x80, false));
    assert_eq!(lsr(0x01), (0x00, true));
    assert_eq!(lsr(0x80), (0x40, false));
    assert_eq!(rol(0x80, true), (0x01, true));
    assert_eq!(rol(0x01, false), (0x02, false));
    assert_eq!(ror(0x01, true), (0x80, true));
    assert_eq!(ror(0x02, false), (0x01, false));
}

#[test]
fn asl_accumulator_sets_zero_from_result() {
    let mut cpu = cpu_with_program(&[0x0A]);
    cpu.accumulator = 0x80;
    assert_eq!(run_instruction(&mut cpu), 2);
    assert_eq!(cpu.accumulator, 0x00);
    assert!(cpu.status_flags.zero);
    assert!(cpu.status_flags.carry);
}

#[test]
fn rol_memory_writes_back() {
    let mut cpu = cpu_with_program(&[0x26, 0x10]);
    cpu.write_memory(0x0010, 0x81);
    cpu.accumulator = 0;
    cpu.status_flags.carry = true;
    assert_eq!(run_instruction(&mut cpu), 5);
    assert_eq!(cpu.read_memory(0x0010), 0x03);
    assert!(cpu.status_flags.carry);
    assert!(!cpu.status_flags.zero);
    assert_eq!(cpu.accumulator, 0);
}

#[test]
fn small_program_runs() {
    // LDA #$05; CLC; ADC #$03; STA $0200; LDX $0200; INX; TXA
    let mut cpu = cpu_with_program(&[0xA9, 0x05, 0x18, 0x69, 0x03, 0x8D, 0x00, 0x02, 0xAE, 0x00, 0x02, 0xE8, 0x8A]);
    let cycles: Vec<u32> = (0..7).map(|_| run_instruction(&mut cpu)).collect();
    assert_eq!(cycles, vec![2, 2, 2, 4, 4, 2, 2]);
    assert_eq!(cpu.read_memory(0x0200), 0x08);
    assert_eq!(cpu.reg_x, 0x09);
    assert_eq!(cpu.accumulator, 0x09);
    assert_eq!(cpu.program_counter, 0x800D);
}

#[test]
fn cpy_immediate_compares_y() {
    let mut cpu = cpu_with_program(&[0xC0, 0x07]);
    cpu.reg_x = 0x01;
    cpu.reg_y = 0x07;
    run_instruction(&mut cpu);
    assert!(cpu.status_flags.zero);
    assert!(cpu.status_flags.carry);
}

#[test]
fn jsr_then_rts() {
    let mut code = vec![0xEAu8; 0x40];
    code[0] = 0x20;
    code[1] = 0x30;
    code[2] = 0x80;
    code[0x30] = 0x60;
    let mut cpu = cpu_with_program(&code);
    assert_eq!(run_instruction(&mut cpu), 6);
    assert_eq!(cpu.program_counter, 0x8030);
    assert_eq!(cpu.stack_pointer, 0xFB);
    assert_eq!(cpu.read_memory(0x01FD), 0x80);
    assert_eq!(cpu.read_memory(0x01FC), 0x03);
    assert_eq!(run_instruction(&mut cpu), 6);
    assert_eq!(cpu.program_counter, 0x8003);
    assert_eq!(cpu.stack_pointer, 0xFD);
}

#[test]
fn brk_then_rti() {
    let mut code = vec![0xEAu8; 0x8000];
    code[0] = 0x00;
    code[0x100] = 0x40;
    code[0x7FFE] = 0x00;
    code[0x7FFF] = 0x81;
    let mut cpu = cpu_with_program(&code[..0x7FFC]);
    cpu.write_memory(0xFFFE, 0x00);
    cpu.write_memory(0xFFFF, 0x81);
    cpu.write_memory(0x8100, 0x40);
    cpu.status_flags.carry = true;
    assert_eq!(run_instruction(&mut cpu), 7);
    assert_eq!(cpu.program_counter, 0x8100);
    assert!(cpu.status_flags.break_flag);
    assert_eq!(cpu.read_memory(0x01FB), 0x25);
    assert_eq!(run_instruction(&mut cpu), 6);
    assert_eq!(cpu.program_counter, 0x8001);
    assert!(cpu.status_flags.carry);
    assert!(!cpu.status_flags.break_flag);
    assert_eq!(cpu.stack_pointer, 0xFD);
}

#[test]
fn jmp_indirect_wraps_in_page() {
    let mut cpu = cpu_with_program(&[0x6C, 0xFF, 0x02]);
    cpu.write_memory(0x02FF, 0x34);
    cpu.write_memory(0x0200, 0x12);
    cpu.write_memory(0x0300, 0x56);
    assert_eq!(run_instruction(&mut cpu), 5);
    assert_eq!(cpu.program_counter, 0x1234);
}

#[test]
fn absolute_x_page_cross_costs_a_cycle() {
    let mut cpu = cpu_with_program(&[0xBD, 0xF0, 0x02, 0xBD, 0x00, 0x03]);
    cpu.reg_x = 0x20;
    cpu.write_memory(0x0310, 0xAA);
    cpu.write_memory(0x0320, 0xBB);
    assert_eq!(run_instruction(&mut cpu), 5);
    assert_eq!(cpu.accumulator, 0xAA);
    assert_eq!(run_instruction(&mut cpu), 4);
    assert_eq!(cpu.accumulator, 0xBB);
}

#[test]
fn indirect_modes() {
    // LDA ($10,X); LDA ($20),Y
    let mut cpu = cpu_with_program(&[0xA1, 0x10, 0xB1, 0x20]);
    cpu.reg_x = 0x04;
    cpu.reg_y = 0x10;
    cpu.write_memory(0x0014, 0x00);
    cpu.write_memory(0x0015, 0x03);
    cpu.write_memory(0x0300, 0x5A);
    cpu.write_memory(0x0020, 0xF8);
    cpu.write_memory(0x0021, 0x03);
    cpu.write_memory(0x0408, 0x6B);
    assert_eq!(run_instruction(&mut cpu), 6);
    assert_eq!(cpu.accumulator, 0x5A);
    assert_eq!(run_instruction(&mut cpu), 6);
    assert_eq!(cpu.accumulator, 0x6B);
}

#[test]
fn zero_page_x_wraps() {
    let mut cpu = cpu_with_program(&[0xB5, 0xF0]);
    cpu.reg_x = 0x20;
    cpu.write_memory(0x0010, 0x3C);
    cpu.write_memory(0x0110, 0x4D);
    assert_eq!(run_instruction(&mut cpu), 4);
    assert_eq!(cpu.accumulator, 0x3C);
}

#[test]
fn do_cycle_reports_executed_operation() {
    let mut cpu = cpu_with_program(&[0xE8]);
    assert_eq!(cpu.do_cycle(), None);
    assert_eq!(cpu.do_cycle(), Some(Operation::INX));
    assert_eq!(cpu.reg_x, 1);
    assert_eq!(cpu.cycle, 2);
}

#[test]
fn decode_table_entries() {
    let lda = Instruction::decode_inst(0xA9);
    assert_eq!((lda.operation, lda.mode, lda.execute_cycles), (Operation::LDA, Addressing::Immediate, 2));
    let brk = Instruction::decode_inst(0x00);
    assert_eq!((brk.operation, brk.mode, brk.execute_cycles), (Operation::BRK, Addressing::Implicit, 7));
    let jmp = Instruction::decode_inst(0x6C);
    assert_eq!((jmp.operation, jmp.mode, jmp.execute_cycles), (Operation::JMP, Addressing::Indirect, 5));
    let sta = Instruction::decode_inst(0x91);
    assert_eq!((sta.operation, sta.mode, sta.execute_cycles), (Operation::STA, Addressing::IndirectIndexed, 6));
    let legal = (0..=255u8)
        .filter(|b| {
            let i = Instruction::decode_inst(*b);
            !(i.operation == Operation::NOP && i.mode == Addressing::Implicit && *b != 0xEA)
        })
        .count();
    assert_eq!(legal, 151);
}

#[test]
fn execute_counts_down_to_zero_then_runs() {
    // LDA $0200 takes four cycles.
    let mut cpu = cpu_with_program(&[0xAD, 0x00, 0x02]);
    cpu.write_memory(0x0200, 0x31);
    assert_eq!(cpu.do_cycle(), None);
    assert_eq!(cpu.state, CpuStates::Execute(2));
    assert_eq!(cpu.do_cycle(), None);
    assert_eq!(cpu.state, CpuStates::Execute(1));
    assert_eq!(cpu.do_cycle(), None);
    assert_eq!(cpu.state, CpuStates::Execute(0));
    assert_eq!(cpu.program_counter, 0x8000);
    assert_eq!(cpu.accumulator, 0);
    assert_eq!(cpu.do_cycle(), Some(Operation::LDA));
    assert_eq!(cpu.state, CpuStates::Fetch);
    assert_eq!(cpu.accumulator, 0x31);
    assert_eq!(cpu.program_counter, 0x8003);
}

#[test]
fn two_cycle_instruction_runs_at_execute_zero() {
    let mut cpu = cpu_with_program(&[0xEA]);
    cpu.do_cycle();
    assert_eq!(cpu.state, CpuStates::Execute(0));
    assert_eq!(cpu.program_counter, 0x8000);
    assert_eq!(cpu.do_cycle(), Some(Operation::NOP));
    assert_eq!(cpu.program_counter, 0x8001);
}

#[test]
fn defined_opcodes() {
    assert!(is_defined_opcode(0xEA));
    assert!(is_defined_opcode(0xA9));
    assert!(is_defined_opcode(0x00));
    assert!(!is_defined_opcode(0xFF));
    assert!(!is_defined_opcode(0x02));
    assert_eq!((0..=255u8).filter(|b| is_defined_opcode(*b)).count(), 151);
}
