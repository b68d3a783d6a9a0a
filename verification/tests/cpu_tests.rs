use rustness::ben6502::{decode_opcode, AddressingMode, Ben6502, Instruction};
use rustness::bus::Bus16Bit;
use rustness::cartridge::create_cartridge_from_ines_bytes;

const PRG_OFFSET: usize = 16;

/// An iNES image with one program bank holding `program` at 0x8000, the
/// reset vector at 0x8000 and the NMI vector at 0x9000.
fn rom_with_program(program: &[u8], nmi_handler: &[u8]) -> Vec<u8> {
    let mut rom = vec![0u8; 16 + 16384 + 8192];
    rom[0] = 0x4E;
    rom[1] = 0x45;
    rom[2] = 0x53;
    rom[3] = 0x1A;
    rom[4] = 1;
    rom[5] = 1;
    for (i, b) in program.iter().enumerate() {
        rom[PRG_OFFSET + i] = *b;
    }
    for (i, b) in nmi_handler.iter().enumerate() {
        rom[PRG_OFFSET + 0x1000 + i] = *b;
    }
    rom[PRG_OFFSET + 0x3FFA] = 0x00;
    rom[PRG_OFFSET + 0x3FFB] = 0x90;
    rom[PRG_OFFSET + 0x3FFC] = 0x00;
    rom[PRG_OFFSET + 0x3FFD] = 0x80;
    rom
}

fn cpu_with_program(program: &[u8], nmi_handler: &[u8]) -> Ben6502 {
    let rom = rom_with_program(program, nmi_handler);
    let cartridge = create_cartridge_from_ines_bytes(&rom).unwrap();
    let bus = Bus16Bit::new(cartridge);
    let mut cpu = Ben6502::new(bus);
    while cpu.current_instruction_remaining_cycles > 0 {
        cpu.clock_cycle();
    }
    cpu
}

fn run_instruction(cpu: &mut Ben6502) {
    cpu.clock_cycle();
    while cpu.current_instruction_remaining_cycles > 0 {
        cpu.clock_cycle();
    }
}

#[test]
fn reset_loads_the_vector_and_the_stack_pointer() {
    let rom = rom_with_program(&[0xEA], &[]);
    let cartridge = create_cartridge_from_ines_bytes(&rom).unwrap();
    let cpu = Ben6502::new(Bus16Bit::new(cartridge));
    assert_eq!(cpu.registers.pc, 0x8000);
    assert_eq!(cpu.registers.sp, 0xFD);
    assert_eq!(cpu.status.flags, 0x20);
    assert_eq!(cpu.registers.a, 0);
    assert_eq!(cpu.current_instruction_remaining_cycles, 8);
}

#[test]
fn lda_immediate_sets_a_and_flags() {
    let mut cpu = cpu_with_program(&[0xA9, 0x00, 0xA9, 0x80], &[]);
    run_instruction(&mut cpu);
    assert_eq!(cpu.registers.a, 0);
    assert_eq!(cpu.status.get_zero(), 1);
    run_instruction(&mut cpu);
    assert_eq!(cpu.registers.a, 0x80);
    assert_eq!(cpu.status.get_zero(), 0);
    assert_eq!(cpu.status.get_negative(), 1);
    assert_eq!(cpu.registers.pc, 0x8004);
}

#[test]
fn pha_then_pla_gives_back_the_accumulator() {
    // LDA #$05; PHA; LDA #$00; PLA
    let mut cpu = cpu_with_program(&[0xA9, 0x05, 0x48, 0xA9, 0x00, 0x68], &[]);
    run_instruction(&mut cpu);
    run_instruction(&mut cpu);
    assert_eq!(cpu.registers.sp, 0xFC);
    run_instruction(&mut cpu);
    assert_eq!(cpu.registers.a, 0);
    run_instruction(&mut cpu);
    assert_eq!(cpu.registers.a, 5);
    assert_eq!(cpu.registers.sp, 0xFD);
}

#[test]
fn jsr_then_rts_returns_after_the_call() {
    // JSR $8010; LDX #$07 ... at $8010: RTS
    let mut program = vec![0u8; 0x11];
    program[0] = 0x20;
    program[1] = 0x10;
    program[2] = 0x80;
    program[3] = 0xA2;
    program[4] = 0x07;
    program[0x10] = 0x60;
    let mut cpu = cpu_with_program(&program, &[]);
    run_instruction(&mut cpu);
    assert_eq!(cpu.registers.pc, 0x8010);
    assert_eq!(cpu.registers.sp, 0xFB);
    run_instruction(&mut cpu);
    assert_eq!(cpu.registers.pc, 0x8003);
    assert_eq!(cpu.registers.sp, 0xFD);
    run_instruction(&mut cpu);
    assert_eq!(cpu.registers.x, 7);
}

#[test]
fn nmi_then_rti_gives_back_pc_and_sp() {
    let mut cpu = cpu_with_program(&[0xEA], &[0x40]);
    let flags_before = cpu.status.flags;
    cpu.nmi();
    assert_eq!(cpu.registers.pc, 0x9000);
    assert_eq!(cpu.registers.sp, 0xFA);
    assert_eq!(cpu.current_instruction_remaining_cycles, 8);
    while cpu.current_instruction_remaining_cycles > 0 {
        cpu.clock_cycle();
    }
    run_instruction(&mut cpu);
    assert_eq!(cpu.registers.pc, 0x8000);
    assert_eq!(cpu.registers.sp, 0xFD);
    assert_eq!(cpu.status.flags, ((flags_before | 0x04) & !0x10) | 0x20);
    assert_eq!(cpu.status.get_unused_bit(), 1);
}

#[test]
fn irq_is_ignored_while_interrupts_are_disabled() {
    let mut cpu = cpu_with_program(&[0x78, 0xEA], &[]);
    run_instruction(&mut cpu);
    assert_eq!(cpu.status.get_irq_disable(), 1);
    cpu.irq();
    assert_eq!(cpu.registers.pc, 0x8001);
    assert_eq!(cpu.registers.sp, 0xFD);
}

#[test]
fn adc_sets_overflow_on_signed_overflow() {
    // CLC; LDA #$50; ADC #$50
    let mut cpu = cpu_with_program(&[0x18, 0xA9, 0x50, 0x69, 0x50], &[]);
    run_instruction(&mut cpu);
    run_instruction(&mut cpu);
    run_instruction(&mut cpu);
    assert_eq!(cpu.registers.a, 0xA0);
    assert_eq!(cpu.status.get_overflow(), 1);
    assert_eq!(cpu.status.get_negative(), 1);
    assert_eq!(cpu.status.get_carry(), 0);
}

#[test]
fn sta_then_lda_through_ram() {
    // LDA #$42; STA $0200; LDA #$00; LDA $0A00 (a mirror of $0200)
    let mut cpu = cpu_with_program(&[0xA9, 0x42, 0x8D, 0x00, 0x02, 0xA9, 0x00, 0xAD, 0x00, 0x0A], &[]);
    for _ in 0..4 {
        run_instruction(&mut cpu);
    }
    assert_eq!(cpu.registers.a, 0x42);
    assert_eq!(cpu.bus.ram.memory[0x200], 0x42);
}

#[test]
fn loop_counts_down_with_branches() {
    // LDX #$03; DEX; BNE -3; NOP
    let mut cpu = cpu_with_program(&[0xA2, 0x03, 0xCA, 0xD0, 0xFD, 0xEA], &[]);
    for _ in 0..7 {
        run_instruction(&mut cpu);
    }
    assert_eq!(cpu.registers.x, 0);
    assert_eq!(cpu.status.get_zero(), 1);
    assert_eq!(cpu.registers.pc, 0x8005);
}

#[test]
fn decode_opcode_reads_the_table() {
    let d = decode_opcode(0xA9);
    assert_eq!(d.instruction, Instruction::LDA);
    assert_eq!(d.addressing_mode, AddressingMode::IMM);
    assert_eq!(d.cycles, 2);
    let j = decode_opcode(0x6C);
    assert_eq!(j.instruction, Instruction::JMP);
    assert_eq!(j.addressing_mode, AddressingMode::IND);
    assert_eq!(j.cycles, 5);
    let x = decode_opcode(0x02);
    assert_eq!(x.instruction, Instruction::XXX);
}

#[test]
fn and_sets_negative_from_bit_7() {
    // LDA #$FF; AND #$C0
    let mut cpu = cpu_with_program(&[0xA9, 0xFF, 0x29, 0xC0], &[]);
    run_instruction(&mut cpu);
    run_instruction(&mut cpu);
    assert_eq!(cpu.registers.a, 0xC0);
    assert_eq!(cpu.status.get_negative(), 1);
    assert_eq!(cpu.status.get_zero(), 0);
}

#[test]
fn ldx_sets_negative_from_the_loaded_value() {
    // LDX #$80
    let mut cpu = cpu_with_program(&[0xA2, 0x80], &[]);
    run_instruction(&mut cpu);
    assert_eq!(cpu.registers.x, 0x80);
    assert_eq!(cpu.status.get_negative(), 1);
}

#[test]
fn php_then_plp_gives_back_the_status() {
    // SEC; SED; PHP; CLC; CLD; PLP
    let mut cpu = cpu_with_program(&[0x38, 0xF8, 0x08, 0x18, 0xD8, 0x28], &[]);
    for _ in 0..3 {
        run_instruction(&mut cpu);
    }
    let pushed = cpu.status.flags;
    for _ in 0..3 {
        run_instruction(&mut cpu);
    }
    assert_eq!(cpu.status.flags, pushed);
    assert_eq!(cpu.registers.sp, 0xFD);
    assert_eq!(cpu.status.get_carry(), 1);
    assert_eq!(cpu.status.get_unused_bit(), 1);
}

#[test]
fn indexed_page_crossing_costs_a_cycle() {
    // LDX #$FF; LDA $80F0,X (crosses into page $81)
    let mut cpu = cpu_with_program(&[0xA2, 0xFF, 0xBD, 0xF0, 0x80], &[]);
    run_instruction(&mut cpu);
    cpu.clock_cycle();
    // 4 cycles in the table, one more for the page, one spent now.
    assert_eq!(cpu.current_instruction_remaining_cycles, 4);
}

#[test]
fn taken_branch_within_the_page_costs_one_cycle() {
    // SEC; BCS +2
    let mut cpu = cpu_with_program(&[0x38, 0xB0, 0x02], &[]);
    run_instruction(&mut cpu);
    cpu.clock_cycle();
    assert_eq!(cpu.registers.pc, 0x8005);
    // 2 cycles in the table, one for the taken branch, one spent now.
    assert_eq!(cpu.current_instruction_remaining_cycles, 2);
}

#[test]
fn indexed_access_within_the_page_costs_no_extra_cycle() {
    // LDX #$01; LDA $8000,X
    let mut cpu = cpu_with_program(&[0xA2, 0x01, 0xBD, 0x00, 0x80], &[]);
    run_instruction(&mut cpu);
    cpu.clock_cycle();
    assert_eq!(cpu.current_instruction_remaining_cycles, 3);
    assert_eq!(cpu.registers.a, 0x01);
}

#[test]
fn asl_accumulator_shifts_a() {
    // LDA #$81; ASL A
    let mut cpu = cpu_with_program(&[0xA9, 0x81, 0x0A], &[]);
    run_instruction(&mut cpu);
    run_instruction(&mut cpu);
    assert_eq!(cpu.registers.a, 0x02);
    assert_eq!(cpu.status.get_carry(), 1);
    assert_eq!(cpu.status.get_zero(), 0);
    assert_eq!(cpu.status.get_negative(), 0);
}

#[test]
fn ror_accumulator_rotates_the_carry_into_bit_7() {
    // SEC; LDA #$02; ROR A
    let mut cpu = cpu_with_program(&[0x38, 0xA9, 0x02, 0x6A], &[]);
    run_instruction(&mut cpu);
    run_instruction(&mut cpu);
    run_instruction(&mut cpu);
    assert_eq!(cpu.registers.a, 0x81);
    assert_eq!(cpu.status.get_carry(), 0);
    assert_eq!(cpu.status.get_negative(), 1);
}

#[test]
fn indirect_y_adds_y_to_the_pointer() {
    // LDA #$5A; STA $0110; LDA #$F0; STA $10; LDA #$00; STA $11; LDY #$20; LDA ($10),Y
    let mut cpu = cpu_with_program(
        &[
            0xA9, 0x5A, 0x8D, 0x10, 0x01, 0xA9, 0xF0, 0x85, 0x10, 0xA9, 0x00, 0x85, 0x11, 0xA0,
            0x20, 0xB1, 0x10,
        ],
        &[],
    );
    for _ in 0..7 {
        run_instruction(&mut cpu);
    }
    cpu.clock_cycle();
    // 5 cycles in the table, one more as 0x00F0 + 0x20 crosses a page, one spent now.
    assert_eq!(cpu.current_instruction_remaining_cycles, 5);
    assert_eq!(cpu.absolute_mem_address, 0x0110);
    assert_eq!(cpu.registers.a, 0x5A);
}

#[test]
fn indirect_x_pointer_wraps_in_the_zero_page() {
    // LDA #$77; STA $0234; LDA #$34; STA $FF; LDA #$02; STA $00; LDX #$00; LDA ($FF,X)
    let mut cpu = cpu_with_program(
        &[
            0xA9, 0x77, 0x8D, 0x34, 0x02, 0xA9, 0x34, 0x85, 0xFF, 0xA9, 0x02, 0x85, 0x00, 0xA2,
            0x00, 0xA1, 0xFF,
        ],
        &[],
    );
    for _ in 0..8 {
        run_instruction(&mut cpu);
    }
    assert_eq!(cpu.absolute_mem_address, 0x0234);
    assert_eq!(cpu.registers.a, 0x77);
}

#[test]
fn sbc_with_carry_set_subtracts_without_borrow() {
    // SEC; LDA #$50; SBC #$F0  (80 - (-16) = 96, unsigned needs a borrow)
    let mut cpu = cpu_with_program(&[0x38, 0xA9, 0x50, 0xE9, 0xF0], &[]);
    run_instruction(&mut cpu);
    run_instruction(&mut cpu);
    run_instruction(&mut cpu);
    assert_eq!(cpu.registers.a, 0x60);
    assert_eq!(cpu.status.get_carry(), 0);
    assert_eq!(cpu.status.get_overflow(), 0);
    assert_eq!(cpu.status.get_negative(), 0);
}

#[test]
fn sbc_sets_overflow_on_signed_overflow() {
    // SEC; LDA #$50; SBC #$B0  (80 - (-80) = 160 leaves the signed range)
    let mut cpu = cpu_with_program(&[0x38, 0xA9, 0x50, 0xE9, 0xB0], &[]);
    run_instruction(&mut cpu);
    run_instruction(&mut cpu);
    run_instruction(&mut cpu);
    assert_eq!(cpu.registers.a, 0xA0);
    assert_eq!(cpu.status.get_carry(), 0);
    assert_eq!(cpu.status.get_overflow(), 1);
    assert_eq!(cpu.status.get_negative(), 1);
}

#[test]
fn sbc_with_carry_clear_takes_one_more() {
    // CLC; LDA #$05; SBC #$03
    let mut cpu = cpu_with_program(&[0x18, 0xA9, 0x05, 0xE9, 0x03], &[]);
    run_instruction(&mut cpu);
    run_instruction(&mut cpu);
    run_instruction(&mut cpu);
    assert_eq!(cpu.registers.a, 0x01);
    assert_eq!(cpu.status.get_carry(), 1);
    assert_eq!(cpu.status.get_zero(), 0);
}

#[test]
fn execute_rts_undoes_execute_jsr() {
    let mut cpu = cpu_with_program(&[0xEA], &[]);
    cpu.registers.pc = 0x8123;
    cpu.absolute_mem_address = 0x8456;
    let sp = cpu.registers.sp;
    cpu.execute_instruction(&Instruction::JSR, &AddressingMode::ABS);
    assert_eq!(cpu.registers.pc, 0x8456);
    assert_eq!(cpu.registers.sp, sp.wrapping_sub(2));
    cpu.execute_instruction(&Instruction::RTS, &AddressingMode::IMP);
    assert_eq!(cpu.registers.pc, 0x8123);
    assert_eq!(cpu.registers.sp, sp);
}

#[test]
fn set_addressing_mode_reads_the_zero_page_pointer() {
    // The operand byte 0x10 at 0x8000; the pointer 0x0234 at 0x10.
    let mut cpu = cpu_with_program(&[0x10], &[]);
    cpu.bus.write(0x0010, 0x34).unwrap();
    cpu.bus.write(0x0011, 0x02).unwrap();
    cpu.registers.y = 0x01;
    cpu.set_addressing_mode(&AddressingMode::INY);
    assert_eq!(cpu.absolute_mem_address, 0x0235);
    assert_eq!(cpu.registers.pc, 0x8001);
}
