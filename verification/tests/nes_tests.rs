use rustness::ben6502::Ben6502;
use rustness::bus::Bus16Bit;
use rustness::cartridge::create_cartridge_from_ines_bytes;
use rustness::nes::{next_pattern_table_palette, MemoryVisualizer, NESInputHandler, RustNESs};

fn cpu() -> Ben6502 {
    cpu_with(&[0x4C, 0x00, 0x80])
}

fn cpu_with(program: &[u8]) -> Ben6502 {
    let mut rom = vec![0u8; 16 + 16384 + 8192];
    rom[0] = 0x4E;
    rom[1] = 0x45;
    rom[2] = 0x53;
    rom[3] = 0x1A;
    rom[4] = 1;
    rom[5] = 1;
    // JMP $8000 at 0x8000, NOPs after it, reset vector at 0x8000.
    for i in 0..0x3FF0 {
        rom[16 + i] = 0xEA;
    }
    for (i, b) in program.iter().enumerate() {
        rom[16 + i] = *b;
    }
    rom[16 + 0x3FFC] = 0x00;
    rom[16 + 0x3FFD] = 0x80;
    let cartridge = create_cartridge_from_ines_bytes(&rom).unwrap();
    Ben6502::new(Bus16Bit::new(cartridge))
}

fn visualizer() -> MemoryVisualizer {
    MemoryVisualizer {
        ram_start_addr: 0x00,
        ram_end_addr: 0x04,
        pc_start_addr: 0x8000,
        pc_end_addr: 0x8010,
        stack_start_addr: 0,
        stack_end_addr: 0,
        ram_content_str: String::new(),
        program_content_str: String::new(),
        program_content: vec![],
        stack_content_str: String::new(),
    }
}

#[test]
fn no_button_held_at_first() {
    let h = NESInputHandler::new();
    assert_eq!(h.get_input_byte(), 0);
}

#[test]
fn keys_map_to_buttons() {
    let mut h = NESInputHandler::new();
    h.handle_keyboard_input('N', true);
    assert!(h.a_pressed);
    assert_eq!(h.get_input_byte(), 0b1000_0000);
    h.handle_keyboard_input('D', true);
    assert_eq!(h.get_input_byte(), 0b1000_0001);
    h.handle_keyboard_input('W', true);
    h.handle_keyboard_input('M', true);
    h.handle_keyboard_input('J', true);
    h.handle_keyboard_input('H', true);
    h.handle_keyboard_input('S', true);
    h.handle_keyboard_input('A', true);
    assert_eq!(h.get_input_byte(), 0xFF);
    h.handle_keyboard_input('N', false);
    assert_eq!(h.get_input_byte(), 0x7F);
    h.handle_keyboard_input('Q', true);
    assert_eq!(h.get_input_byte(), 0x7F);
    assert!(h.up_pressed && h.b_pressed && h.start_pressed && h.select_pressed);
    assert!(h.down_pressed && h.left_pressed && h.right_pressed);
}

#[test]
fn ppu_runs_three_cycles_per_cpu_cycle() {
    let mut nes = RustNESs::new(cpu());
    nes.clock_cycle();
    assert_eq!(nes.current_cycle, 1);
    assert_eq!(nes.cpu.bus.PPU.cycle, 3);
    nes.clock_cycle();
    nes.clock_cycle();
    nes.clock_cycle();
    assert_eq!(nes.cpu.bus.PPU.cycle, 12);
    assert_eq!(nes.cpu.current_instruction_remaining_cycles, 4);
}

#[test]
fn vertical_blank_interrupts_the_cpu() {
    let mut nes = RustNESs::new(cpu());
    nes.cpu.bus.write(0x2000, 0x80).unwrap();
    let sp = nes.cpu.registers.sp;
    while nes.cpu.bus.PPU.scan_line < 241
        || (nes.cpu.bus.PPU.scan_line == 241 && nes.cpu.bus.PPU.cycle < 2)
    {
        nes.clock_cycle();
    }
    assert!(!nes.cpu.bus.PPU.trigger_cpu_nmi);
    assert_eq!(nes.cpu.registers.sp, sp.wrapping_sub(3));
    assert_eq!(nes.cpu.current_instruction_remaining_cycles, 8);
}

#[test]
fn memory_visualizer_follows_the_registers() {
    let mut c = cpu();
    let mut v = visualizer();
    c.bus.write(0x0001, 0xFE).unwrap();
    v.update(&mut c).unwrap();
    assert_eq!(v.pc_start_addr, 0x8000);
    assert_eq!(v.pc_end_addr, 0x8010);
    assert_eq!(v.stack_start_addr, 0x100 + 0xFD - 40);
    assert_eq!(v.stack_end_addr, 0x100 + 0xFD + 4);
    assert_eq!(v.ram_content_str, "00 FE 00 00 ");
    let mut expected = vec![0x4C, 0x00, 0x80];
    expected.extend(vec![0xEA; 13]);
    assert_eq!(v.program_content, expected);
}

#[test]
fn memory_visualizer_refuses_ppu_registers() {
    let mut c = cpu();
    c.registers.pc = 0x2005;
    let mut v = visualizer();
    assert!(v.update(&mut c).is_err());
    assert_eq!(v.pc_start_addr, 0x2005);
}

#[test]
fn program_window_is_empty_at_the_top_of_memory() {
    let mut c = cpu();
    c.registers.pc = 0xFFF8;
    let mut v = visualizer();
    v.update(&mut c).unwrap();
    assert_eq!(v.pc_end_addr, 0xFFF8);
    assert_eq!(v.program_content, Vec::<u8>::new());
}

#[test]
fn next_cpu_instruction_runs_whole_instructions() {
    let mut nes = RustNESs::new(cpu_with(&[0xEA, 0xEA, 0xEA]));
    // The cycles of the reset first.
    nes.next_cpu_instruction();
    assert_eq!(nes.cpu.current_instruction_remaining_cycles, 0);
    assert_eq!(nes.cpu.registers.pc, 0x8000);
    assert_eq!(nes.current_cycle, 8);
    nes.next_cpu_instruction();
    assert_eq!(nes.cpu.registers.pc, 0x8001);
    assert_eq!(nes.current_cycle, 10);
    nes.next_cpu_instructions(2);
    assert_eq!(nes.cpu.registers.pc, 0x8003);
    assert_eq!(nes.current_cycle, 14);
}

#[test]
fn next_frame_runs_until_the_frame_is_drawn() {
    let mut nes = RustNESs::new(cpu());
    nes.next_frame(0x81);
    assert!(!nes.cpu.bus.PPU.frame_render_complete);
    assert_eq!(nes.cpu.bus.controller.emulator_input[0], 0x81);
    assert_eq!(nes.cpu.bus.PPU.scan_line, -1);
    assert_eq!(nes.cpu.bus.PPU.cycle, 0);
    assert_eq!(nes.current_cycle, 89001 / 3);
    nes.next_frame(0);
    assert_eq!(nes.cpu.bus.PPU.scan_line, -1);
    assert_eq!(nes.cpu.bus.PPU.cycle, 1);
    assert_eq!(nes.current_cycle, 89001 / 3 + (89342 + 2) / 3);
}

#[test]
fn pattern_table_palettes_cycle_through_eight() {
    assert_eq!(next_pattern_table_palette(0), 1);
    assert_eq!(next_pattern_table_palette(6), 7);
    assert_eq!(next_pattern_table_palette(7), 0);
    assert_eq!(next_pattern_table_palette(200), 0);
    assert_eq!(next_pattern_table_palette(255), 0);
}

#[test]
fn last_key_event_decides_each_button() {
    let mut h = NESInputHandler::new();
    let events = [('N', true), ('D', true), ('N', false), ('W', true), ('X', true), ('N', true)];
    for (key, pressed) in events {
        h.handle_keyboard_input(key, pressed);
    }
    assert_eq!(h.get_input_byte(), 0x80 | 0x08 | 0x01);
}

#[test]
fn memory_dumps_clear_of_the_ppu_are_defined() {
    let c = cpu();
    let v = visualizer();
    assert!(v.dumps_defined(&c));
}

#[test]
fn memory_dump_across_the_ppu_registers_is_not_defined() {
    let c = cpu();
    let mut v = visualizer();
    v.ram_start_addr = 0x1FF0;
    v.ram_end_addr = 0x4010;
    assert!(!v.dumps_defined(&c));
}
