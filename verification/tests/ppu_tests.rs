use rustness::ben2C02::palette::create_palette_vis_buffer;
use rustness::ben2C02::rendering::reverse_bits_u8;
use rustness::ben2C02::Ben2C02;
use rustness::cartridge::{create_cartridge_from_ines_bytes, Cartridge};
use rustness::device::Device;
use rustness::graphics::Color;

fn ppu_cartridge(flags6: u8, chr: &[u8]) -> Cartridge {
    let mut rom = vec![0u8; 16 + 16384 + 8192];
    rom[0] = 0x4E;
    rom[1] = 0x45;
    rom[2] = 0x53;
    rom[3] = 0x1A;
    rom[4] = 1;
    rom[5] = 1;
    rom[6] = flags6;
    for (i, b) in chr.iter().enumerate() {
        rom[16 + 16384 + i] = *b;
    }
    create_cartridge_from_ines_bytes(&rom).unwrap()
}

fn set_address(ppu: &mut Ben2C02, addr: u16) {
    ppu.write(0x2006, (addr >> 8) as u8).unwrap();
    ppu.write(0x2006, (addr & 0xFF) as u8).unwrap();
}

#[test]
fn palette_background_entries_are_mirrored() {
    let mut ppu = Ben2C02::new(ppu_cartridge(0, &[]));
    set_address(&mut ppu, 0x3F10);
    ppu.write(0x2007, 0x2C).unwrap();
    assert_eq!(ppu.palette[0], 0x2C);
    set_address(&mut ppu, 0x3F00);
    assert_eq!(ppu.read(0x2007).unwrap(), 0x2C);
    // 0x3F24 mirrors 0x3F04.
    set_address(&mut ppu, 0x3F24);
    ppu.write(0x2007, 0x11).unwrap();
    assert_eq!(ppu.palette[4], 0x11);
}

#[test]
fn name_tables_mirror_horizontally() {
    let mut ppu = Ben2C02::new(ppu_cartridge(0, &[]));
    set_address(&mut ppu, 0x2405);
    ppu.write(0x2007, 0x77).unwrap();
    assert_eq!(ppu.name_tables[0][5], 0x77);
    set_address(&mut ppu, 0x2C06);
    ppu.write(0x2007, 0x66).unwrap();
    assert_eq!(ppu.name_tables[1][6], 0x66);
}

#[test]
fn name_tables_mirror_vertically() {
    let mut ppu = Ben2C02::new(ppu_cartridge(1, &[]));
    set_address(&mut ppu, 0x2805);
    ppu.write(0x2007, 0x55).unwrap();
    assert_eq!(ppu.name_tables[0][5], 0x55);
    set_address(&mut ppu, 0x3405);
    ppu.write(0x2007, 0x44).unwrap();
    assert_eq!(ppu.name_tables[1][5], 0x44);
}

#[test]
fn data_reads_are_buffered_below_the_palette() {
    let mut ppu = Ben2C02::new(ppu_cartridge(0, &[]));
    set_address(&mut ppu, 0x2000);
    ppu.write(0x2007, 0xAA).unwrap();
    ppu.write(0x2007, 0xBB).unwrap();
    set_address(&mut ppu, 0x2000);
    let _stale = ppu.read(0x2007).unwrap();
    assert_eq!(ppu.read(0x2007).unwrap(), 0xAA);
    assert_eq!(ppu.read(0x2007).unwrap(), 0xBB);
}

#[test]
fn vram_increment_of_32() {
    let mut ppu = Ben2C02::new(ppu_cartridge(0, &[]));
    ppu.write(0x2000, 0x04).unwrap();
    set_address(&mut ppu, 0x2000);
    ppu.write(0x2007, 1).unwrap();
    ppu.write(0x2007, 2).unwrap();
    assert_eq!(ppu.name_tables[0][0], 1);
    assert_eq!(ppu.name_tables[0][32], 2);
}

#[test]
fn oam_write_then_read() {
    let mut ppu = Ben2C02::new(ppu_cartridge(0, &[]));
    ppu.write_to_oam_memory(9, 0x42);
    assert_eq!(ppu.read_from_oam_memory(9), 0x42);
    assert_eq!(ppu.oam_memory[2].tile_id, 0x42);
    ppu.write(0x2003, 12).unwrap();
    ppu.write(0x2004, 0x33).unwrap();
    assert_eq!(ppu.oam_memory[3].y, 0x33);
    assert_eq!(ppu.read_from_oam_memory(12), 0x33);
}

#[test]
fn scanline_takes_341_cycles() {
    let mut ppu = Ben2C02::new(ppu_cartridge(0, &[]));
    for _ in 0..341 {
        ppu.clock_cycle();
    }
    assert_eq!(ppu.scan_line, 1);
    assert_eq!(ppu.cycle, 0);
}

#[test]
fn frame_completes_after_the_last_scanline() {
    let mut ppu = Ben2C02::new(ppu_cartridge(0, &[]));
    for _ in 0..(261 * 341 - 1) {
        ppu.clock_cycle();
    }
    assert!(!ppu.frame_render_complete);
    ppu.clock_cycle();
    assert!(ppu.frame_render_complete);
    assert_eq!(ppu.scan_line, -1);
    assert_eq!(ppu.cycle, 0);
    assert!(ppu.odd_frame);
}

#[test]
fn vertical_blank_raises_nmi_when_enabled() {
    let mut ppu = Ben2C02::new(ppu_cartridge(0, &[]));
    ppu.write(0x2000, 0x80).unwrap();
    while !(ppu.scan_line == 241 && ppu.cycle == 2) {
        ppu.clock_cycle();
    }
    assert!(ppu.trigger_cpu_nmi);
    assert_eq!(ppu.status_reg.get_vertical_blank(), 1);
    let status = ppu.read(0x2002).unwrap();
    assert_eq!(status & 0x80, 0x80);
    assert_eq!(ppu.status_reg.get_vertical_blank(), 0);
}

#[test]
fn pattern_table_picture_uses_the_palette() {
    // Tile 0, row 0: low plane 0x80, high plane 0x80, so its leftmost pixel is 3.
    let mut chr = vec![0u8; 16];
    chr[0] = 0x80;
    chr[8] = 0x80;
    let mut ppu = Ben2C02::new(ppu_cartridge(0, &chr));
    ppu.palette[0] = 0x0F;
    ppu.palette[3] = 0x16;
    ppu.update_pattern_tables_vis_buffer(0);
    let colors = create_palette_vis_buffer();
    assert_eq!(ppu.pattern_tables_vis_buffer[0], colors[0x16]);
    assert_eq!(ppu.pattern_tables_vis_buffer[128], colors[0x0F]);
    assert_eq!(ppu.pattern_tables_vis_buffer[1], colors[0x0F]);
}

#[test]
fn background_pixels_reach_the_screen() {
    // Every tile is tile 0, whose pixels are all 1.
    let mut chr = vec![0u8; 16];
    for i in 0..8 {
        chr[i] = 0xFF;
    }
    let mut ppu = Ben2C02::new(ppu_cartridge(0, &chr));
    ppu.palette[1] = 0x30;
    ppu.write(0x2001, 0x0A).unwrap();
    while !ppu.frame_render_complete {
        ppu.clock_cycle();
    }
    let colors = create_palette_vis_buffer();
    assert_eq!(ppu.screen_vis_buffer[100 * 256 + 100], colors[0x30]);
}

#[test]
fn palette_colours() {
    let colors = create_palette_vis_buffer();
    assert_eq!(colors[0x00], Color::new(84, 84, 84));
    assert_eq!(colors[0x01], Color::new(0, 30, 116));
}

#[test]
fn reversing_bits() {
    assert_eq!(reverse_bits_u8(0b1100_0000), 0b0000_0011);
    assert_eq!(reverse_bits_u8(0b1000_0001), 0b1000_0001);
    assert_eq!(reverse_bits_u8(0), 0);
}

fn sprites_on_line_zero(count: u8) -> Ben2C02 {
    let mut ppu = Ben2C02::new(ppu_cartridge(0, &[]));
    for i in 0..64u8 {
        let y = if i < count { 0 } else { 200 };
        ppu.write_to_oam_memory(i * 4, y);
    }
    while !(ppu.scan_line == 0 && ppu.cycle == 258) {
        ppu.clock_cycle();
    }
    ppu
}

#[test]
fn eight_sprites_on_a_line_do_not_overflow() {
    let ppu = sprites_on_line_zero(8);
    assert_eq!(ppu.sprites_on_curr_scanline.len(), 8);
    assert_eq!(ppu.status_reg.get_sprite_overflow(), 0);
}

#[test]
fn nine_sprites_on_a_line_overflow() {
    let ppu = sprites_on_line_zero(9);
    assert_eq!(ppu.sprites_on_curr_scanline.len(), 8);
    assert_eq!(ppu.status_reg.get_sprite_overflow(), 1);
}

#[test]
fn palette_memory_aliases() {
    let mut ppu = Ben2C02::new(ppu_cartridge(0, &[]));
    ppu.write_to_ppu_memory(0x3F10, 0x21).unwrap();
    assert_eq!(ppu.read_from_ppu_memory(0x3F00), Ok(0x21));
    assert_eq!(ppu.read_from_ppu_memory(0x3F30), Ok(0x21));
    assert_eq!(ppu.read_from_ppu_memory(0x3F01), Ok(0x00));
    assert!(ppu.write_to_ppu_memory(0x4000, 1).is_err());
}

#[test]
fn name_table_memory_mirrors_vertically() {
    let mut ppu = Ben2C02::new(ppu_cartridge(1, &[]));
    ppu.write_to_ppu_memory(0x2005, 0x33).unwrap();
    assert_eq!(ppu.read_from_ppu_memory(0x2805), Ok(0x33));
    assert_eq!(ppu.read_from_ppu_memory(0x3005), Ok(0x33));
    assert_eq!(ppu.read_from_ppu_memory(0x2405), Ok(0x00));
}

#[test]
fn ppu_cycles_leave_the_control_register() {
    let mut ppu = Ben2C02::new(ppu_cartridge(0, &[]));
    ppu.write(0x2000, 0x80).unwrap();
    for _ in 0..1000 {
        ppu.clock_cycle();
    }
    assert_eq!(ppu.controller_reg.get_enable_nmi(), 1);
    assert_eq!(ppu.controller_reg.flags, 0x80);
}
