use rustness::bus::Bus16Bit;
use rustness::cartridge::{create_cartridge_from_ines_bytes, Cartridge, MirroringMode};
use rustness::controller::Controller;
use rustness::device::Device;
use rustness::mapper::{Mapper, Mapper000};
use rustness::ram::Ram2K;

fn rom(prg_banks: u8, flags6: u8) -> Vec<u8> {
    let mut rom = vec![0u8; 16 + 16384 * prg_banks as usize + 8192];
    rom[0] = 0x4E;
    rom[1] = 0x45;
    rom[2] = 0x53;
    rom[3] = 0x1A;
    rom[4] = prg_banks;
    rom[5] = 1;
    rom[6] = flags6;
    rom
}

fn cartridge() -> Cartridge {
    let mut r = rom(1, 0);
    r[16 + 5] = 0x99;
    create_cartridge_from_ines_bytes(&r).unwrap()
}

#[test]
fn loader_refuses_a_file_without_the_header() {
    let mut r = rom(1, 0);
    r[0] = 0x4D;
    assert!(create_cartridge_from_ines_bytes(&r).is_err());
    assert!(create_cartridge_from_ines_bytes(&vec![1, 2, 3]).is_err());
}

#[test]
fn loader_reads_the_header() {
    let mut r = rom(1, 0x01);
    r[9] = 1;
    r[8] = 2;
    let c = create_cartridge_from_ines_bytes(&r).unwrap();
    assert_eq!(c.mirroring_mode, MirroringMode::Vertical);
    assert_eq!(c.rom_header.prg_chunks, 1);
    assert_eq!(c.rom_header.chr_chunks, 1);
    assert_eq!(c.rom_header.prg_ram_size, 2);
    assert_eq!(c.rom_header.tv_system_1, 1);
    assert_eq!(c.PRG_data.len(), 16384);
    assert_eq!(c.CHR_data.len(), 8192);
    assert_eq!(c.mapper.num_PRG_banks, 1);
}

#[test]
fn loader_skips_the_trainer() {
    let mut r = vec![0u8; 16 + 512 + 16384 + 8192];
    r[0] = 0x4E;
    r[1] = 0x45;
    r[2] = 0x53;
    r[4] = 1;
    r[5] = 1;
    r[6] = 0x04;
    r[16 + 512] = 0xEE;
    let c = create_cartridge_from_ines_bytes(&r).unwrap();
    assert_eq!(c.PRG_data[0], 0xEE);
}

#[test]
fn single_bank_is_mirrored_in_both_halves() {
    let mut c = cartridge();
    assert_eq!(c.read(0x8005).unwrap(), 0x99);
    assert_eq!(c.read(0xC005).unwrap(), 0x99);
    let m = Mapper000::new(1, 1);
    assert_eq!(m.mapReadAddressFromCPU(0xC005).unwrap(), 0x0005);
    let m2 = Mapper000::new(2, 1);
    assert_eq!(m2.mapReadAddressFromCPU(0xC005).unwrap(), 0x4005);
    assert!(m.mapReadAddressFromCPU(0x7FFF).is_err());
    assert_eq!(m.mapReadAddressFromPPU(0x1234).unwrap(), 0x1234);
    assert!(m.mapReadAddressFromPPU(0x2000).is_err());
}

#[test]
fn ram_is_mirrored_every_2_kib() {
    let mut ram = Ram2K::new((0x0000, 0x1FFF));
    ram.write(0x0001, 7).unwrap();
    assert_eq!(ram.read(0x0801).unwrap(), 7);
    assert_eq!(ram.read(0x1801).unwrap(), 7);
    assert_eq!(ram.read(0x0002).unwrap(), 0);
}

#[test]
fn controller_shifts_out_the_latched_buttons() {
    let mut c = Controller::new();
    c.emulator_input[0] = 0b1000_0001;
    c.write(0x4016, 1).unwrap();
    let mut bits = vec![];
    for _ in 0..8 {
        bits.push(c.read(0x4016).unwrap());
    }
    assert_eq!(bits, vec![1, 0, 0, 0, 0, 0, 0, 1]);
}

#[test]
fn bus_routes_to_ram_and_cartridge() {
    let mut bus = Bus16Bit::new(cartridge());
    bus.write(0x0010, 0x5A).unwrap();
    assert_eq!(bus.read(0x0810, false).unwrap(), 0x5A);
    assert_eq!(bus.read(0xC005, false).unwrap(), 0x99);
    assert_eq!(bus.read_word_little_endian(0x0010, false).unwrap(), 0x005A);
    bus.write(0x0011, 0x12).unwrap();
    assert_eq!(bus.read_word_little_endian(0x0010, false).unwrap(), 0x125A);
    assert!(bus.write(0x5000, 1).is_err());
    assert_eq!(bus.read(0x5000, false).unwrap(), 0);
}

#[test]
fn dma_register_starts_a_transfer() {
    let mut bus = Bus16Bit::new(cartridge());
    bus.write(0x4014, 0x02).unwrap();
    assert!(bus.dma_transfer_active);
    assert_eq!(bus.dma_page, 0x02);
    assert_eq!(bus.dma_curr_addr, 0x0200);
}

#[test]
fn memory_dump_as_text_and_bytes() {
    let mut bus = Bus16Bit::new(cartridge());
    bus.write(0x0000, 0xAB).unwrap();
    bus.write(0x0002, 0x0C).unwrap();
    assert_eq!(bus.get_memory_content_as_string(0, 4), "AB 00 0C 00 ");
    assert_eq!(bus.get_memory_content_as_vec(0, 3), vec![0xAB, 0x00, 0x0C]);
    assert_eq!(bus.get_memory_content_as_string(4, 2), "");
}

#[test]
fn controller_through_the_bus() {
    let mut bus = Bus16Bit::new(cartridge());
    bus.controller.emulator_input[0] = 0x40;
    bus.write(0x4016, 1).unwrap();
    assert_eq!(bus.read(0x4016, false).unwrap(), 0);
    assert_eq!(bus.read(0x4016, false).unwrap(), 1);
}

#[test]
fn pattern_memory_reads_back_what_was_written() {
    let mut c = cartridge();
    c.write(0x0005, 0x42).unwrap();
    assert_eq!(c.read(0x0005).unwrap(), 0x42);
    assert_eq!(c.read(0x0006).unwrap(), 0x00);
    c.write(0x8001, 0x17).unwrap();
    assert_eq!(c.read(0xC001).unwrap(), 0x17);
}

#[test]
fn cpu_bus_accesses_do_not_move_the_ppu() {
    let mut bus = Bus16Bit::new(cartridge());
    for _ in 0..100 {
        bus.PPU.clock_cycle();
    }
    let (scan_line, cycle) = (bus.PPU.scan_line, bus.PPU.cycle);
    bus.write(0x2000, 0x80).unwrap();
    bus.write(0x2001, 0x1E).unwrap();
    bus.write(0x2006, 0x20).unwrap();
    bus.write(0x2006, 0x00).unwrap();
    bus.write(0x2007, 0x01).unwrap();
    let _ = bus.read(0x2002, false).unwrap();
    let _ = bus.read(0x2007, false).unwrap();
    assert_eq!((bus.PPU.scan_line, bus.PPU.cycle), (scan_line, cycle));
    assert!(!bus.PPU.frame_render_complete);
}

#[test]
fn devices_refuse_addresses_outside_their_ranges() {
    let mut c = cartridge();
    assert!(c.read(0x5000).is_err());
    assert!(c.write(0x5000, 1).is_err());
    let mut ram = Ram2K::new((0x0000, 0x1FFF));
    assert!(ram.read(0x2000).is_err());
    assert!(ram.write(0x2000, 1).is_err());
    let mut pad = Controller::new();
    assert!(pad.read(0x4015).is_err());
    assert!(pad.write(0x4018, 1).is_err());
    let mut bus = Bus16Bit::new(cartridge());
    assert!(bus.PPU.read(0x4000).is_err());
    assert!(bus.PPU.write(0x1FFF, 1).is_err());
}

#[test]
fn loader_refuses_mappers_other_than_0() {
    let r = rom(1, 0x10);
    assert!(create_cartridge_from_ines_bytes(&r).is_err());
    let mut r2 = rom(1, 0);
    r2[7] = 0x10;
    assert!(create_cartridge_from_ines_bytes(&r2).is_err());
    let mut r3 = rom(1, 0x0B);
    r3[7] = 0x0F;
    assert!(create_cartridge_from_ines_bytes(&r3).is_ok());
}
