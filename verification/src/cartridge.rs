use vstd::prelude::*;
use vstd::string::StringExecFns;
use crate::device::Device;
use crate::mapper::{Mapper, Mapper000, nrom_prg_offset};

verus! {

/// How the four logical name tables fold onto the two physical ones.
#[derive(Clone, Copy, Debug, PartialEq, Eq, Structural)]
pub enum MirroringMode {
    Vertical,
    Horizontal,
    OnscreenLo,
    OnscreenHi,
}

/// The fields of an iNES header that the emulator keeps.
#[derive(Clone, Copy, Debug)]
pub struct RomHeader {
    pub name: [u8; 4],
    pub prg_chunks: u8,
    pub chr_chunks: u8,
    pub mapper1: u8,
    pub mapper2: u8,
    pub prg_ram_size: u8,
    pub tv_system_1: u8,
    pub tv_system_2: u8,
}

pub const PRG_BANK_SIZE: usize = 16384;

pub const CHR_BANK_SIZE: usize = 8192;

/// Whether a file starts with the iNES magic "NES".
pub open spec fn is_nes_header(file: Seq<u8>) -> bool {
    file.len() >= 3 && file[0] == 0x4E && file[1] == 0x45 && file[2] == 0x53
}

/// Where the program data starts: after the 16-byte header, and after a
/// 512-byte trainer when flags 6 announces one.
pub open spec fn prg_data_start(file: Seq<u8>) -> int {
    if file[6] & 0x04 != 0 {
        16int + 512
    } else {
        16int
    }
}

pub open spec fn prg_data_end(file: Seq<u8>) -> int {
    prg_data_start(file) + file[4] * PRG_BANK_SIZE
}

pub open spec fn chr_data_end(file: Seq<u8>) -> int {
    prg_data_end(file) + file[5] * CHR_BANK_SIZE
}

/// The iNES inputs that the loader reads without running past the end: a
/// file whose header is not "NES" needs only its first three bytes; one with
/// the header must hold the whole header and all the banks that it announces.
pub open spec fn ines_file_complete(file: Seq<u8>) -> bool {
    &&& file.len() >= 3
    &&& is_nes_header(file) ==> file.len() >= 11 && file.len() >= chr_data_end(file)
}

/// Pattern memory as read by the PPU: bytes past the end read as 0.
pub open spec fn chr_value(chr: Seq<u8>, addr: u16) -> u8 {
    if (addr as int) < chr.len() {
        chr[addr as int]
    } else {
        0
    }
}

/// Pattern memory after the PPU writes `data` at `addr`: memory is grown with
/// zero bytes when `addr` lies past its end.
pub open spec fn chr_written(chr: Seq<u8>, addr: u16, data: u8) -> Seq<u8> {
    if (addr as int) < chr.len() {
        chr.update(addr as int, data)
    } else {
        chr + Seq::new((addr - chr.len()) as nat, |i: int| 0u8) + seq![data]
    }
}

/// Writing pattern memory and reading it back gives the written byte at that
/// address and the old value at every other.
pub proof fn lemma_chr_read_after_write(chr: Seq<u8>, waddr: u16, data: u8, raddr: u16)
    ensures
        chr_value(chr_written(chr, waddr, data), raddr) == if raddr == waddr {
            data
        } else {
            chr_value(chr, raddr)
        },
{
    let w = chr_written(chr, waddr, data);
    if (waddr as int) >= chr.len() {
        assert(w.len() == waddr + 1);
        if raddr != waddr && (raddr as int) < w.len() {
            if (raddr as int) < chr.len() {
                assert(w[raddr as int] == chr[raddr as int]);
            } else {
                assert(w[raddr as int] == 0);
            }
        }
    }
}

fn verify_nes_header(file_contents: &Vec<u8>) -> (r: bool)
    requires
        file_contents.len() >= 3,
    ensures
        r == is_nes_header(file_contents@),
{
    file_contents[0] == 0x4E && file_contents[1] == 0x45 && file_contents[2] == 0x53
}

/// The low nibble of the mapper number: the high nibble of flags 6.
fn get_mapper1_from_flags6(flags6: u8) -> (r: u8)
    ensures
        r == (flags6 >> 4u8) & 0x0F,
        r < 16,
{
    let r = (flags6 >> 4) & 0b1111;
    assert(r < 16) by (bit_vector)
        requires
            r == (flags6 >> 4u8) & 0x0F,
    ;
    r
}

/// The high nibble of the mapper number: the high nibble of flags 7.
fn get_mapper2_from_flags7(flags7: u8) -> (r: u8)
    ensures
        r == (flags7 >> 4u8) & 0x0F,
        r < 16,
{
    let r = (flags7 >> 4) & 0b1111;
    assert(r < 16) by (bit_vector)
        requires
            r == (flags7 >> 4u8) & 0x0F,
    ;
    r
}

fn get_tv_system_1_from_flags9(flags9: u8) -> (r: u8)
    ensures
        r == flags9 & 0x01,
{
    flags9 & 0b1
}

fn get_tv_system_2_from_flags10(flags10: u8) -> (r: u8)
    ensures
        r == flags10 & 0x03,
{
    flags10 & 0b11
}

/// The mapper with the given iNES number; only mapper 0 exists.
fn create_mapper_from_number(mapper_num: u8, num_prg_banks: u8, num_chr_banks: u8) -> (r: Result<
    Mapper000,
    String,
>)
    ensures
        r is Ok <==> mapper_num == 0,
        r is Ok ==> r->Ok_0.wf() && r->Ok_0.num_PRG_banks == num_prg_banks
            && r->Ok_0.num_CHR_banks == num_chr_banks,
{
    match mapper_num {
        0 => {
            let result = Mapper000::new(num_prg_banks, num_chr_banks);
            Ok(result)
        },
        _ => Err(String::from_str("Tried to create a mapper using an unknown mapper number")),
    }
}

/// The iNES mapper number: the high nibble of flags 7 over the high nibble
/// of flags 6.
pub open spec fn ines_mapper_number(file: Seq<u8>) -> int {
    ((file[7] >> 4u8) as int) * 16 + ((file[6] >> 4u8) as int)
}

/// Whether an iNES image holds all that the loader reads: the header and
/// every bank that it announces (an image without the "NES" mark needs only
/// the mark's three bytes).
pub fn ines_file_is_complete(file_contents: &Vec<u8>) -> (r: bool)
    ensures
        r == ines_file_complete(file_contents@),
{
    let n = file_contents.len();
    if n < 3 {
        return false;
    }
    if !(file_contents[0] == 0x4E && file_contents[1] == 0x45 && file_contents[2] == 0x53) {
        return true;
    }
    if n < 11 {
        return false;
    }
    let start: usize = if file_contents[6] & 0x04 != 0 {
        16 + 512
    } else {
        16
    };
    let end: usize = start + (file_contents[4] as usize) * PRG_BANK_SIZE + (file_contents[5] as usize)
        * CHR_BANK_SIZE;
    n >= end
}

/// Builds a cartridge from the bytes of an iNES file.
///
/// The header must start with "NES", else the result is an error. Byte 4 gives
/// the number of 16 KiB program banks and byte 5 the number of 8 KiB pattern
/// banks; bit 0 of flags 6 (byte 6) selects vertical mirroring, and bit 2 a
/// 512-byte trainer that the program data follows. The program data and then
/// the pattern data are copied out of the file.
pub fn create_cartridge_from_ines_bytes(file_contents: &Vec<u8>) -> (r: Result<Cartridge, String>)
    requires
        ines_file_complete(file_contents@),
    ensures
        r is Ok <==> is_nes_header(file_contents@) && ines_mapper_number(file_contents@) == 0,
        r is Ok ==> {
            let c = r->Ok_0;
            let f = file_contents@;
            &&& c@.wf()
            &&& c@.prg_covers_window() <==> f[4] >= 1
            &&& c.PRG_data@ == f.subrange(prg_data_start(f), prg_data_end(f))
            &&& c.CHR_data@ == f.subrange(prg_data_end(f), chr_data_end(f))
            &&& c.mapper.num_PRG_banks == f[4]
            &&& c.mapper.num_CHR_banks == f[5]
            &&& c.mirroring_mode == if f[6] & 0x01 != 0 {
                MirroringMode::Vertical
            } else {
                MirroringMode::Horizontal
            }
            &&& c.rom_header.name@ == f.subrange(0, 4)
            &&& c.rom_header.prg_chunks == f[4]
            &&& c.rom_header.chr_chunks == f[5]
            &&& c.rom_header.mapper1 == (f[6] >> 4u8) & 0x0F
            &&& c.rom_header.mapper2 == (f[7] >> 4u8) & 0x0F
            &&& c.rom_header.prg_ram_size == f[8]
            &&& c.rom_header.tv_system_1 == f[9] & 0x01
            &&& c.rom_header.tv_system_2 == f[10] & 0x03
        },
{
    if !verify_nes_header(file_contents) {
        return Err(String::from_str("Error while loading ROM file: invalid NES header."));
    }
    let nes_name: [u8; 4] = [file_contents[0], file_contents[1], file_contents[2], file_contents[3]];
    let prg_chunks = file_contents[4];
    let chr_chunks = file_contents[5];
    let flags6 = file_contents[6];
    let flags7 = file_contents[7];
    let prg_ram_size = file_contents[8];
    let flags9 = file_contents[9];
    let flags10 = file_contents[10];

    let header = RomHeader {
        name: nes_name,
        prg_chunks,
        chr_chunks,
        mapper1: get_mapper1_from_flags6(flags6),
        mapper2: get_mapper2_from_flags7(flags7),
        prg_ram_size,
        tv_system_1: get_tv_system_1_from_flags9(flags9),
        tv_system_2: get_tv_system_2_from_flags10(flags10),
    };
    assert(header.name@ =~= file_contents@.subrange(0, 4));

    let mirroring_mode = if (flags6 & 0x01) != 0 {
        MirroringMode::Vertical
    } else {
        MirroringMode::Horizontal
    };

    let m1 = header.mapper1;
    let m2 = header.mapper2;
    assert((m2 << 4u8) | m1 == m2 * 16 + m1) by (bit_vector)
        requires
            m1 < 16,
            m2 < 16,
    ;
    assert((flags6 >> 4u8) & 0x0F == flags6 >> 4u8 && (flags7 >> 4u8) & 0x0F == flags7 >> 4u8)
        by (bit_vector);
    assert(m2 * 16 + m1 == ines_mapper_number(file_contents@));
    let mapper_res = create_mapper_from_number((m2 << 4u8) | m1, prg_chunks, chr_chunks);
    let mapper = match mapper_res {
        Ok(m) => m,
        Err(message) => {
            return Err(message);
        },
    };

    let mut cartridge = Cartridge::new(header, mapper, mirroring_mode);

    let prg_data_start_index: usize = if (flags6 & 0x04) != 0 {
        16 + 512
    } else {
        16
    };

    let prg_data_end_index = prg_data_start_index + (prg_chunks as usize) * PRG_BANK_SIZE;
    let mut i = prg_data_start_index;
    while i < prg_data_end_index
        invariant
            prg_data_start_index <= i <= prg_data_end_index,
            prg_data_end_index <= file_contents.len(),
            cartridge.PRG_data@ == file_contents@.subrange(prg_data_start_index as int, i as int),
            cartridge.CHR_data@ == Seq::<u8>::empty(),
            cartridge.cpu_memory_bounds == (0x8000u16, 0xFFFFu16),
            cartridge.ppu_memory_bounds == (0x0000u16, 0x1FFFu16),
            cartridge.rom_header == header,
            cartridge.mapper == mapper,
            cartridge.mirroring_mode == mirroring_mode,
        decreases prg_data_end_index - i,
    {
        cartridge.PRG_data.push(file_contents[i]);
        assert(cartridge.PRG_data@ =~= file_contents@.subrange(
            prg_data_start_index as int,
            i + 1,
        ));
        i = i + 1;
    }

    let chr_data_start_index = prg_data_end_index;
    let chr_data_end_index = chr_data_start_index + (chr_chunks as usize) * CHR_BANK_SIZE;
    let mut j = chr_data_start_index;
    while j < chr_data_end_index
        invariant
            chr_data_start_index <= j <= chr_data_end_index,
            chr_data_end_index <= file_contents.len(),
            cartridge.PRG_data@ == file_contents@.subrange(
                prg_data_start_index as int,
                prg_data_end_index as int,
            ),
            cartridge.CHR_data@ == file_contents@.subrange(chr_data_start_index as int, j as int),
            cartridge.cpu_memory_bounds == (0x8000u16, 0xFFFFu16),
            cartridge.ppu_memory_bounds == (0x0000u16, 0x1FFFu16),
            cartridge.rom_header == header,
            cartridge.mapper == mapper,
            cartridge.mirroring_mode == mirroring_mode,
        decreases chr_data_end_index - j,
    {
        cartridge.CHR_data.push(file_contents[j]);
        assert(cartridge.CHR_data@ =~= file_contents@.subrange(chr_data_start_index as int, j + 1));
        j = j + 1;
    }
    Ok(cartridge)
}

/// A game cartridge: its program memory (PRG), seen by the CPU at
/// 0x8000-0xFFFF, and its pattern memory (CHR), seen by the PPU at
/// 0x0000-0x1FFF, both through the mapper.
pub struct Cartridge {
    pub cpu_memory_bounds: (u16, u16),
    pub ppu_memory_bounds: (u16, u16),
    pub rom_header: RomHeader,
    pub PRG_data: Vec<u8>,
    pub CHR_data: Vec<u8>,
    pub mapper: Mapper000,
    pub mirroring_mode: MirroringMode,
}

/// The abstract state of a cartridge: its memories as sequences.
#[verifier::ext_equal]
pub struct CartridgeView {
    pub cpu_memory_bounds: (u16, u16),
    pub ppu_memory_bounds: (u16, u16),
    pub rom_header: RomHeader,
    pub prg: Seq<u8>,
    pub chr: Seq<u8>,
    pub mapper: Mapper000,
    pub mirroring_mode: MirroringMode,
}

impl View for Cartridge {
    type V = CartridgeView;

    open spec fn view(&self) -> CartridgeView {
        CartridgeView {
            cpu_memory_bounds: self.cpu_memory_bounds,
            ppu_memory_bounds: self.ppu_memory_bounds,
            rom_header: self.rom_header,
            prg: self.PRG_data@,
            chr: self.CHR_data@,
            mapper: self.mapper,
            mirroring_mode: self.mirroring_mode,
        }
    }
}

impl CartridgeView {
    /// The address windows are those of the cartridge slot, the mapper agrees
    /// with them, and the name tables are mirrored horizontally or vertically
    /// (the loader sets no other mode).
    pub open spec fn wf(&self) -> bool {
        &&& self.cpu_memory_bounds == (0x8000u16, 0xFFFFu16)
        &&& self.ppu_memory_bounds == (0x0000u16, 0x1FFFu16)
        &&& self.mapper.wf()
        &&& (self.mirroring_mode == MirroringMode::Vertical || self.mirroring_mode
            == MirroringMode::Horizontal)
    }

    pub open spec fn cpu_window(&self, addr: u16) -> bool {
        self.cpu_memory_bounds.0 <= addr <= self.cpu_memory_bounds.1
    }

    pub open spec fn ppu_window(&self, addr: u16) -> bool {
        self.ppu_memory_bounds.0 <= addr <= self.ppu_memory_bounds.1
    }

    /// The program-memory offset of a CPU address.
    pub open spec fn prg_offset(&self, addr: u16) -> int {
        nrom_prg_offset(self.mapper.num_PRG_banks, addr) as int
    }

    /// The program memory covers every offset that the mapper can produce.
    pub open spec fn prg_covers_window(&self) -> bool {
        if self.mapper.num_PRG_banks > 1 {
            self.prg.len() >= 0x8000
        } else {
            self.prg.len() >= 0x4000
        }
    }

    /// A CPU access needs its program byte to exist.
    pub open spec fn accessible(&self, addr: u16) -> bool {
        self.cpu_window(addr) ==> self.prg_offset(addr) < self.prg.len()
    }

    /// What a read of `addr` answers: a program byte from the CPU window, a
    /// pattern byte from the PPU window.
    pub open spec fn read_value(&self, addr: u16) -> u8 {
        if self.cpu_window(addr) {
            self.prg[self.prg_offset(addr)]
        } else {
            chr_value(self.chr, addr)
        }
    }

    /// The cartridge after a write of `data` to `addr`: a program byte from the
    /// CPU window, a pattern byte from the PPU window, nothing elsewhere.
    pub open spec fn written(&self, addr: u16, data: u8) -> CartridgeView {
        if self.cpu_window(addr) {
            CartridgeView { prg: self.prg.update(self.prg_offset(addr), data), ..*self }
        } else if self.ppu_window(addr) {
            CartridgeView { chr: chr_written(self.chr, addr, data), ..*self }
        } else {
            *self
        }
    }
}

/// With every program bank present, any CPU address of the window can be read
/// and written.
pub proof fn lemma_prg_covers_window(c: CartridgeView, addr: u16)
    requires
        c.prg_covers_window(),
    ensures
        c.accessible(addr),
{
    Mapper000::lemma_prg_offset_bound(c.mapper.num_PRG_banks, addr);
}

impl Cartridge {
    fn new(rom_header: RomHeader, mapper: Mapper000, mirroring_mode: MirroringMode) -> (c:
        Cartridge)
        ensures
            c.cpu_memory_bounds == (0x8000u16, 0xFFFFu16),
            c.ppu_memory_bounds == (0x0000u16, 0x1FFFu16),
            c.rom_header == rom_header,
            c.PRG_data@ == Seq::<u8>::empty(),
            c.CHR_data@ == Seq::<u8>::empty(),
            c.mapper == mapper,
            c.mirroring_mode == mirroring_mode,
    {
        Cartridge {
            cpu_memory_bounds: (0x8000, 0xFFFF),
            ppu_memory_bounds: (0x0000, 0x1FFF),
            rom_header,
            PRG_data: Vec::new(),
            CHR_data: Vec::new(),
            mapper,
            mirroring_mode,
        }
    }

    fn in_ppu_memory_bounds(&self, addr: u16) -> (r: bool)
        ensures
            r == self@.ppu_window(addr),
    {
        addr >= self.ppu_memory_bounds.0 && addr <= self.ppu_memory_bounds.1
    }

    fn in_cpu_memory_bounds(&self, addr: u16) -> (r: bool)
        ensures
            r == self@.cpu_window(addr),
    {
        addr >= self.cpu_memory_bounds.0 && addr <= self.cpu_memory_bounds.1
    }
}

impl Device for Cartridge {
    open spec fn inv(&self) -> bool {
        self@.wf()
    }

    open spec fn readable(&self, addr: u16) -> bool {
        self@.accessible(addr)
    }

    open spec fn writable(&self, addr: u16) -> bool {
        self@.accessible(addr)
    }

    /// The cartridge claims the CPU's window on the main bus.
    fn in_memory_bounds(&self, addr: u16) -> (r: bool)
        ensures
            r == self@.cpu_window(addr),
    {
        if self.in_cpu_memory_bounds(addr) {
            true
        } else {
            false
        }
    }

    fn write(&mut self, addr: u16, content: u8) -> (r: Result<(), String>)
        ensures
            r is Ok <==> old(self)@.cpu_window(addr) || old(self)@.ppu_window(addr),
            final(self)@ == old(self)@.written(addr, content),
    {
        if self.in_cpu_memory_bounds(addr) {
            // Write operation from the CPU
            let mapped_addr_res = self.mapper.mapWriteAddressFromCPU(addr);
            match mapped_addr_res {
                Ok(mapped_addr) => {
                    self.PRG_data.set(mapped_addr as usize, content);
                    assert(self@ =~= old(self)@.written(addr, content));
                    Ok(())
                },
                Err(message) => Err(message),
            }
        } else if self.in_ppu_memory_bounds(addr) {
            // Write operation from the PPU
            let mapped_addr_res = self.mapper.mapWriteAddressFromPPU(addr);
            match mapped_addr_res {
                Ok(mapped_addr) => {
                    let ghost chr0 = self.CHR_data@;
                    while self.CHR_data.len() <= mapped_addr as usize
                        invariant
                            mapped_addr == addr,
                            self.cpu_memory_bounds == old(self).cpu_memory_bounds,
                            self.ppu_memory_bounds == old(self).ppu_memory_bounds,
                            self.rom_header == old(self).rom_header,
                            self.mapper == old(self).mapper,
                            self.mirroring_mode == old(self).mirroring_mode,
                            self.PRG_data@ == old(self).PRG_data@,
                            chr0 == old(self).CHR_data@,
                            chr0.len() <= addr ==> self.CHR_data@ =~= chr0 + Seq::new(
                                (self.CHR_data.len() - chr0.len()) as nat,
                                |i: int| 0u8,
                            ),
                            chr0.len() <= addr ==> self.CHR_data.len() <= addr + 1,
                            chr0.len() <= addr ==> self.CHR_data.len() >= chr0.len(),
                            chr0.len() > addr ==> self.CHR_data@ == chr0,
                        decreases mapped_addr + 1 - self.CHR_data.len(),
                    {
                        self.CHR_data.push(0);
                    }
                    self.CHR_data.set(mapped_addr as usize, content);
                    assert(self.CHR_data@ =~= chr_written(chr0, addr, content));
                    assert(self@ =~= old(self)@.written(addr, content));
                    Ok(())
                },
                Err(message) => Err(message),
            }
        } else {
            Err(String::from_str("Tried to write outside Cartridge bounds!"))
        }
    }

    fn read(&mut self, addr: u16) -> (r: Result<u8, String>)
        ensures
            *final(self) == *old(self),
            r is Ok <==> old(self)@.cpu_window(addr) || old(self)@.ppu_window(addr),
            r is Ok ==> r->Ok_0 == old(self)@.read_value(addr),
    {
        if self.in_cpu_memory_bounds(addr) {
            // Read operation from the CPU
            let mapped_addr_res = self.mapper.mapReadAddressFromCPU(addr);
            match mapped_addr_res {
                Ok(mapped_addr) => Ok(self.PRG_data[mapped_addr as usize]),
                Err(message) => Err(message),
            }
        } else if self.in_ppu_memory_bounds(addr) {
            // Read operation from the PPU
            let mapped_addr_res = self.mapper.mapReadAddressFromPPU(addr);
            match mapped_addr_res {
                Ok(mapped_addr) => {
                    if (mapped_addr as usize) < self.CHR_data.len() {
                        Ok(self.CHR_data[mapped_addr as usize])
                    } else {
                        Ok(0)
                    }
                },
                Err(message) => Err(message),
            }
        } else {
            Err(String::from_str("Tried to read outside Cartridge bounds!"))
        }
    }
}

} // verus!
