use vstd::prelude::*;
use vstd::string::StringExecFns;

verus! {

/// Translates the addresses that the CPU and the PPU put on the cartridge into
/// offsets within the cartridge's program (PRG) and pattern (CHR) memory.
pub trait Mapper {
    fn in_cpu_address_bounds(&self, addr: u16) -> (r: bool);

    fn in_ppu_address_bounds(&self, addr: u16) -> (r: bool);

    fn mapReadAddressFromCPU(&self, addr: u16) -> (r: Result<u16, String>);

    fn mapWriteAddressFromCPU(&self, addr: u16) -> (r: Result<u16, String>);

    fn mapReadAddressFromPPU(&self, addr: u16) -> (r: Result<u16, String>);

    fn mapWriteAddressFromPPU(&self, addr: u16) -> (r: Result<u16, String>);
}

/// Mapper 0 (NROM): one or two 16 KiB program banks at 0x8000-0xFFFF (a single
/// bank is mirrored in both halves) and one 8 KiB pattern bank at 0x0000-0x1FFF.
pub struct Mapper000 {
    pub cpu_address_bounds: (u16, u16),
    pub ppu_address_bounds: (u16, u16),
    pub num_PRG_banks: u8,
    pub num_CHR_banks: u8,
}

/// The program-memory offset that mapper 0 gives to a CPU address.
pub open spec fn nrom_prg_offset(num_prg_banks: u8, addr: u16) -> u16 {
    if num_prg_banks > 1 {
        addr & 0x7FFF
    } else {
        addr & 0x3FFF
    }
}

impl Mapper000 {
    pub fn new(num_PRG_banks: u8, num_CHR_banks: u8) -> (m: Mapper000)
        ensures
            m.wf(),
            m.num_PRG_banks == num_PRG_banks,
            m.num_CHR_banks == num_CHR_banks,
    {
        Mapper000 {
            cpu_address_bounds: (0x8000, 0xFFFF),
            ppu_address_bounds: (0x0000, 0x1FFF),
            num_PRG_banks,
            num_CHR_banks,
        }
    }

    /// The address windows of mapper 0.
    pub open spec fn wf(&self) -> bool {
        &&& self.cpu_address_bounds == (0x8000u16, 0xFFFFu16)
        &&& self.ppu_address_bounds == (0x0000u16, 0x1FFFu16)
    }

    pub open spec fn cpu_window(&self, addr: u16) -> bool {
        self.cpu_address_bounds.0 <= addr <= self.cpu_address_bounds.1
    }

    pub open spec fn ppu_window(&self, addr: u16) -> bool {
        self.ppu_address_bounds.0 <= addr <= self.ppu_address_bounds.1
    }

    /// A mapped CPU address stays inside the program memory that the banks hold:
    /// below 16 KiB with one bank, below 32 KiB with more.
    pub proof fn lemma_prg_offset_bound(num_prg_banks: u8, addr: u16)
        ensures
            num_prg_banks > 1 ==> nrom_prg_offset(num_prg_banks, addr) < 0x8000,
            num_prg_banks <= 1 ==> nrom_prg_offset(num_prg_banks, addr) < 0x4000,
    {
        assert(addr & 0x7FFF < 0x8000) by (bit_vector);
        assert(addr & 0x3FFF < 0x4000) by (bit_vector);
    }
}

/// With one program bank, 0xC000-0xFFFF mirrors 0x8000-0xBFFF; with more,
/// 0x8000-0xFFFF maps straight onto the first 32 KiB.
pub proof fn lemma_prg_mirror(num_prg_banks: u8, k: u16)
    requires
        k < 0x4000,
    ensures
        num_prg_banks <= 1 ==> nrom_prg_offset(num_prg_banks, (0x8000 + k) as u16) == k
            && nrom_prg_offset(num_prg_banks, (0xC000 + k) as u16) == k,
        num_prg_banks > 1 ==> nrom_prg_offset(num_prg_banks, (0x8000 + k) as u16) == k
            && nrom_prg_offset(num_prg_banks, (0xC000 + k) as u16) == 0x4000 + k,
{
    assert(((0x8000 + k) as u16) & 0x3FFF == k && ((0xC000 + k) as u16) & 0x3FFF == k
        && ((0x8000 + k) as u16) & 0x7FFF == k && ((0xC000 + k) as u16) & 0x7FFF == 0x4000 + k)
        by (bit_vector)
        requires
            k < 0x4000,
    ;
}

impl Mapper for Mapper000 {
    fn in_cpu_address_bounds(&self, addr: u16) -> (r: bool)
        ensures
            r == self.cpu_window(addr),
    {
        addr >= self.cpu_address_bounds.0 && addr <= self.cpu_address_bounds.1
    }

    fn in_ppu_address_bounds(&self, addr: u16) -> (r: bool)
        ensures
            r == self.ppu_window(addr),
    {
        addr >= self.ppu_address_bounds.0 && addr <= self.ppu_address_bounds.1
    }

    fn mapReadAddressFromCPU(&self, addr: u16) -> (r: Result<u16, String>)
        ensures
            r is Ok <==> self.cpu_window(addr),
            r is Ok ==> r->Ok_0 == nrom_prg_offset(self.num_PRG_banks, addr),
    {
        if self.in_cpu_address_bounds(addr) {
            // One bank: 0x8000-0xBFFF maps to 0x0000-0x3FFF and 0xC000-0xFFFF mirrors it.
            // Two banks: 0x8000-0xFFFF maps to 0x0000-0x7FFF.
            let mapped_addr = if self.num_PRG_banks > 1 {
                addr & 0x7FFF
            } else {
                addr & 0x3FFF
            };
            Ok(mapped_addr)
        } else {
            Err(String::from_str("Mapper received a CPU read address outside of CPU bounds!"))
        }
    }

    fn mapWriteAddressFromCPU(&self, addr: u16) -> (r: Result<u16, String>)
        ensures
            r is Ok <==> self.cpu_window(addr),
            r is Ok ==> r->Ok_0 == nrom_prg_offset(self.num_PRG_banks, addr),
    {
        if self.in_cpu_address_bounds(addr) {
            let mapped_addr = if self.num_PRG_banks > 1 {
                addr & 0x7FFF
            } else {
                addr & 0x3FFF
            };
            Ok(mapped_addr)
        } else {
            Err(String::from_str("Mapper received a CPU write address outside of CPU bounds!"))
        }
    }

    fn mapReadAddressFromPPU(&self, addr: u16) -> (r: Result<u16, String>)
        ensures
            r is Ok <==> self.ppu_window(addr),
            r is Ok ==> r->Ok_0 == addr,
    {
        if self.in_ppu_address_bounds(addr) {
            Ok(addr)
        } else {
            Err(String::from_str("Mapper received a PPU read address outside of PPU bounds!"))
        }
    }

    fn mapWriteAddressFromPPU(&self, addr: u16) -> (r: Result<u16, String>)
        ensures
            r is Ok <==> self.ppu_window(addr),
            r is Ok ==> r->Ok_0 == addr,
    {
        if self.in_ppu_address_bounds(addr) {
            Ok(addr)
        } else {
            Err(String::from_str("Mapper received a PPU write address outside of PPU bounds!"))
        }
    }
}

} // verus!
