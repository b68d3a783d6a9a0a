use vstd::prelude::*;
use vstd::string::StringExecFns;
use crate::device::Device;
use crate::ram::Ram2K;
use crate::controller::{Controller, controller_address};
use crate::cartridge::{Cartridge, lemma_prg_covers_window};
use crate::ben2C02::power_on_ppu;
use crate::ben2C02::{Ben2C02, PpuView};
use crate::utils::hex_utils;
use crate::utils::hex_utils::hex_digit;

verus! {

/// Writing to this address starts a DMA copy of one page into sprite memory.
pub const DMA_ADDR: u16 = 0x4014;

/// The CPU's 16-bit bus and what hangs on it: 2 KiB of RAM at 0x0000-0x1FFF
/// (mirrored), the PPU registers at 0x2000-0x3FFF, a stand-in for the audio
/// registers at 0x4000-0x4015, the controllers at 0x4016-0x4017 and the
/// cartridge at 0x8000-0xFFFF (the PPU owns the cartridge; the bus reaches it
/// through the PPU). Devices are asked in that order: RAM, audio stand-in,
/// PPU, controllers, cartridge.
pub struct Bus16Bit {
    pub ram: Ram2K,
    pub apu_mock: Ram2K,
    pub PPU: Ben2C02,
    pub controller: Controller,
    pub dma_transfer_active: bool,
    pub waiting_for_cycle_alignment: bool,
    pub dma_page: u8,
    pub dma_curr_data: u8,
    pub dma_curr_addr: u16,
}

/// The abstract state of the bus and its devices.
#[verifier::ext_equal]
pub struct BusView {
    pub ram: Ram2K,
    pub apu_mock: Ram2K,
    pub ppu: PpuView,
    pub controller: Controller,
    pub dma_transfer_active: bool,
    pub waiting_for_cycle_alignment: bool,
    pub dma_page: u8,
    pub dma_curr_data: u8,
    pub dma_curr_addr: u16,
}

impl View for Bus16Bit {
    type V = BusView;

    open spec fn view(&self) -> BusView {
        BusView {
            ram: self.ram,
            apu_mock: self.apu_mock,
            ppu: self.PPU@,
            controller: self.controller,
            dma_transfer_active: self.dma_transfer_active,
            waiting_for_cycle_alignment: self.waiting_for_cycle_alignment,
            dma_page: self.dma_page,
            dma_curr_data: self.dma_curr_data,
            dma_curr_addr: self.dma_curr_addr,
        }
    }
}

impl BusView {
    pub open spec fn wf(&self) -> bool {
        &&& self.ram.memory_bounds == (0x0000u16, 0x1FFFu16)
        &&& self.apu_mock.memory_bounds == (0x4000u16, 0x4015u16)
        &&& self.ppu.wf()
    }

    /// Whether some device answers `addr`.
    pub open spec fn mapped(&self, addr: u16) -> bool {
        self.ram.in_bounds(addr) || self.apu_mock.in_bounds(addr) || self.ppu.in_register_window(
            addr,
        ) || controller_address(addr) || self.ppu.cartridge.cpu_window(addr)
    }

    /// A read of `addr` is defined: the device that answers can be read there.
    pub open spec fn readable(&self, addr: u16) -> bool {
        if self.ram.in_bounds(addr) || self.apu_mock.in_bounds(addr) {
            true
        } else if self.ppu.in_register_window(addr) {
            self.ppu.register_readable(addr)
        } else if controller_address(addr) {
            true
        } else {
            self.ppu.cartridge.accessible(addr)
        }
    }

    /// A write of `addr` is defined: the device that answers can be written
    /// there.
    pub open spec fn writable(&self, addr: u16) -> bool {
        if addr == DMA_ADDR || self.ram.in_bounds(addr) || self.apu_mock.in_bounds(addr) {
            true
        } else if self.ppu.in_register_window(addr) {
            self.ppu.register_writable(addr)
        } else if controller_address(addr) {
            true
        } else {
            self.ppu.cartridge.accessible(addr)
        }
    }

    /// The byte that a read of `addr` answers, and the bus after it; an
    /// address that no device answers reads as 0.
    pub open spec fn read(&self, addr: u16) -> (u8, BusView) {
        if self.ram.in_bounds(addr) {
            (self.ram.value_at(addr), *self)
        } else if self.apu_mock.in_bounds(addr) {
            (self.apu_mock.value_at(addr), *self)
        } else if self.ppu.in_register_window(addr) {
            let (v, p) = self.ppu.register_read(addr);
            (v, BusView { ppu: p, ..*self })
        } else if controller_address(addr) {
            (self.controller.read_value(addr), BusView { controller: self.controller.after_read(addr), ..*self })
        } else if self.ppu.cartridge.cpu_window(addr) {
            (self.ppu.cartridge.read_value(addr), *self)
        } else {
            (0, *self)
        }
    }

    /// The bus after a write of `data` to `addr`. A write to 0x4014 starts a
    /// DMA transfer of page `data`; an address that no device answers is left
    /// alone.
    pub open spec fn write(&self, addr: u16, data: u8) -> BusView {
        if addr == DMA_ADDR {
            BusView {
                dma_page: data,
                dma_curr_addr: (data as u16) << 8u16,
                dma_transfer_active: true,
                waiting_for_cycle_alignment: true,
                dma_curr_data: 0,
                ..*self
            }
        } else if self.ram.in_bounds(addr) {
            BusView { ram: self.ram.written(addr, data), ..*self }
        } else if self.apu_mock.in_bounds(addr) {
            BusView { apu_mock: self.apu_mock.written(addr, data), ..*self }
        } else if self.ppu.in_register_window(addr) {
            BusView { ppu: self.ppu.register_written(addr, data), ..*self }
        } else if controller_address(addr) {
            BusView { controller: self.controller.after_write(addr), ..*self }
        } else if self.ppu.cartridge.cpu_window(addr) {
            BusView {
                ppu: PpuView { cartridge: self.ppu.cartridge.written(addr, data), ..self.ppu },
                ..*self
            }
        } else {
            *self
        }
    }

    /// The bytes of `count` consecutive reads from `start` on, each read
    /// seeing the bus that the previous one left, and the bus after them.
    pub open spec fn read_range(&self, start: u16, count: nat) -> (Seq<u8>, BusView)
        decreases count,
    {
        if count == 0 {
            (Seq::empty(), *self)
        } else {
            let (v, b) = self.read(start);
            let (rest, b2) = b.read_range((start + 1) as u16, (count - 1) as nat);
            (seq![v] + rest, b2)
        }
    }

    /// Every read of `count` consecutive reads from `start` on is defined.
    pub open spec fn range_readable(&self, start: u16, count: nat) -> bool
        decreases count,
    {
        if count == 0 {
            true
        } else {
            self.readable(start) && self.read(start).1.range_readable(
                (start + 1) as u16,
                (count - 1) as nat,
            )
        }
    }
}

/// A read of RAM answers what the last write at a mirroring address wrote.
pub proof fn lemma_bus_ram_read_after_write(b: BusView, waddr: u16, data: u8, raddr: u16)
    requires
        b.wf(),
        waddr <= 0x1FFF,
        raddr <= 0x1FFF,
    ensures
        b.write(waddr, data).read(raddr).0 == if waddr % 2048 == raddr % 2048 {
            data
        } else {
            b.read(raddr).0
        },
{
    b.ram.lemma_read_after_write(waddr, data, raddr);
}

/// The number of addresses from `start` up to `end` (excluded); none when
/// `end` is not above `start`.
pub open spec fn span(start: u16, end: u16) -> nat {
    if start <= end {
        (end - start) as nat
    } else {
        0
    }
}

/// Consecutive reads that stay clear of the PPU's registers are all defined
/// where the cartridge holds its program banks, and they leave the RAM, the
/// PPU and the cartridge as they were.
pub proof fn lemma_range_clear_of_ppu_readable(b: BusView, start: u16, count: nat)
    requires
        b.wf(),
        b.ppu.cartridge.prg_covers_window(),
        start + count <= 0x10000,
        count == 0 || start + count <= 0x2000 || 0x3FFF < start,
    ensures
        b.range_readable(start, count),
        b.read_range(start, count).1.ppu == b.ppu,
        b.read_range(start, count).1.ram == b.ram,
        b.read_range(start, count).1.apu_mock == b.apu_mock,
    decreases count,
{
    if count > 0 {
        lemma_prg_covers_window(b.ppu.cartridge, start);
        let b1 = b.read(start).1;
        assert(!b.ppu.in_register_window(start));
        assert(b1.ppu == b.ppu && b1.ram == b.ram && b1.apu_mock == b.apu_mock);
        let next = (start + 1) as u16;
        if count > 1 {
            lemma_range_clear_of_ppu_readable(b1, next, (count - 1) as nat);
        } else {
            assert(b1.range_readable(next, 0));
            assert(b1.read_range(next, 0).1 == b1);
        }
    }
}

/// The text of a memory dump: each byte as two hexadecimal digits and a space.
pub open spec fn hex_dump(bytes: Seq<u8>) -> Seq<char>
    decreases bytes.len(),
{
    if bytes.len() == 0 {
        Seq::empty()
    } else {
        seq![hex_digit(bytes[0] / 16), hex_digit(bytes[0] % 16), ' '] + hex_dump(
            bytes.subrange(1, bytes.len() as int),
        )
    }
}

impl Bus16Bit {
    pub open spec fn wf(&self) -> bool {
        self@.wf()
    }

    /// A bus with zeroed RAM, a fresh PPU over `cartridge` and idle
    /// controllers, and no DMA transfer pending.
    pub fn new(cartridge: Cartridge) -> (bus: Bus16Bit)
        requires
            cartridge@.wf(),
        ensures
            bus.wf(),
            bus@.ppu == power_on_ppu(cartridge@),
            bus@.ram.memory_bounds == (0x0000u16, 0x1FFFu16),
            forall|i: int| 0 <= i < 2048 ==> #[trigger] bus@.ram.memory[i] == 0,
            bus@.apu_mock.memory_bounds == (0x4000u16, 0x4015u16),
            forall|i: int| 0 <= i < 2048 ==> #[trigger] bus@.apu_mock.memory[i] == 0,
            bus@.controller.data[0] == 0 && bus@.controller.data[1] == 0,
            bus@.controller.emulator_input[0] == 0 && bus@.controller.emulator_input[1] == 0,
            !bus@.dma_transfer_active,
            bus@.waiting_for_cycle_alignment,
            bus@.dma_page == 0,
            bus@.dma_curr_data == 0,
            bus@.dma_curr_addr == 0,
    {
        let ram = Ram2K::new((0x0000, 0x1FFF));
        let apu_mock = Ram2K::new((0x4000, 0x4015));
        let PPU = Ben2C02::new(cartridge);
        let controller = Controller::new();
        Bus16Bit {
            ram,
            apu_mock,
            PPU,
            controller,
            dma_transfer_active: false,
            waiting_for_cycle_alignment: true,
            dma_page: 0x0,
            dma_curr_data: 0x0,
            dma_curr_addr: 0x0,
        }
    }

    /// Reads the device that answers `addr`; 0 where none does.
    pub fn read(&mut self, addr: u16, readOnly: bool) -> (r: Result<u8, String>)
        requires
            old(self).wf(),
            old(self)@.readable(addr),
        ensures
            final(self).wf(),
            r == Ok::<u8, String>(old(self)@.read(addr).0),
            final(self)@ == old(self)@.read(addr).1,
    {
        if self.ram.in_memory_bounds(addr) {
            self.ram.read(addr)
        } else if self.apu_mock.in_memory_bounds(addr) {
            self.apu_mock.read(addr)
        } else if self.PPU.in_memory_bounds(addr) {
            let r = self.PPU.read(addr);
            assert(self@ =~= old(self)@.read(addr).1);
            r
        } else if self.controller.in_memory_bounds(addr) {
            let r = self.controller.read(addr);
            assert(self@ =~= old(self)@.read(addr).1);
            r
        } else if self.PPU.cartridge.in_memory_bounds(addr) {
            self.PPU.cartridge.read(addr)
        } else {
            Ok(0)
        }
    }

    /// Reads a little-endian word: the byte at `addr`, then the byte at
    /// `addr + 1` (wrapping) as the high byte.
    pub fn read_word_little_endian(&mut self, addr: u16, readOnly: bool) -> (r: Result<
        u16,
        String,
    >)
        requires
            old(self).wf(),
            old(self)@.readable(addr),
            old(self)@.read(addr).1.readable(vstd::wrapping::u16_specs::wrapping_add(addr, 1)),
        ensures
            final(self).wf(),
            ({
                let (lo, b1) = old(self)@.read(addr);
                let (hi, b2) = b1.read(vstd::wrapping::u16_specs::wrapping_add(addr, 1));
                r == Ok::<u16, String>((hi as int * 256 + lo as int) as u16) && final(self)@ == b2
            }),
    {
        let low = self.read(addr, false);
        let high = self.read(addr.wrapping_add(1), false);
        match (low, high) {
            (Ok(l), Ok(h)) => {
                let hs = (h as u16) << 8;
                assert(hs <= 0xFF00) by (bit_vector)
                    requires
                        hs == (h as u16) << 8u16,
                ;
                let result = hs + (l as u16);
                assert(result == (h as int * 256 + l as int) as u16) by (bit_vector)
                    requires
                        hs == (h as u16) << 8u16,
                        result == hs + (l as u16),
                ;
                Ok(result)
            },
            _ => Err(String::from_str("Error reading word from memory bus")),
        }
    }

    /// Writes the device that answers `addr`; a write to 0x4014 starts a DMA
    /// transfer instead. An address that no device answers is an error.
    pub fn write(&mut self, addr: u16, content: u8) -> (r: Result<(), String>)
        requires
            old(self).wf(),
            old(self)@.writable(addr),
        ensures
            final(self).wf(),
            r is Ok <==> (addr == DMA_ADDR || old(self)@.mapped(addr)),
            final(self)@ == old(self)@.write(addr, content),
    {
        if addr == DMA_ADDR {
            self.dma_page = content;
            self.dma_curr_addr = (self.dma_page as u16) << 8;
            self.dma_transfer_active = true;
            self.waiting_for_cycle_alignment = true;
            self.dma_curr_data = 0;
            assert(self@ =~= old(self)@.write(addr, content));
            return Ok(());
        }
        if self.ram.in_memory_bounds(addr) {
            let r = self.ram.write(addr, content);
            assert(self@ =~= old(self)@.write(addr, content));
            r
        } else if self.apu_mock.in_memory_bounds(addr) {
            let r = self.apu_mock.write(addr, content);
            assert(self@ =~= old(self)@.write(addr, content));
            r
        } else if self.PPU.in_memory_bounds(addr) {
            let r = self.PPU.write(addr, content);
            assert(self@ =~= old(self)@.write(addr, content));
            r
        } else if self.controller.in_memory_bounds(addr) {
            let r = self.controller.write(addr, content);
            assert(self@ =~= old(self)@.write(addr, content));
            r
        } else if self.PPU.cartridge.in_memory_bounds(addr) {
            let r = self.PPU.cartridge.write(addr, content);
            assert(self.PPU@ =~= (PpuView {
                cartridge: old(self)@.ppu.cartridge.written(addr, content),
                ..old(self)@.ppu
            }));
            assert(self@ =~= old(self)@.write(addr, content));
            r
        } else {
            Err(String::from_str("Error writing to memory bus (no device at the given address)"))
        }
    }

    /// The bytes at `start_addr` up to `end_addr` (excluded), as two
    /// hexadecimal digits and a space each.
    pub fn get_memory_content_as_string(&mut self, start_addr: u16, end_addr: u16) -> (r: String)
        requires
            old(self).wf(),
            old(self)@.range_readable(start_addr, span(start_addr, end_addr)),
        ensures
            final(self).wf(),
            r@ == hex_dump(old(self)@.read_range(start_addr, span(start_addr, end_addr)).0),
            final(self)@ == old(self)@.read_range(start_addr, span(start_addr, end_addr)).1,
    {
        let bytes = self.get_memory_content_as_vec(start_addr, end_addr);
        let mut result = String::new();
        let mut i: usize = 0;
        while i < bytes.len()
            invariant
                i <= bytes.len(),
                result@ == hex_dump(bytes@.subrange(0, i as int)),
            decreases bytes.len() - i,
        {
            let s = hex_utils::decimal_byte_to_hex_str(bytes[i]);
            result.append(s.as_str());
            result.append(" ");
            proof {
                reveal_strlit(" ");
                lemma_hex_dump_push(bytes@.subrange(0, i as int), bytes@[i as int]);
                assert(bytes@.subrange(0, i + 1) =~= bytes@.subrange(0, i as int).push(
                    bytes@[i as int],
                ));
            }
            i = i + 1;
        }
        assert(bytes@.subrange(0, bytes.len() as int) =~= bytes@);
        result
    }

    /// The bytes at `start_addr` up to `end_addr` (excluded).
    pub fn get_memory_content_as_vec(&mut self, start_addr: u16, end_addr: u16) -> (r: Vec<u8>)
        requires
            old(self).wf(),
            old(self)@.range_readable(start_addr, span(start_addr, end_addr)),
        ensures
            final(self).wf(),
            r@ == old(self)@.read_range(start_addr, span(start_addr, end_addr)).0,
            final(self)@ == old(self)@.read_range(start_addr, span(start_addr, end_addr)).1,
    {
        let mut result: Vec<u8> = Vec::new();
        if end_addr <= start_addr {
            // An empty range.
            return result;
        }
        let mut curr_addr = start_addr;
        while curr_addr < end_addr
            invariant
                self.wf(),
                start_addr <= curr_addr <= end_addr,
                self@.range_readable(curr_addr, (end_addr - curr_addr) as nat),
                old(self)@.read_range(start_addr, (end_addr - start_addr) as nat).0 == result@
                    + self@.read_range(curr_addr, (end_addr - curr_addr) as nat).0,
                old(self)@.read_range(start_addr, (end_addr - start_addr) as nat).1
                    == self@.read_range(curr_addr, (end_addr - curr_addr) as nat).1,
            decreases end_addr - curr_addr,
        {
            let ghost before = self@;
            proof {
                let n = (end_addr - curr_addr) as nat;
                assert(before.range_readable(curr_addr, n) == (before.readable(curr_addr)
                    && before.read(curr_addr).1.range_readable(
                    (curr_addr + 1) as u16,
                    (n - 1) as nat,
                )));
            }
            let r = self.read(curr_addr, false);
            let memory_content = match r {
                Ok(v) => v,
                Err(_) => 0,
            };
            proof {
                let n = (end_addr - curr_addr) as nat;
                assert(before.read_range(curr_addr, n).0 == seq![memory_content] + self@.read_range(
                    (curr_addr + 1) as u16,
                    (n - 1) as nat,
                ).0);
                assert(result@.push(memory_content) + self@.read_range(
                    (curr_addr + 1) as u16,
                    (n - 1) as nat,
                ).0 =~= result@ + before.read_range(curr_addr, n).0);
            }
            result.push(memory_content);
            curr_addr = curr_addr + 1;
        }
        assert(result@ + Seq::<u8>::empty() =~= result@);
        result
    }

    /// The PPU on the bus.
    pub fn get_PPU(&self) -> (r: &Ben2C02)
        ensures
            r == &self.PPU,
    {
        &self.PPU
    }
}

proof fn lemma_hex_dump_push(bytes: Seq<u8>, b: u8)
    ensures
        hex_dump(bytes.push(b)) == hex_dump(bytes) + seq![hex_digit(b / 16), hex_digit(b % 16), ' '],
    decreases bytes.len(),
{
    if bytes.len() == 0 {
        assert(bytes.push(b).subrange(1, 1) =~= Seq::<u8>::empty());
        assert(hex_dump(Seq::<u8>::empty()) == Seq::<char>::empty());
        assert(hex_dump(bytes.push(b)) =~= seq![hex_digit(b / 16), hex_digit(b % 16), ' ']);
    } else {
        let tail = bytes.subrange(1, bytes.len() as int);
        lemma_hex_dump_push(tail, b);
        assert(bytes.push(b).subrange(1, bytes.len() as int + 1) =~= tail.push(b));
        assert(hex_dump(bytes.push(b)) =~= hex_dump(bytes) + seq![
            hex_digit(b / 16),
            hex_digit(b % 16),
            ' ',
        ]);
    }
}

} // verus!
