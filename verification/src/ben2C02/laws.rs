use vstd::prelude::*;
use crate::cartridge::MirroringMode;
use super::{palette_index, nametable_location, PpuView};

verus! {

/// The palette at 0x3F00-0x3F1F is mirrored through 0x3F20-0x3FFF, and the
/// background colour entries 0x3F10, 0x3F14, 0x3F18, 0x3F1C are those of
/// 0x3F00, 0x3F04, 0x3F08, 0x3F0C.
pub proof fn lemma_palette_mirrors(p: PpuView, addr: u16)
    requires
        p.memory_wf(),
        0x3F00 <= addr <= 0x3FFF,
    ensures
        p.memory_value(addr) == p.memory_value((0x3F00 + (addr - 0x3F00) % 32) as u16),
        (addr - 0x3F00) % 32 >= 0x10 && (addr - 0x3F00) % 4 == 0 ==> p.memory_value(addr)
            == p.memory_value((addr - 0x10) as u16),
{
    assert(palette_index(addr) == palette_index((0x3F00 + (addr - 0x3F00) % 32) as u16) && ((
    addr - 0x3F00) % 32 >= 0x10 && (addr - 0x3F00) % 4 == 0 ==> palette_index(addr)
        == palette_index((addr - 0x10) as u16))) by (bit_vector)
        requires
            0x3F00 <= addr <= 0x3FFF,
    ;
}

/// The name tables: 0x3000-0x3EFF mirror 0x2000-0x2EFF; with horizontal
/// mirroring 0x2400 mirrors 0x2000 and 0x2C00 mirrors 0x2800; with vertical
/// mirroring 0x2800 mirrors 0x2000 and 0x2C00 mirrors 0x2400.
pub proof fn lemma_nametable_mirrors(p: PpuView, k: u16)
    requires
        p.memory_wf(),
        k < 0x400,
    ensures
        k < 0x300 ==> p.memory_value((0x3000 + k) as u16) == p.memory_value((0x2000 + k) as u16),
        k < 0x300 ==> p.memory_value((0x3400 + k) as u16) == p.memory_value((0x2400 + k) as u16),
        k < 0x300 ==> p.memory_value((0x3800 + k) as u16) == p.memory_value((0x2800 + k) as u16),
        k < 0x300 ==> p.memory_value((0x3C00 + k) as u16) == p.memory_value((0x2C00 + k) as u16),
        p.cartridge.mirroring_mode == MirroringMode::Horizontal ==> p.memory_value(
            (0x2400 + k) as u16,
        ) == p.memory_value((0x2000 + k) as u16) && p.memory_value((0x2C00 + k) as u16)
            == p.memory_value((0x2800 + k) as u16),
        p.cartridge.mirroring_mode == MirroringMode::Vertical ==> p.memory_value(
            (0x2800 + k) as u16,
        ) == p.memory_value((0x2000 + k) as u16) && p.memory_value((0x2C00 + k) as u16)
            == p.memory_value((0x2400 + k) as u16),
{
    assert(((0x2000 + k) as u16) & 0x3FF == k && ((0x2400 + k) as u16) & 0x3FF == k
        && ((0x2800 + k) as u16) & 0x3FF == k && ((0x2C00 + k) as u16) & 0x3FF == k)
        by (bit_vector)
        requires
            k < 0x400,
    ;
}

/// A write into the PPU's own memory is read back at every address that
/// mirrors it and at no other: pattern tables by address, name tables by
/// table and offset, palette by entry.
pub proof fn lemma_memory_read_after_write(p: PpuView, waddr: u16, data: u8, raddr: u16)
    requires
        p.memory_wf(),
        waddr < 0x4000,
        raddr < 0x4000,
    ensures
        p.memory_written(waddr, data).memory_value(raddr) == if p.same_cell(waddr, raddr) {
            data
        } else {
            p.memory_value(raddr)
        },
{
    if p.in_pattern_window(waddr) && p.in_pattern_window(raddr) && waddr != raddr {
        assert(waddr & 0x0FFF != raddr & 0x0FFF || (waddr & 0x1000 > 0) != (raddr & 0x1000 > 0))
            by (bit_vector)
            requires
                waddr <= 0x1FFF,
                raddr <= 0x1FFF,
                waddr != raddr,
        ;
    }
    let wa = (waddr - 0x1000) as u16;
    let ra = (raddr - 0x1000) as u16;
    assert(waddr & 0x0FFF < 4096 && raddr & 0x0FFF < 4096 && waddr & 0x3FF < 1024 && raddr
        & 0x3FF < 1024 && wa & 0x3FF < 1024 && ra & 0x3FF < 1024) by (bit_vector);
    let (wt, wi) = nametable_location(p.cartridge.mirroring_mode, waddr);
    let (rt, ri) = nametable_location(p.cartridge.mirroring_mode, raddr);
    assert(0 <= wi < 1024 && 0 <= ri < 1024);
    assert(0 <= palette_index(waddr) < 32 && 0 <= palette_index(raddr) < 32);
}

impl PpuView {
    /// Whether two addresses of the PPU's own memory reach the same byte.
    pub open spec fn same_cell(self, a: u16, b: u16) -> bool {
        if self.in_pattern_window(a) {
            self.in_pattern_window(b) && a == b
        } else if self.in_name_window(a) {
            self.in_name_window(b) && nametable_location(self.cartridge.mirroring_mode, a)
                == nametable_location(self.cartridge.mirroring_mode, b)
        } else {
            !self.in_pattern_window(b) && !self.in_name_window(b) && palette_index(a)
                == palette_index(b)
        }
    }
}

} // verus!
