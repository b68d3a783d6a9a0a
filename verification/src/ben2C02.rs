pub mod registers;
pub mod palette;
pub mod rendering;
pub mod laws;
pub mod render_laws;

use vstd::prelude::*;
use vstd::string::StringExecFns;
use crate::device::Device;
use crate::graphics::Color;
use crate::cartridge::{Cartridge, CartridgeView, MirroringMode};
use crate::utils::bitwise_utils;
use crate::utils::bitwise_utils::{bit8, with_bit8, bits16, with_bit16};
use self::registers::{
    StatusRegister, MaskRegister, ControllerRegister, VramRegister, coarse_x_of, coarse_y_of,
    nametable_x_of, nametable_y_of, fine_y_of,
};
use self::palette::{create_palette_vis_buffer, nes_palette};

verus! {

pub const PPU_MEMORY_BOUNDS: (u16, u16) = (0x2000, 0x3FFF);

pub const SCREEN_WIDTH: usize = 256;

pub const SCREEN_HEIGHT: usize = 240;

/// Side of a pattern-table picture, in pixels (16 tiles of 8 pixels).
pub const PATTERN_TABLE_VIS_SIDE: usize = 128;

/// One entry of object attribute memory (OAM): a sprite.
#[derive(Clone, Copy, Debug, Default, PartialEq, Eq, Structural)]
pub struct SpriteObj {
    pub y: u8,
    pub tile_id: u8,
    pub attributes: u8,
    pub x: u8,
}

/// The Ricoh 2C02 picture processing unit.
///
/// The CPU sees it through eight registers at 0x2000-0x2007, mirrored up to
/// 0x3FFF. On its own bus the PPU reaches the cartridge's pattern memory
/// (0x0000-0x1FFF), its name tables (0x2000-0x3EFF) and its palette
/// (0x3F00-0x3FFF). It owns the cartridge that it reads from.
///
/// `screen_vis_buffer` holds the 240 rows of 256 pixels of the picture, row by
/// row; `pattern_tables_vis_buffer` holds the two 128x128 pattern-table
/// pictures, table by table, column by column.
pub struct Ben2C02 {
    pub memory_bounds: (u16, u16),
    pub cartridge: Cartridge,
    pub scan_line: i16,
    pub cycle: i16,
    pub frame_render_complete: bool,
    pub odd_frame: bool,
    pub trigger_cpu_nmi: bool,
    pub controller_reg: ControllerRegister,
    pub mask_reg: MaskRegister,
    pub status_reg: StatusRegister,
    pub writing_high_byte_of_addr: bool,
    pub ppu_data_read_buffer: u8,
    pub oam_data_addr: u8,
    pub vram_reg: VramRegister,
    pub temp_vram_reg: VramRegister,
    pub fine_x: u8,
    pub bg_next_tile_id: u8,
    pub bg_next_tile_attribute: u8,
    pub bg_next_tile_lsb: u8,
    pub bg_next_tile_msb: u8,
    pub bg_shifter_pattern_lo: u16,
    pub bg_shifter_pattern_hi: u16,
    pub bg_shifter_attrib_lo: u16,
    pub bg_shifter_attrib_hi: u16,
    pub sprites_on_curr_scanline: Vec<SpriteObj>,
    pub sprites_on_curr_scanline_pattern_lsb: Vec<u8>,
    pub sprites_on_curr_scanline_pattern_msb: Vec<u8>,
    pub sprite_zero_hit_possible: bool,
    pub sprite_zero_being_rendered: bool,
    pub pattern_tables: [[u8; 4096]; 2],
    pub pattern_tables_mem_bounds: (u16, u16),
    pub name_tables: [[u8; 1024]; 2],
    pub name_tables_mem_bounds: (u16, u16),
    pub palette: [u8; 32],
    pub palette_mem_bounds: (u16, u16),
    pub oam_memory: [SpriteObj; 64],
    pub screen_vis_buffer: Vec<Color>,
    pub pattern_tables_vis_buffer: Vec<Color>,
    pub palette_vis_bufer: [Color; 64],
}

/// Facts on the bit fields that the PPU's registers and memories use: masked
/// offsets stay within their memories, and the writes of the temporary VRAM
/// address keep it below 0x8000.
proof fn lemma_ppu_bit_facts(a: u16, t: u16, d: u8, e: u8, nx: u8, ny: u8, l: u16, h: u16)
    by (bit_vector)
    ensures
        a & 0x3FF < 1024,
        a & 0x0FFF < 4096,
        a & 0x0007 < 8,
        a & 0x3FFF < 0x8000,
        t < 0x8000 && nx <= 1 && ny <= 1 ==> with_bit16(with_bit16(t, 10, nx), 11, ny) < 0x8000,
        l == bits16(d as u16, 0, 2) ==> l == (d & 0x07) as u16 && l < 8,
        h == bits16(d as u16, 3, 7) ==> h == ((d >> 3u8) & 0x1F) as u16 && h < 32,
        t < 0x8000 && h < 32 ==> (t & !0x001Fu16) | h < 0x8000,
        t < 0x8000 && l < 8 && h < 32 ==> (((t & !0x7000u16) | (l << 12u16)) & !0x03E0u16) | (h
            << 5u16) < 0x8000,
        t & 0xFF <= 0xFF,
        ((d & 0x3F) as u16) << 8u16 <= 0x3F00,
        t < 0x8000 ==> t & 0xFF00 <= 0x7F00,
        d & 0xE0 <= 0xE0,
        e & 0x1F <= 0x1F,
{
}

/// The abstract state of the PPU.
#[verifier::ext_equal]
pub struct PpuView {
    pub memory_bounds: (u16, u16),
    pub cartridge: CartridgeView,
    pub scan_line: i16,
    pub cycle: i16,
    pub frame_render_complete: bool,
    pub odd_frame: bool,
    pub trigger_cpu_nmi: bool,
    pub controller: u8,
    pub mask: u8,
    pub status: u8,
    pub writing_high_byte_of_addr: bool,
    pub ppu_data_read_buffer: u8,
    pub oam_data_addr: u8,
    pub vram: u16,
    pub temp_vram: u16,
    pub fine_x: u8,
    pub bg_next_tile_id: u8,
    pub bg_next_tile_attribute: u8,
    pub bg_next_tile_lsb: u8,
    pub bg_next_tile_msb: u8,
    pub bg_shifter_pattern_lo: u16,
    pub bg_shifter_pattern_hi: u16,
    pub bg_shifter_attrib_lo: u16,
    pub bg_shifter_attrib_hi: u16,
    pub sprites: Seq<SpriteObj>,
    pub sprite_lsb: Seq<u8>,
    pub sprite_msb: Seq<u8>,
    pub sprite_zero_hit_possible: bool,
    pub sprite_zero_being_rendered: bool,
    pub pattern_tables: Seq<Seq<u8>>,
    pub pattern_tables_mem_bounds: (u16, u16),
    pub name_tables: Seq<Seq<u8>>,
    pub name_tables_mem_bounds: (u16, u16),
    pub palette: Seq<u8>,
    pub palette_mem_bounds: (u16, u16),
    pub oam: Seq<SpriteObj>,
    pub screen: Seq<Color>,
    pub pattern_vis: Seq<Color>,
    pub palette_colors: Seq<Color>,
}

/// The PPU at power-on over a cartridge: registers, buffers, memories and
/// pictures cleared (pictures black), at scanline 0, cycle 0, with the fixed
/// address windows and the master palette.
pub open spec fn power_on_ppu(cartridge: CartridgeView) -> PpuView {
    PpuView {
        memory_bounds: PPU_MEMORY_BOUNDS,
        cartridge,
        scan_line: 0,
        cycle: 0,
        frame_render_complete: false,
        odd_frame: false,
        trigger_cpu_nmi: false,
        controller: 0,
        mask: 0,
        status: 0,
        writing_high_byte_of_addr: true,
        ppu_data_read_buffer: 0,
        oam_data_addr: 0,
        vram: 0,
        temp_vram: 0,
        fine_x: 0,
        bg_next_tile_id: 0,
        bg_next_tile_attribute: 0,
        bg_next_tile_lsb: 0,
        bg_next_tile_msb: 0,
        bg_shifter_pattern_lo: 0,
        bg_shifter_pattern_hi: 0,
        bg_shifter_attrib_lo: 0,
        bg_shifter_attrib_hi: 0,
        sprites: Seq::empty(),
        sprite_lsb: Seq::empty(),
        sprite_msb: Seq::empty(),
        sprite_zero_hit_possible: false,
        sprite_zero_being_rendered: false,
        pattern_tables: Seq::new(2, |t: int| Seq::new(4096, |i: int| 0u8)),
        pattern_tables_mem_bounds: (0x0000, 0x1FFF),
        name_tables: Seq::new(2, |t: int| Seq::new(1024, |i: int| 0u8)),
        name_tables_mem_bounds: (0x2000, 0x3EFF),
        palette: Seq::new(32, |i: int| 0u8),
        palette_mem_bounds: (0x3F00, 0x3FFF),
        oam: Seq::new(64, |i: int| SpriteObj { y: 0, tile_id: 0, attributes: 0, x: 0 }),
        screen: Seq::new(
            (SCREEN_WIDTH * SCREEN_HEIGHT) as nat,
            |i: int| Color { red: 0, green: 0, blue: 0 },
        ),
        pattern_vis: Seq::new(
            (2 * PATTERN_TABLE_VIS_SIDE * PATTERN_TABLE_VIS_SIDE) as nat,
            |i: int| Color { red: 0, green: 0, blue: 0 },
        ),
        palette_colors: nes_palette(),
    }
}

impl View for Ben2C02 {
    type V = PpuView;

    open spec fn view(&self) -> PpuView {
        PpuView {
            memory_bounds: self.memory_bounds,
            cartridge: self.cartridge@,
            scan_line: self.scan_line,
            cycle: self.cycle,
            frame_render_complete: self.frame_render_complete,
            odd_frame: self.odd_frame,
            trigger_cpu_nmi: self.trigger_cpu_nmi,
            controller: self.controller_reg.flags,
            mask: self.mask_reg.flags,
            status: self.status_reg.flags,
            writing_high_byte_of_addr: self.writing_high_byte_of_addr,
            ppu_data_read_buffer: self.ppu_data_read_buffer,
            oam_data_addr: self.oam_data_addr,
            vram: self.vram_reg.flags,
            temp_vram: self.temp_vram_reg.flags,
            fine_x: self.fine_x,
            bg_next_tile_id: self.bg_next_tile_id,
            bg_next_tile_attribute: self.bg_next_tile_attribute,
            bg_next_tile_lsb: self.bg_next_tile_lsb,
            bg_next_tile_msb: self.bg_next_tile_msb,
            bg_shifter_pattern_lo: self.bg_shifter_pattern_lo,
            bg_shifter_pattern_hi: self.bg_shifter_pattern_hi,
            bg_shifter_attrib_lo: self.bg_shifter_attrib_lo,
            bg_shifter_attrib_hi: self.bg_shifter_attrib_hi,
            sprites: self.sprites_on_curr_scanline@,
            sprite_lsb: self.sprites_on_curr_scanline_pattern_lsb@,
            sprite_msb: self.sprites_on_curr_scanline_pattern_msb@,
            sprite_zero_hit_possible: self.sprite_zero_hit_possible,
            sprite_zero_being_rendered: self.sprite_zero_being_rendered,
            pattern_tables: Seq::new(2, |i: int| self.pattern_tables[i]@),
            pattern_tables_mem_bounds: self.pattern_tables_mem_bounds,
            name_tables: Seq::new(2, |i: int| self.name_tables[i]@),
            name_tables_mem_bounds: self.name_tables_mem_bounds,
            palette: self.palette@,
            palette_mem_bounds: self.palette_mem_bounds,
            oam: self.oam_memory@,
            screen: self.screen_vis_buffer@,
            pattern_vis: self.pattern_tables_vis_buffer@,
            palette_colors: self.palette_vis_bufer@,
        }
    }
}

/// The palette entry of an address of the palette window: the 32 entries are
/// mirrored across 0x3F00-0x3FFF, and entries 0x10, 0x14, 0x18 and 0x1C are
/// the same bytes as 0x00, 0x04, 0x08 and 0x0C.
pub open spec fn palette_index(addr: u16) -> int {
    let r = (addr & 0xFF) % 32;
    if r == 0x10 {
        0
    } else if r == 0x14 {
        4
    } else if r == 0x18 {
        8
    } else if r == 0x1C {
        0xC
    } else {
        r as int
    }
}

/// The physical name table (0 or 1) and the offset within it of an address of
/// the name-table window 0x2000-0x3EFF. 0x3000-0x3EFF mirror 0x2000-0x2EFF;
/// horizontal mirroring pairs the tables at 0x2000 and 0x2400, vertical
/// mirroring the tables at 0x2000 and 0x2800.
pub open spec fn nametable_location(mode: MirroringMode, addr: u16) -> (int, int) {
    let a = if addr >= 0x3000 {
        (addr - 0x1000) as u16
    } else {
        addr
    };
    let table = if a <= 0x23FF {
        0int
    } else if a <= 0x27FF {
        if mode == MirroringMode::Horizontal {
            0int
        } else {
            1int
        }
    } else if a <= 0x2BFF {
        if mode == MirroringMode::Horizontal {
            1int
        } else {
            0int
        }
    } else {
        1int
    };
    (table, (a & 0x3FF) as int)
}

/// The byte of object attribute memory at `addr`: entry `addr / 4`, field
/// `addr % 4` (y, tile, attributes, x).
pub open spec fn oam_value(oam: Seq<SpriteObj>, addr: u8) -> u8 {
    let s = oam[(addr / 4) as int];
    if addr % 4 == 0 {
        s.y
    } else if addr % 4 == 1 {
        s.tile_id
    } else if addr % 4 == 2 {
        s.attributes
    } else {
        s.x
    }
}

/// Object attribute memory after writing `data` at `addr`.
pub open spec fn oam_written(oam: Seq<SpriteObj>, addr: u8, data: u8) -> Seq<SpriteObj> {
    let i = (addr / 4) as int;
    let s = oam[i];
    oam.update(
        i,
        if addr % 4 == 0 {
            SpriteObj { y: data, ..s }
        } else if addr % 4 == 1 {
            SpriteObj { tile_id: data, ..s }
        } else if addr % 4 == 2 {
            SpriteObj { attributes: data, ..s }
        } else {
            SpriteObj { x: data, ..s }
        },
    )
}

/// A byte of object attribute memory reads back what was last written to it;
/// writing one byte leaves every other byte as it was.
pub proof fn lemma_oam_read_after_write(oam: Seq<SpriteObj>, waddr: u8, data: u8, raddr: u8)
    requires
        oam.len() == 64,
    ensures
        oam_value(oam_written(oam, waddr, data), raddr) == if raddr == waddr {
            data
        } else {
            oam_value(oam, raddr)
        },
{
    if raddr != waddr && raddr / 4 == waddr / 4 {
        assert(raddr % 4 != waddr % 4);
    }
}

/// The VRAM address increment after an access of the data register: 32 (one
/// row of tiles) in increment mode, else 1.
pub open spec fn vram_increment(controller: u8) -> u16 {
    if bit8(controller, 2) != 0 {
        32
    } else {
        1
    }
}

impl PpuView {
    /// The fixed windows of the PPU, a well-formed cartridge, the VRAM address
    /// registers below 0x8000, and the state of sprite evaluation.
    pub open spec fn wf(&self) -> bool {
        self.memory_wf() && self.rendering_wf()
    }

    /// The fixed windows, a well-formed cartridge, the sizes of the memories
    /// and the VRAM address registers below 0x8000.
    pub open spec fn memory_wf(&self) -> bool {
        &&& self.memory_bounds == (0x2000u16, 0x3FFFu16)
        &&& self.pattern_tables_mem_bounds == (0x0000u16, 0x1FFFu16)
        &&& self.name_tables_mem_bounds == (0x2000u16, 0x3EFFu16)
        &&& self.palette_mem_bounds == (0x3F00u16, 0x3FFFu16)
        &&& self.cartridge.wf()
        &&& self.vram < 0x8000
        &&& self.temp_vram < 0x8000
        &&& self.pattern_tables.len() == 2
        &&& self.pattern_tables[0].len() == 4096
        &&& self.pattern_tables[1].len() == 4096
        &&& self.name_tables.len() == 2
        &&& self.name_tables[0].len() == 1024
        &&& self.name_tables[1].len() == 1024
        &&& self.palette.len() == 32
        &&& self.oam.len() == 64
        &&& self.palette_colors == nes_palette()
        &&& self.screen.len() == SCREEN_WIDTH * SCREEN_HEIGHT
        &&& self.pattern_vis.len() == 2 * PATTERN_TABLE_VIS_SIDE * PATTERN_TABLE_VIS_SIDE
        &&& self.fine_x < 8
    }

    /// The timing position stays within a frame, and the fetched sprite rows
    /// correspond to the sprites chosen for the scanline.
    pub open spec fn rendering_wf(&self) -> bool {
        &&& -1 <= self.scan_line <= 260
        &&& 0 <= self.cycle <= 340
        &&& self.sprites.len() <= 8
        &&& self.sprite_lsb.len() == self.sprite_msb.len()
        &&& self.sprite_lsb.len() <= self.sprites.len()
        &&& ((self.scan_line == -1 && 2 <= self.cycle) || (0 <= self.scan_line < 240 && 258
            <= self.cycle)) ==> self.sprite_lsb.len() == 0
    }

    pub open spec fn in_pattern_window(&self, addr: u16) -> bool {
        self.pattern_tables_mem_bounds.0 <= addr <= self.pattern_tables_mem_bounds.1
    }

    pub open spec fn in_name_window(&self, addr: u16) -> bool {
        self.name_tables_mem_bounds.0 <= addr <= self.name_tables_mem_bounds.1
    }

    pub open spec fn in_palette_window(&self, addr: u16) -> bool {
        self.palette_mem_bounds.0 <= addr <= self.palette_mem_bounds.1
    }

    /// A byte of the PPU's own memory (address below 0x4000): pattern tables,
    /// name tables through the mirroring of the cartridge, palette.
    pub open spec fn memory_value(&self, addr: u16) -> u8 {
        if self.in_pattern_window(addr) {
            self.pattern_tables[if addr & 0x1000 > 0 {
                1int
            } else {
                0int
            }][(addr & 0x0FFF) as int]
        } else if self.in_name_window(addr) {
            let (t, i) = nametable_location(self.cartridge.mirroring_mode, addr);
            self.name_tables[t][i]
        } else {
            self.palette[palette_index(addr)]
        }
    }

    /// The PPU after writing `data` into its own memory at `addr`.
    pub open spec fn memory_written(&self, addr: u16, data: u8) -> PpuView {
        if self.in_pattern_window(addr) {
            let t = if addr & 0x1000 > 0 {
                1int
            } else {
                0int
            };
            PpuView {
                pattern_tables: self.pattern_tables.update(
                    t,
                    self.pattern_tables[t].update((addr & 0x0FFF) as int, data),
                ),
                ..*self
            }
        } else if self.in_name_window(addr) {
            let (t, i) = nametable_location(self.cartridge.mirroring_mode, addr);
            PpuView { name_tables: self.name_tables.update(t, self.name_tables[t].update(i, data)), ..*self }
        } else if self.in_palette_window(addr) {
            PpuView { palette: self.palette.update(palette_index(addr), data), ..*self }
        } else {
            *self
        }
    }

    /// Addresses of the PPU bus that can be read and written: the PPU's own
    /// address space, or program memory that exists.
    pub open spec fn bus_accessible(&self, addr: u16) -> bool {
        addr < 0x4000 || (self.cartridge.cpu_window(addr) && self.cartridge.accessible(addr))
    }

    /// A byte of the PPU bus: the cartridge answers first, the PPU's own
    /// memory otherwise.
    pub open spec fn bus_value(&self, addr: u16) -> u8 {
        if self.cartridge.cpu_window(addr) || self.cartridge.ppu_window(addr) {
            self.cartridge.read_value(addr)
        } else {
            self.memory_value(addr)
        }
    }

    /// The PPU after writing `data` on its bus at `addr`.
    pub open spec fn bus_written(&self, addr: u16, data: u8) -> PpuView {
        if self.cartridge.cpu_window(addr) || self.cartridge.ppu_window(addr) {
            PpuView { cartridge: self.cartridge.written(addr, data), ..*self }
        } else {
            self.memory_written(addr, data)
        }
    }

    pub open spec fn in_register_window(&self, addr: u16) -> bool {
        self.memory_bounds.0 <= addr <= self.memory_bounds.1
    }

    /// A CPU read of the register at `addr` is defined: the scroll and address
    /// registers cannot be read, and a data read needs the VRAM address on the
    /// PPU bus.
    pub open spec fn register_readable(&self, addr: u16) -> bool {
        let reg = addr & 0x0007;
        &&& reg != 5
        &&& reg != 6
        &&& reg == 7 ==> self.bus_accessible(self.vram)
    }

    /// A CPU write of the register at `addr` is defined: a data write needs
    /// the VRAM address on the PPU bus.
    pub open spec fn register_writable(&self, addr: u16) -> bool {
        (addr & 0x0007) == 7 ==> self.bus_accessible(self.vram)
    }

    /// A read of the status register: its 3 flags over the 5 low bits of the
    /// read buffer; the read clears the vertical-blank flag and resets the
    /// address latch.
    pub open spec fn status_read(&self) -> (u8, PpuView) {
        (
            ((self.status & 0xE0) + (self.ppu_data_read_buffer & 0x1F)) as u8,
            PpuView {
                status: with_bit8(self.status, 7, 0),
                writing_high_byte_of_addr: true,
                ..*self
            },
        )
    }

    /// The VRAM address after an access of the data register.
    pub open spec fn next_vram(&self) -> u16 {
        ((self.vram + vram_increment(self.controller)) as u16) & 0x3FFF
    }

    /// A read of the data register: reads are delayed through the read
    /// buffer, except from the palette, which answers at once; the VRAM
    /// address moves on.
    pub open spec fn data_read(&self) -> (u8, PpuView) {
        let v = self.bus_value(self.vram);
        if self.in_palette_window(self.vram) {
            (v, PpuView { ppu_data_read_buffer: v, vram: self.next_vram(), ..*self })
        } else {
            (
                self.ppu_data_read_buffer,
                PpuView { ppu_data_read_buffer: v, vram: self.next_vram(), ..*self },
            )
        }
    }

    /// The byte that a CPU read of the register at `addr` answers, and the
    /// PPU after it.
    pub open spec fn register_read(&self, addr: u16) -> (u8, PpuView) {
        let reg = addr & 0x0007;
        if reg == 0 {
            (self.controller, *self)
        } else if reg == 1 {
            (self.mask, *self)
        } else if reg == 2 {
            self.status_read()
        } else if reg == 3 {
            (self.oam_data_addr, *self)
        } else if reg == 4 {
            (oam_value(self.oam, self.oam_data_addr), *self)
        } else {
            self.data_read()
        }
    }

    /// A write of the control register; its name-table bits go to the
    /// temporary VRAM address as well.
    pub open spec fn control_written(&self, data: u8) -> PpuView {
        PpuView {
            controller: data,
            temp_vram: with_bit16(with_bit16(self.temp_vram, 10, bit8(data, 0)), 11, bit8(data, 1)),
            ..*self
        }
    }

    /// A write of the OAM data register: the byte goes to OAM at the OAM
    /// address, which moves on.
    pub open spec fn oam_data_written(&self, data: u8) -> PpuView {
        PpuView {
            oam: oam_written(self.oam, self.oam_data_addr, data),
            oam_data_addr: vstd::wrapping::u8_specs::wrapping_add(self.oam_data_addr, 1),
            ..*self
        }
    }

    /// A write of the scroll register: x first (fine x, then coarse x into the
    /// temporary address), then y (fine y and coarse y).
    pub open spec fn scroll_written(&self, data: u8) -> PpuView {
        if self.writing_high_byte_of_addr {
            PpuView {
                fine_x: data & 0x07,
                temp_vram: (self.temp_vram & !0x001Fu16) | (((data >> 3u8) & 0x1F) as u16),
                writing_high_byte_of_addr: false,
                ..*self
            }
        } else {
            PpuView {
                temp_vram: (((self.temp_vram & !0x7000u16) | (((data & 0x07) as u16) << 12u16))
                    & !0x03E0u16) | ((((data >> 3u8) & 0x1F) as u16) << 5u16),
                writing_high_byte_of_addr: true,
                ..*self
            }
        }
    }

    /// A write of the address register: the high 6 bits first, then the low
    /// byte, which also copies the temporary address into the VRAM address.
    pub open spec fn address_written(&self, data: u8) -> PpuView {
        if self.writing_high_byte_of_addr {
            PpuView {
                temp_vram: ((self.temp_vram & 0x00FF) + (((data & 0x3F) as u16) << 8u16)) as u16,
                writing_high_byte_of_addr: false,
                ..*self
            }
        } else {
            let t = ((self.temp_vram & 0xFF00) + (data as u16)) as u16;
            PpuView { temp_vram: t, vram: t, writing_high_byte_of_addr: true, ..*self }
        }
    }

    /// A write of the data register: the byte goes on the PPU bus at the VRAM
    /// address, which moves on.
    pub open spec fn data_written(&self, data: u8) -> PpuView {
        PpuView { vram: self.next_vram(), ..self.bus_written(self.vram, data) }
    }

    /// The PPU after a CPU write of `data` to the register at `addr`.
    pub open spec fn register_written(&self, addr: u16, data: u8) -> PpuView {
        let reg = addr & 0x0007;
        if reg == 0 {
            self.control_written(data)
        } else if reg == 1 {
            PpuView { mask: data, ..*self }
        } else if reg == 2 {
            *self
        } else if reg == 3 {
            PpuView { oam_data_addr: data, ..*self }
        } else if reg == 4 {
            self.oam_data_written(data)
        } else if reg == 5 {
            self.scroll_written(data)
        } else if reg == 6 {
            self.address_written(data)
        } else {
            self.data_written(data)
        }
    }
}

impl Ben2C02 {
    pub open spec fn wf(&self) -> bool {
        self@.wf()
    }

    /// A PPU at power-on over `cartridge`: every register, memory and
    /// buffer cleared, at scanline 0, cycle 0.
    pub fn new(cartridge: Cartridge) -> (ppu: Ben2C02)
        requires
            cartridge@.wf(),
        ensures
            ppu.wf(),
            ppu@ == power_on_ppu(cartridge@),
    {
        let ppu = Ben2C02 {
            memory_bounds: PPU_MEMORY_BOUNDS,
            cartridge,
            scan_line: 0,
            cycle: 0,
            frame_render_complete: false,
            odd_frame: false,
            trigger_cpu_nmi: false,
            controller_reg: ControllerRegister::new(),
            mask_reg: MaskRegister::new(),
            status_reg: StatusRegister::new(),
            writing_high_byte_of_addr: true,
            ppu_data_read_buffer: 0,
            oam_data_addr: 0,
            vram_reg: VramRegister::new(),
            temp_vram_reg: VramRegister::new(),
            fine_x: 0,
            bg_next_tile_id: 0,
            bg_next_tile_attribute: 0,
            bg_next_tile_lsb: 0,
            bg_next_tile_msb: 0,
            bg_shifter_pattern_lo: 0,
            bg_shifter_pattern_hi: 0,
            bg_shifter_attrib_lo: 0,
            bg_shifter_attrib_hi: 0,
            sprites_on_curr_scanline: Vec::new(),
            sprites_on_curr_scanline_pattern_lsb: Vec::new(),
            sprites_on_curr_scanline_pattern_msb: Vec::new(),
            sprite_zero_hit_possible: false,
            sprite_zero_being_rendered: false,
            pattern_tables: [[0;4096];2],
            pattern_tables_mem_bounds: (0x0000, 0x1FFF),
            name_tables: [[0;1024];2],
            name_tables_mem_bounds: (0x2000, 0x3EFF),
            palette: [0;32],
            palette_mem_bounds: (0x3F00, 0x3FFF),
            oam_memory: [SpriteObj { y: 0, tile_id: 0, attributes: 0, x: 0 };64],
            screen_vis_buffer: vec![Color::new(0, 0, 0); SCREEN_WIDTH * SCREEN_HEIGHT],
            pattern_tables_vis_buffer: vec![Color::new(0, 0, 0); 2 * PATTERN_TABLE_VIS_SIDE * PATTERN_TABLE_VIS_SIDE],
            palette_vis_bufer: create_palette_vis_buffer(),
        };
        assert(ppu@.pattern_tables =~~= power_on_ppu(cartridge@).pattern_tables);
        assert(ppu@.name_tables =~~= power_on_ppu(cartridge@).name_tables);
        assert(ppu@ =~= power_on_ppu(cartridge@));
        ppu
    }

    fn in_pattern_table_memory_bounds(&self, addr: u16) -> (r: bool)
        ensures
            r == self@.in_pattern_window(addr),
    {
        addr >= self.pattern_tables_mem_bounds.0 && addr <= self.pattern_tables_mem_bounds.1
    }

    fn in_name_table_memory_bounds(&self, addr: u16) -> (r: bool)
        ensures
            r == self@.in_name_window(addr),
    {
        addr >= self.name_tables_mem_bounds.0 && addr <= self.name_tables_mem_bounds.1
    }

    fn in_palette_memory_bounds(&self, addr: u16) -> (r: bool)
        ensures
            r == self@.in_palette_window(addr),
    {
        addr >= self.palette_mem_bounds.0 && addr <= self.palette_mem_bounds.1
    }

    fn address_to_palette_index(&self, addr: u16) -> (r: usize)
        ensures
            r == palette_index(addr),
            r < 32,
    {
        // The entire palette (0x3F00-0x3F1F) is mirrored across 0x3F00-0x3FFF.
        let result = (addr & 0xFF) % 32;
        // Entries 0x10, 0x14, 0x18 and 0x1C mirror 0x00, 0x04, 0x08 and 0x0C.
        match result {
            0x10 => 0x00,
            0x14 => 0x04,
            0x18 => 0x08,
            0x1C => 0x0C,
            _ => result as usize,
        }
    }

    fn nametable_location(&self, addr: u16) -> (r: (usize, usize))
        requires
            self@.memory_wf(),
            0x2000 <= addr <= 0x3EFF,
        ensures
            r.0 == nametable_location(self@.cartridge.mirroring_mode, addr).0,
            r.1 == nametable_location(self@.cartridge.mirroring_mode, addr).1,
            r.0 < 2,
            r.1 < 1024,
    {
        // Addresses 0x3000-0x3EFF mirror addresses 0x2000-0x2EFF.
        let a = if addr >= 0x3000 {
            addr - 0x1000
        } else {
            addr
        };
        let horizontal = match self.cartridge.mirroring_mode {
            MirroringMode::Horizontal => true,
            _ => false,
        };
        let table: usize = if a <= 0x23FF {
            0
        } else if a <= 0x27FF {
            if horizontal {
                0
            } else {
                1
            }
        } else if a <= 0x2BFF {
            if horizontal {
                1
            } else {
                0
            }
        } else {
            1
        };
        proof {
            lemma_ppu_bit_facts(a, 0, 0, 0, 0, 0, 0, 0);
        }
        (table, (a & 0x3FF) as usize)
    }

    /// Writes a byte into the PPU's own memory (pattern tables, name tables or
    /// palette); addresses from 0x4000 up are refused.
    pub fn write_to_ppu_memory(&mut self, addr: u16, data: u8) -> (r: Result<(), String>)
        requires
            old(self).wf(),
        ensures
            r is Ok <==> addr < 0x4000,
            final(self)@ == old(self)@.memory_written(addr, data),
            final(self).wf(),
    {
        if self.in_pattern_table_memory_bounds(addr) {
            let t: usize = if (addr & 0x1000) > 0 {
                1
            } else {
                0
            };
            proof {
                lemma_ppu_bit_facts(addr, 0, 0, 0, 0, 0, 0, 0);
            }
            self.pattern_tables[t][(addr & 0x0FFF) as usize] = data;
            assert(self@.pattern_tables =~~= old(self)@.memory_written(addr, data).pattern_tables);
            assert(self@ =~= old(self)@.memory_written(addr, data));
            Ok(())
        } else if self.in_name_table_memory_bounds(addr) {
            let (t, i) = self.nametable_location(addr);
            self.name_tables[t][i] = data;
            assert(self@.name_tables =~~= old(self)@.memory_written(addr, data).name_tables);
            assert(self@ =~= old(self)@.memory_written(addr, data));
            Ok(())
        } else if self.in_palette_memory_bounds(addr) {
            // 0x3F00-0x3F1F, mirrored across 0x3F00-0x3FFF
            let i = self.address_to_palette_index(addr);
            self.palette[i] = data;
            assert(self@ =~= old(self)@.memory_written(addr, data));
            Ok(())
        } else {
            Err(String::from_str("Tried writing to PPU memory, but the address is outside the pattern table, name table and palette windows"))
        }
    }

    /// Reads a byte of the PPU's own memory; addresses from 0x4000 up are
    /// refused.
    pub fn read_from_ppu_memory(&self, addr: u16) -> (r: Result<u8, String>)
        requires
            self@.memory_wf(),
        ensures
            r is Ok <==> addr < 0x4000,
            r is Ok ==> r->Ok_0 == self@.memory_value(addr),
    {
        if self.in_pattern_table_memory_bounds(addr) {
            let t: usize = if (addr & 0x1000) > 0 {
                1
            } else {
                0
            };
            proof {
                lemma_ppu_bit_facts(addr, 0, 0, 0, 0, 0, 0, 0);
            }
            Ok(self.pattern_tables[t][(addr & 0x0FFF) as usize])
        } else if self.in_name_table_memory_bounds(addr) {
            let (t, i) = self.nametable_location(addr);
            Ok(self.name_tables[t][i])
        } else if self.in_palette_memory_bounds(addr) {
            Ok(self.palette[self.address_to_palette_index(addr)])
        } else {
            Err(String::from_str("Tried reading from PPU memory, but the address is outside the pattern table, name table and palette windows"))
        }
    }

    /// Reads the PPU bus: the cartridge answers first, the PPU's own memory
    /// when the cartridge does not claim the address.
    pub(crate) fn read_from_ppu_bus(&mut self, addr: u16) -> (r: Result<u8, String>)
        requires
            old(self)@.memory_wf(),
            old(self)@.bus_accessible(addr),
        ensures
            *final(self) == *old(self),
            r == Ok::<u8, String>(old(self)@.bus_value(addr)),
    {
        let read_from_cartridge = self.cartridge.read(addr);
        match read_from_cartridge {
            Ok(retrieved_data) => Ok(retrieved_data),
            Err(_message) => {
                let m = self.read_from_ppu_memory(addr);
                match m {
                    Ok(v) => Ok(v),
                    Err(_) => {
                        assert(false);
                        Ok(0)
                    },
                }
            },
        }
    }

    /// Writes the PPU bus: into the cartridge where it claims the address, into
    /// the PPU's own memory otherwise.
    pub(crate) fn write_to_ppu_bus(&mut self, addr: u16, data: u8) -> (r: Result<(), String>)
        requires
            old(self).wf(),
            old(self)@.bus_accessible(addr),
        ensures
            r is Ok,
            final(self)@ == old(self)@.bus_written(addr, data),
            final(self).wf(),
    {
        let write_to_cartridge = self.cartridge.write(addr, data);
        match write_to_cartridge {
            Ok(()) => {
                assert(self@ =~= old(self)@.bus_written(addr, data));
                Ok(())
            },
            Err(_message) => {
                assert(self@ == old(self)@);
                let m = self.write_to_ppu_memory(addr, data);
                match m {
                    Ok(()) => Ok(()),
                    Err(_) => {
                        assert(false);
                        Ok(())
                    },
                }
            },
        }
    }

    /// Reads object attribute memory: entry `addr / 4`, field `addr % 4`.
    pub fn read_from_oam_memory(&self, addr: u8) -> (r: u8)
        requires
            self.wf(),
        ensures
            r == oam_value(self@.oam, addr),
    {
        let index = (addr / 4) as usize;
        match addr % 4 {
            0 => self.oam_memory[index].y,
            1 => self.oam_memory[index].tile_id,
            2 => self.oam_memory[index].attributes,
            _ => self.oam_memory[index].x,
        }
    }

    /// Writes object attribute memory: entry `addr / 4`, field `addr % 4`.
    pub fn write_to_oam_memory(&mut self, addr: u8, data: u8)
        requires
            old(self).wf(),
        ensures
            final(self)@ == (PpuView { oam: oam_written(old(self)@.oam, addr, data), ..old(self)@ }),
            final(self).wf(),
    {
        let index = (addr / 4) as usize;
        match addr % 4 {
            0 => {
                self.oam_memory[index].y = data;
            },
            1 => {
                self.oam_memory[index].tile_id = data;
            },
            2 => {
                self.oam_memory[index].attributes = data;
            },
            _ => {
                self.oam_memory[index].x = data;
            },
        }
        assert(self@.oam =~= oam_written(old(self)@.oam, addr, data));
        assert(self@ =~= (PpuView { oam: oam_written(old(self)@.oam, addr, data), ..old(self)@ }));
    }
}

impl Ben2C02 {
    fn write_control(&mut self, data: u8)
        requires
            old(self).wf(),
        ensures
            final(self)@ == old(self)@.control_written(data),
            final(self).wf(),
    {
        self.controller_reg.flags = data;
        let nx = self.controller_reg.get_nametable_x();
        self.temp_vram_reg.set_nametable_x(nx);
        let ny = self.controller_reg.get_nametable_y();
        self.temp_vram_reg.set_nametable_y(ny);
        let ghost t0 = old(self).temp_vram_reg.flags;
        let ghost t2 = self.temp_vram_reg.flags;
        proof {
            lemma_ppu_bit_facts(0, t0, 0, 0, nx, ny, 0, 0);
        }
        assert(self@ =~= old(self)@.control_written(data));
    }

    fn write_oam_data(&mut self, data: u8)
        requires
            old(self).wf(),
        ensures
            final(self)@ == old(self)@.oam_data_written(data),
            final(self).wf(),
    {
        self.write_to_oam_memory(self.oam_data_addr, data);
        self.oam_data_addr = self.oam_data_addr.wrapping_add(1);
        assert(self@ =~= old(self)@.oam_data_written(data));
    }

    fn write_scroll(&mut self, data: u8)
        requires
            old(self).wf(),
        ensures
            final(self)@ == old(self)@.scroll_written(data),
            final(self).wf(),
    {
        let d = data as u16;
        let low3 = bitwise_utils::get_bits_16(d, 0, 2);
        let high5 = bitwise_utils::get_bits_16(d, 3, 7);
        proof {
            lemma_ppu_bit_facts(0, self.temp_vram_reg.flags, data, 0, 0, 0, low3, high5);
        }
        let ghost t0 = self.temp_vram_reg.flags;
        if self.writing_high_byte_of_addr {
            self.fine_x = low3 as u8;
            self.temp_vram_reg.set_coarse_x(high5 as u8);
            let ghost t1 = self.temp_vram_reg.flags;

        } else {
            self.temp_vram_reg.set_fine_y(low3 as u8);
            self.temp_vram_reg.set_coarse_y(high5 as u8);
            let ghost t2 = self.temp_vram_reg.flags;

        }
        self.writing_high_byte_of_addr = !self.writing_high_byte_of_addr;
        assert(self@ =~= old(self)@.scroll_written(data));
    }

    fn write_address(&mut self, data: u8)
        requires
            old(self).wf(),
        ensures
            final(self)@ == old(self)@.address_written(data),
            final(self).wf(),
    {
        let t0 = self.temp_vram_reg.flags;
        if self.writing_high_byte_of_addr {
            let t1 = t0 & 0xFF;
            let hi = ((data & 0x3F) as u16) << 8u16;
            proof {
                lemma_ppu_bit_facts(0, t0, data, 0, 0, 0, 0, 0);
            }
            self.temp_vram_reg.flags = t1 + hi;
        } else {
            let t1 = t0 & 0xFF00;
            proof {
                lemma_ppu_bit_facts(0, t0, data, 0, 0, 0, 0, 0);
            }
            self.temp_vram_reg.flags = t1 + (data as u16);
            self.vram_reg = self.temp_vram_reg;
        }
        self.writing_high_byte_of_addr = !self.writing_high_byte_of_addr;
        assert(self@ =~= old(self)@.address_written(data));
    }

    /// The VRAM address increment: 32 in increment mode, else 1.
    fn vram_increment(&self) -> (r: u16)
        ensures
            r == vram_increment(self.controller_reg.flags),
    {
        if self.controller_reg.get_increment_mode() != 0 {
            32
        } else {
            1
        }
    }

    fn write_data(&mut self, data: u8)
        requires
            old(self).wf(),
            old(self)@.bus_accessible(old(self)@.vram),
        ensures
            final(self)@ == old(self)@.data_written(data),
            final(self).wf(),
    {
        let v = self.vram_reg.flags;
        let _ = self.write_to_ppu_bus(v, data);
        let increment_amount = self.vram_increment();
        let nv = (v + increment_amount) & 0x3FFF;
        proof {
            lemma_ppu_bit_facts((v + increment_amount) as u16, 0, 0, 0, 0, 0, 0, 0);
        }
        self.vram_reg.flags = nv;
        assert(self@ =~= old(self)@.data_written(data));
    }

    fn read_status(&mut self) -> (r: u8)
        requires
            old(self).wf(),
        ensures
            r == old(self)@.status_read().0,
            final(self)@ == old(self)@.status_read().1,
            final(self).wf(),
    {
        let flags = self.status_reg.flags;
        let buffer = self.ppu_data_read_buffer;
        let st = flags & 0xE0;
        let bf = buffer & 0x1F;
        proof {
            lemma_ppu_bit_facts(0, 0, flags, buffer, 0, 0, 0, 0);
        }
        let result = st + bf;
        self.status_reg.set_vertical_blank(0);
        self.writing_high_byte_of_addr = true;
        assert(self@ =~= old(self)@.status_read().1);
        result
    }

    fn read_data(&mut self) -> (r: u8)
        requires
            old(self).wf(),
            old(self)@.bus_accessible(old(self)@.vram),
        ensures
            r == old(self)@.data_read().0,
            final(self)@ == old(self)@.data_read().1,
            final(self).wf(),
    {
        let v = self.vram_reg.flags;
        let rr = self.read_from_ppu_bus(v);
        let read_result = match rr {
            Ok(x) => x,
            Err(_) => 0,
        };
        let return_value: u8;
        if self.in_palette_memory_bounds(v) {
            self.ppu_data_read_buffer = read_result;
            return_value = read_result;
        } else {
            return_value = self.ppu_data_read_buffer;
            self.ppu_data_read_buffer = read_result;
        }
        let increment_amount = self.vram_increment();
        let nv = (v + increment_amount) & 0x3FFF;
        proof {
            lemma_ppu_bit_facts((v + increment_amount) as u16, 0, 0, 0, 0, 0, 0, 0);
        }
        self.vram_reg.flags = nv;
        assert(self@ =~= old(self)@.data_read().1);
        return_value
    }
}

impl Device for Ben2C02 {
    open spec fn inv(&self) -> bool {
        self@.wf()
    }

    open spec fn readable(&self, addr: u16) -> bool {
        self@.in_register_window(addr) ==> self@.register_readable(addr)
    }

    open spec fn writable(&self, addr: u16) -> bool {
        self@.in_register_window(addr) ==> self@.register_writable(addr)
    }

    fn in_memory_bounds(&self, addr: u16) -> (r: bool)
        ensures
            r == self@.in_register_window(addr),
    {
        addr >= self.memory_bounds.0 && addr <= self.memory_bounds.1
    }

    /// A CPU write of one of the eight registers (mirrored every 8 bytes).
    fn write(&mut self, addr: u16, data: u8) -> (r: Result<(), String>)
        ensures
            r is Ok <==> old(self)@.in_register_window(addr),
            final(self)@ == if old(self)@.in_register_window(addr) {
                old(self)@.register_written(addr, data)
            } else {
                old(self)@
            },
    {
        if !self.in_memory_bounds(addr) {
            return Err(String::from_str("Tried to write outside PPU bounds!"));
        }
        let mirrored_addr = addr & 0x0007;
        proof {
            lemma_ppu_bit_facts(addr, 0, 0, 0, 0, 0, 0, 0);
        }
        if mirrored_addr == 0 {
            self.write_control(data);
        } else if mirrored_addr == 1 {
            self.mask_reg.flags = data;
            assert(self@ =~= old(self)@.register_written(addr, data));
        } else if mirrored_addr == 2 {
            // The status register is not writable.
        } else if mirrored_addr == 3 {
            self.oam_data_addr = data;
            assert(self@ =~= old(self)@.register_written(addr, data));
        } else if mirrored_addr == 4 {
            self.write_oam_data(data);
        } else if mirrored_addr == 5 {
            self.write_scroll(data);
        } else if mirrored_addr == 6 {
            self.write_address(data);
        } else {
            self.write_data(data);
        }
        Ok(())
    }

    /// A CPU read of one of the eight registers (mirrored every 8 bytes).
    fn read(&mut self, addr: u16) -> (r: Result<u8, String>)
        ensures
            r is Ok <==> old(self)@.in_register_window(addr),
            old(self)@.in_register_window(addr) ==> r == Ok::<u8, String>(
                old(self)@.register_read(addr).0,
            ) && final(self)@ == old(self)@.register_read(addr).1,
            !old(self)@.in_register_window(addr) ==> final(self)@ == old(self)@,
    {
        if !self.in_memory_bounds(addr) {
            return Err(String::from_str("Tried to read outside PPU bounds!"));
        }
        let mirrored_addr = addr & 0x0007;
        proof {
            lemma_ppu_bit_facts(addr, 0, 0, 0, 0, 0, 0, 0);
        }
        if mirrored_addr == 0 {
            Ok(self.controller_reg.flags)
        } else if mirrored_addr == 1 {
            Ok(self.mask_reg.flags)
        } else if mirrored_addr == 2 {
            Ok(self.read_status())
        } else if mirrored_addr == 3 {
            Ok(self.oam_data_addr)
        } else if mirrored_addr == 4 {
            Ok(self.read_from_oam_memory(self.oam_data_addr))
        } else if mirrored_addr == 5 || mirrored_addr == 6 {
            // The scroll and address registers are write-only; readable() rules this out.
            Err(String::from_str("Tried to read from a write-only PPU register!"))
        } else {
            Ok(self.read_data())
        }
    }
}

} // verus!
