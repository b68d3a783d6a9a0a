use vstd::prelude::*;
use crate::graphics::Color;
use crate::utils::bitwise_utils;
use crate::utils::bitwise_utils::{bit8, with_bit8, with_bit16};
use super::{Ben2C02, PpuView, SpriteObj, SCREEN_WIDTH, PATTERN_TABLE_VIS_SIDE};
use super::registers::{coarse_x_of, coarse_y_of, nametable_x_of, nametable_y_of, fine_y_of};

verus! {

/// `v` with its coarse x field set to `c` (below 32).
pub open spec fn set_coarse_x_of(v: u16, c: u16) -> u16 {
    (v & !0x001Fu16) | c
}

/// `v` with its coarse y field set to `c` (below 32).
pub open spec fn set_coarse_y_of(v: u16, c: u16) -> u16 {
    (v & !0x03E0u16) | (c << 5u16)
}

/// `v` with its fine y field set to `f` (below 8).
pub open spec fn set_fine_y_of(v: u16, f: u16) -> u16 {
    (v & !0x7000u16) | (f << 12u16)
}

/// 1 for 0 and 0 for 1: the other name table.
pub open spec fn flipped(b: u16) -> u8 {
    if b == 0 {
        1
    } else {
        0
    }
}

/// Moving the VRAM address one tile right: past column 31 the coarse x wraps
/// to 0 and the horizontal name table switches.
pub open spec fn scroll_x_incremented(v: u16) -> u16 {
    if coarse_x_of(v) == 31 {
        set_coarse_x_of(with_bit16(v, 10, flipped(nametable_x_of(v))), 0)
    } else {
        set_coarse_x_of(v, (coarse_x_of(v) + 1) as u16)
    }
}

/// Moving the VRAM address one pixel row down: fine y counts to 7, then the
/// coarse y moves on; past row 29 (the last row of tiles) it wraps to 0 and
/// the vertical name table switches, and rows 30 and 31 (attribute memory)
/// wrap to 0 without a switch.
pub open spec fn scroll_y_incremented(v: u16) -> u16 {
    if fine_y_of(v) < 7 {
        set_fine_y_of(v, (fine_y_of(v) + 1) as u16)
    } else {
        let v1 = set_fine_y_of(v, 0);
        if coarse_y_of(v1) == 29 {
            set_coarse_y_of(with_bit16(v1, 11, flipped(nametable_y_of(v1))), 0)
        } else if coarse_y_of(v1) == 31 {
            set_coarse_y_of(v1, 0)
        } else {
            set_coarse_y_of(v1, (coarse_y_of(v1) + 1) as u16)
        }
    }
}

/// The horizontal parts (name table x, coarse x) of `t` copied into `v`.
pub open spec fn transferred_x(v: u16, t: u16) -> u16 {
    set_coarse_x_of(with_bit16(v, 10, nametable_x_of(t) as u8), coarse_x_of(t))
}

/// The vertical parts (name table y, coarse y, fine y) of `t` copied into `v`.
pub open spec fn transferred_y(v: u16, t: u16) -> u16 {
    set_fine_y_of(
        set_coarse_y_of(with_bit16(v, 11, nametable_y_of(t) as u8), coarse_y_of(t)),
        fine_y_of(t),
    )
}

proof fn lemma_loopy_bounds(v: u16, t: u16)
    by (bit_vector)
    requires
        v < 0x8000,
        t < 0x8000,
    ensures
        scroll_x_incremented(v) < 0x8000,
        scroll_y_incremented(v) < 0x8000,
        transferred_x(v, t) < 0x8000,
        transferred_y(v, t) < 0x8000,
{
}

/// The bits of a byte in reverse order.
pub open spec fn reversed8(x: u8) -> u8 {
    ((x & 0x01) << 7u8) | ((x & 0x02) << 5u8) | ((x & 0x04) << 3u8) | ((x & 0x08) << 1u8) | ((x
        & 0x10) >> 1u8) | ((x & 0x20) >> 3u8) | ((x & 0x40) >> 5u8) | ((x & 0x80) >> 7u8)
}

/// Reverses the order of the bits of a byte.
pub fn reverse_bits_u8(x: u8) -> (r: u8)
    ensures
        r == reversed8(x),
{
    ((x & 0x01) << 7) | ((x & 0x02) << 5) | ((x & 0x04) << 3) | ((x & 0x08) << 1) | ((x & 0x10) >> 1)
        | ((x & 0x20) >> 3) | ((x & 0x40) >> 5) | ((x & 0x80) >> 7)
}

/// Facts on the bit fields of the background and sprite fetches: the fetch
/// addresses stay on the PPU's own memory, and two one-bit planes make a
/// pixel value from 0 to 3.
proof fn lemma_fetch_bit_facts(
    v: u16,
    ny: u16,
    nx: u16,
    cy: u16,
    cx: u16,
    pb: u16,
    t: u8,
    p0: u8,
    p1: u8,
    attr: u8,
)
    by (bit_vector)
    ensures
        0x2000 | (v & 0x0FFF) < 0x4000,
        ny <= 1 && nx <= 1 && cy < 32 && cx < 32 ==> 0x23C0 | (ny << 11u16) | (nx << 10u16) | ((cy
            >> 2u16) << 3u16) | (cx >> 2u16) < 0x4000,
        pb <= 1 ==> pb << 12u16 <= 4096,
        t & 0xFE <= 254,
        t & 0x01 <= 1,
        p0 <= 1 && p1 <= 1 ==> (p1 << 1u8) | p0 <= 3 && (p1 << 1u8) <= 2,
        attr & 0x03 <= 3,
        0u8 & 0x80u8 == 0,
{
}

/// Bit `i` of the reversed byte is bit `7 - i` of the byte.
pub proof fn lemma_reversed8(x: u8, i: u8)
    requires
        i < 8,
    ensures
        bit8(reversed8(x), i) == bit8(x, (7 - i) as u8),
{
    assert(bit8(reversed8(x), i) == bit8(x, (7 - i) as u8)) by (bit_vector)
        requires
            i < 8,
    ;
}

/// Remainder of a division by 8 that keeps the sign of `d`, like `%` on
/// machine integers.
pub open spec fn rem8(d: int) -> int {
    if d >= 0 {
        d % 8
    } else {
        -((-d) % 8)
    }
}

/// Whether a sprite covers scanline `scan`: tall sprites (8x16) cover 16 rows.
pub open spec fn sprite_on_line(scan: i16, s: SpriteObj, tall: bool) -> bool {
    let d = scan - s.y;
    0 <= d < if tall {
        16int
    } else {
        8int
    }
}

/// The sprites among the first `n` entries of OAM that cover scanline
/// `scan`, in OAM order, at most 8 of them.
pub open spec fn sprites_on_line(oam: Seq<SpriteObj>, scan: i16, tall: bool, n: nat) -> Seq<
    SpriteObj,
>
    decreases n,
{
    if n == 0 {
        Seq::empty()
    } else {
        let prev = sprites_on_line(oam, scan, tall, (n - 1) as nat);
        if sprite_on_line(scan, oam[n - 1], tall) && prev.len() < 8 {
            prev.push(oam[n - 1])
        } else {
            prev
        }
    }
}

/// How many of the first `n` entries of OAM cover scanline `scan`.
pub open spec fn sprites_covering_line(oam: Seq<SpriteObj>, scan: i16, tall: bool, n: nat) -> nat
    decreases n,
{
    if n == 0 {
        0
    } else {
        sprites_covering_line(oam, scan, tall, (n - 1) as nat) + if sprite_on_line(
            scan,
            oam[n - 1],
            tall,
        ) {
            1nat
        } else {
            0nat
        }
    }
}

proof fn lemma_sprites_on_line_len(oam: Seq<SpriteObj>, scan: i16, tall: bool, n: nat)
    ensures
        sprites_on_line(oam, scan, tall, n).len() <= 8,
    decreases n,
{
    if n > 0 {
        lemma_sprites_on_line_len(oam, scan, tall, (n - 1) as nat);
    }
}

/// The address of the pattern row (low plane) that a sprite shows on scanline
/// `scan`. 8x8 sprites use the table that the controller selects; 8x16 sprites
/// take the table from bit 0 of their tile number and use two consecutive
/// tiles. Attribute bit 7 flips the sprite vertically. Sums wrap at 16 bits.
pub open spec fn sprite_row_address(s: SpriteObj, scan: i16, controller: u8) -> u16 {
    let diff = scan - s.y;
    if bit8(controller, 5) == 0 {
        let start: u16 = if bit8(controller, 3) != 0 {
            4096
        } else {
            0
        };
        let row: u16 = if s.attributes & 0x80 != 0 {
            (7 - diff) as i16 as u16
        } else {
            diff as i16 as u16
        };
        vstd::wrapping::u16_specs::wrapping_add((start + (s.tile_id as u16) * 16) as u16, row)
    } else {
        let start: u16 = (((s.tile_id & 0x01) as u16) * 4096) as u16;
        let top: u16 = (((s.tile_id & 0xFE) as u16) * 16) as u16;
        let bottom: u16 = ((((s.tile_id & 0xFE) + 1) as u16) * 16) as u16;
        let (tile_base, row) = if s.attributes & 0x80 != 0 {
            (
                if diff < 8 {
                    bottom
                } else {
                    top
                },
                (7 - rem8(diff as int)) as i16 as u16,
            )
        } else {
            (
                if diff < 8 {
                    top
                } else {
                    bottom
                },
                rem8(diff as int) as i16 as u16,
            )
        };
        vstd::wrapping::u16_specs::wrapping_add((start + tile_base) as u16, row)
    }
}

/// The pattern byte that a sprite row shows: attribute bit 6 flips it
/// horizontally.
pub open spec fn sprite_pattern(s: SpriteObj, b: u8) -> u8 {
    if s.attributes & 0x40 != 0 {
        reversed8(b)
    } else {
        b
    }
}

impl PpuView {
    pub open spec fn rendering_enabled(&self) -> bool {
        bit8(self.mask, 3) != 0 || bit8(self.mask, 4) != 0
    }

    pub open spec fn with_vram(self, v: u16) -> PpuView {
        PpuView { vram: v, ..self }
    }

    /// The background shift registers with the next tile's pattern bytes and
    /// palette bits in their low byte.
    pub open spec fn shifters_loaded(self) -> PpuView {
        PpuView {
            bg_shifter_pattern_lo: (self.bg_shifter_pattern_lo & 0xFF00) | (self.bg_next_tile_lsb as u16),
            bg_shifter_pattern_hi: (self.bg_shifter_pattern_hi & 0xFF00) | (self.bg_next_tile_msb as u16),
            bg_shifter_attrib_lo: (self.bg_shifter_attrib_lo & 0xFF00) | (if self.bg_next_tile_attribute
                & 0x01 != 0 {
                0xFFu16
            } else {
                0u16
            }),
            bg_shifter_attrib_hi: (self.bg_shifter_attrib_hi & 0xFF00) | (if self.bg_next_tile_attribute
                & 0x02 != 0 {
                0xFFu16
            } else {
                0u16
            }),
            ..self
        }
    }

    /// The background shift registers moved one pixel on.
    pub open spec fn shifters_shifted(self) -> PpuView {
        PpuView {
            bg_shifter_pattern_lo: self.bg_shifter_pattern_lo << 1u16,
            bg_shifter_pattern_hi: self.bg_shifter_pattern_hi << 1u16,
            bg_shifter_attrib_lo: self.bg_shifter_attrib_lo << 1u16,
            bg_shifter_attrib_hi: self.bg_shifter_attrib_hi << 1u16,
            ..self
        }
    }

    /// Whether sprite `i` of the scanline is being drawn at the previous
    /// cycle's column.
    pub open spec fn sprite_active_before(self, i: int) -> bool {
        let x = self.sprites[i].x as int;
        x <= self.cycle - 1 < x + 8
    }

    /// The pattern rows of the sprites under the previous column move one
    /// pixel on.
    pub open spec fn sprite_rows_shifted(self) -> PpuView {
        PpuView {
            sprite_lsb: Seq::new(
                self.sprite_lsb.len(),
                |i: int|
                    if self.sprite_active_before(i) {
                        self.sprite_lsb[i] << 1u8
                    } else {
                        self.sprite_lsb[i]
                    },
            ),
            sprite_msb: Seq::new(
                self.sprite_msb.len(),
                |i: int|
                    if self.sprite_active_before(i) {
                        self.sprite_msb[i] << 1u8
                    } else {
                        self.sprite_msb[i]
                    },
            ),
            ..self
        }
    }

    /// The address of the attribute byte of the tile at the VRAM address.
    pub open spec fn attribute_address(self) -> u16 {
        0x23C0 | (nametable_y_of(self.vram) << 11u16) | (nametable_x_of(self.vram) << 10u16) | ((
        coarse_y_of(self.vram) >> 2u16) << 3u16) | (coarse_x_of(self.vram) >> 2u16)
    }

    /// The 2-bit palette of the tile at the VRAM address, out of its attribute
    /// byte.
    pub open spec fn tile_palette(self, attribute: u8) -> u8 {
        let a1 = if coarse_y_of(self.vram) & 0x02 != 0 {
            attribute >> 4u8
        } else {
            attribute
        };
        let a2 = if coarse_x_of(self.vram) & 0x02 != 0 {
            a1 >> 2u8
        } else {
            a1
        };
        a2 & 0x03
    }

    /// The address of the next tile's pattern row (low plane).
    pub open spec fn tile_row_address(self) -> u16 {
        (((bit8(self.controller, 4) as u16) << 12u16) + (self.bg_next_tile_id as u16) * 16
            + fine_y_of(self.vram)) as u16
    }

    /// The background fetches of one cycle of a visible scanline, by the
    /// cycle's position within the 8-cycle tile period: tile number, attribute,
    /// pattern low and high planes, and the move to the next tile.
    pub open spec fn background_fetch(self) -> PpuView {
        let phase = (self.cycle - 1) % 8;
        if phase == 0 {
            let s = self.shifters_loaded();
            PpuView { bg_next_tile_id: s.bus_value(0x2000 | (s.vram & 0x0FFF)), ..s }
        } else if phase == 2 {
            PpuView {
                bg_next_tile_attribute: self.tile_palette(self.bus_value(self.attribute_address())),
                ..self
            }
        } else if phase == 4 {
            PpuView { bg_next_tile_lsb: self.bus_value(self.tile_row_address()), ..self }
        } else if phase == 6 {
            PpuView {
                bg_next_tile_msb: self.bus_value((self.tile_row_address() + 8) as u16),
                ..self
            }
        } else if phase == 7 && self.rendering_enabled() {
            self.with_vram(scroll_x_incremented(self.vram))
        } else {
            self
        }
    }

    /// Sprite evaluation at the end of a visible scanline: the sprites that
    /// cover the scanline, at most 8, with the sprite-overflow flag set when
    /// more than 8 cover it.
    pub open spec fn sprites_evaluated(self) -> PpuView {
        let found = sprites_on_line(self.oam, self.scan_line, bit8(self.controller, 5) != 0, 64);
        PpuView {
            sprites: found,
            sprite_lsb: Seq::empty(),
            sprite_msb: Seq::empty(),
            sprite_zero_hit_possible: sprite_on_line(
                self.scan_line,
                self.oam[0],
                bit8(self.controller, 5) != 0,
            ),
            status: if sprites_covering_line(self.oam, self.scan_line, bit8(self.controller, 5) != 0, 64)
                > 8 {
                with_bit8(self.status, 5, 1)
            } else {
                self.status
            },
            ..self
        }
    }

    /// Every pattern row that the sprite fetch reads is on the PPU bus.
    pub open spec fn sprite_fetch_defined(self) -> bool {
        forall|i: int|
            0 <= i < self.sprites.len() ==> {
                let a = sprite_row_address(#[trigger] self.sprites[i], self.scan_line, self.controller);
                self.bus_accessible(a) && self.bus_accessible(
                    vstd::wrapping::u16_specs::wrapping_add(a, 8),
                )
            }
    }

    /// The pattern rows of the scanline's sprites, fetched at its last cycle.
    pub open spec fn sprite_rows_fetched(self) -> PpuView {
        PpuView {
            sprite_lsb: self.sprite_lsb + Seq::new(
                self.sprites.len(),
                |i: int|
                    sprite_pattern(
                        self.sprites[i],
                        self.bus_value(
                            sprite_row_address(self.sprites[i], self.scan_line, self.controller),
                        ),
                    ),
            ),
            sprite_msb: self.sprite_msb + Seq::new(
                self.sprites.len(),
                |i: int|
                    sprite_pattern(
                        self.sprites[i],
                        self.bus_value(
                            vstd::wrapping::u16_specs::wrapping_add(
                                sprite_row_address(self.sprites[i], self.scan_line, self.controller),
                                8,
                            ),
                        ),
                    ),
            ),
            ..self
        }
    }
}

/// The pixel that a sprite row shows at the left edge of its shift register.
pub open spec fn row_bit(rows: Seq<u8>, i: int) -> u8 {
    if 0 <= i < rows.len() && rows[i] & 0x80 != 0 {
        1
    } else {
        0
    }
}

impl PpuView {
    /// The background pixel and its palette under the fine x scroll.
    pub open spec fn background_pixel(self) -> (u8, u8) {
        if bit8(self.mask, 3) != 0 {
            let mux: u16 = 0x8000u16 >> (self.fine_x as u16);
            let p0: u8 = if self.bg_shifter_pattern_lo & mux > 0 {
                1
            } else {
                0
            };
            let p1: u8 = if self.bg_shifter_pattern_hi & mux > 0 {
                1
            } else {
                0
            };
            let a0: u8 = if self.bg_shifter_attrib_lo & mux > 0 {
                1
            } else {
                0
            };
            let a1: u8 = if self.bg_shifter_attrib_hi & mux > 0 {
                1
            } else {
                0
            };
            ((p1 << 1u8) | p0, (a1 << 1u8) | a0)
        } else {
            (0, 0)
        }
    }

    /// Whether sprite `i` of the scanline covers the current column.
    pub open spec fn sprite_active(self, i: int) -> bool {
        let x = self.sprites[i].x as int;
        x <= self.cycle < x + 8
    }

    /// The sprites from `i` on, looked at in order for the current column: the
    /// first one under the column with a non-transparent pixel wins; the
    /// values of the last sprite looked at stay otherwise. The result is the
    /// pixel, its palette, whether it goes in front of the background, and
    /// whether it is sprite 0.
    pub open spec fn sprite_scan(self, i: int, acc: (u8, u8, bool)) -> (u8, u8, bool, bool)
        decreases self.sprites.len() - i,
    {
        if i >= self.sprites.len() || i < 0 {
            (acc.0, acc.1, acc.2, false)
        } else if self.sprite_active(i) {
            let v = (row_bit(self.sprite_msb, i) << 1u8) | row_bit(self.sprite_lsb, i);
            let pal = ((self.sprites[i].attributes & 0x03) + 4) as u8;
            let pri = self.sprites[i].attributes & 0x20 == 0;
            if v != 0 {
                (v, pal, pri, i == 0)
            } else {
                self.sprite_scan(i + 1, (v, pal, pri))
            }
        } else {
            self.sprite_scan(i + 1, acc)
        }
    }

    /// Whether the sprite pixels are looked at for the current column.
    pub open spec fn sprites_shown_here(self) -> bool {
        bit8(self.mask, 4) != 0 && (bit8(self.mask, 2) != 0 || self.cycle >= 9)
    }

    /// The sprite pixel, palette and priority for the current column.
    pub open spec fn foreground_pixel(self) -> (u8, u8, bool) {
        if self.sprites_shown_here() {
            let r = self.sprite_scan(0, (0, 0, false));
            (r.0, r.1, r.2)
        } else {
            (0, 0, false)
        }
    }

    /// The pixel and palette shown at the current column, and the PPU after
    /// the sprite-zero bookkeeping: a non-transparent sprite-0 pixel over a
    /// non-transparent background pixel sets the sprite-zero-hit flag.
    #[verifier::opaque]
    pub open spec fn composed(self) -> (u8, u8, PpuView) {
        let (bg, bg_pal) = self.background_pixel();
        let (fg, fg_pal, fg_front) = self.foreground_pixel();
        let zero_rendered = if self.sprites_shown_here() {
            self.sprite_scan(0, (0, 0, false)).3
        } else {
            self.sprite_zero_being_rendered
        };
        let s = PpuView { sprite_zero_being_rendered: zero_rendered, ..self };
        if bg == 0 && fg == 0 {
            (0, 0, s)
        } else if bg == 0 {
            (fg, fg_pal, s)
        } else if fg == 0 {
            (bg, bg_pal, s)
        } else {
            let (pix, pal) = if fg_front {
                (fg, fg_pal)
            } else {
                (bg, bg_pal)
            };
            let hit = zero_rendered && self.sprite_zero_hit_possible && bit8(self.mask, 3) != 0
                && bit8(self.mask, 4) != 0 && if bit8(self.mask, 1) == 0 && bit8(self.mask, 2) == 0 {
                9 <= self.cycle < 258
            } else {
                1 <= self.cycle < 258
            };
            (pix, pal, if hit {
                PpuView { status: with_bit8(s.status, 6, 1), ..s }
            } else {
                s
            })
        }
    }

    /// The colour of a pixel value in a palette.
    pub open spec fn palette_color(self, pixel: u8, palette_id: u8) -> Color {
        self.palette_colors[self.palette[palette_id * 4 + pixel] as int]
    }

    /// The pixel value (0-3) at column `x` and row `y` (0-127) of the
    /// picture of pattern table `t`: tiles of 8x8 pixels, 16 to a row, each
    /// tile 16 bytes, a low plane of 8 rows then a high plane; the leftmost
    /// pixel is bit 7.
    pub open spec fn pattern_pixel(self, t: int, x: int, y: int) -> u8 {
        let addr = (t * 4096 + (x / 8) * 16 + (y / 8) * 256 + y % 8) as u16;
        let lsb = self.bus_value(addr);
        let msb = self.bus_value((addr + 8) as u16);
        ((bit8(msb, (7 - x % 8) as u8) << 1u8) + bit8(lsb, (7 - x % 8) as u8)) as u8
    }

    /// Both pattern-table pictures in a palette, table by table, column by
    /// column.
    pub open spec fn pattern_tables_drawn(self, palette_id: u8) -> Seq<Color> {
        Seq::new(
            (2 * PATTERN_TABLE_VIS_SIDE * PATTERN_TABLE_VIS_SIDE) as nat,
            |i: int|
                self.palette_color(
                    self.pattern_pixel(i / 16384, (i % 16384) / 128, i % 128),
                    palette_id,
                ),
        )
    }

    /// The start of a cycle on the pre-render and visible scanlines: the
    /// odd-frame skip of scanline 0's first cycle, and the clearing of the
    /// flags and sprite rows at the start of the pre-render scanline.
    pub open spec fn cycle_start(self) -> PpuView {
        let s0 = if self.scan_line == 0 && self.cycle == 0 && self.odd_frame
            && self.rendering_enabled() {
            PpuView { cycle: 1, ..self }
        } else {
            self
        };
        if s0.scan_line == -1 && s0.cycle == 1 {
            PpuView {
                status: with_bit8(with_bit8(with_bit8(s0.status, 7, 0), 5, 0), 6, 0),
                sprite_lsb: Seq::empty(),
                sprite_msb: Seq::empty(),
                ..s0
            }
        } else {
            s0
        }
    }

    /// The shifts and the background fetch of a fetching cycle (2 to 257,
    /// 321 to 337).
    pub open spec fn shift_fetch_step(self) -> PpuView {
        let c = self.cycle;
        if (2 <= c < 258) || (321 <= c < 338) {
            let a = if bit8(self.mask, 3) != 0 {
                self.shifters_shifted()
            } else {
                self
            };
            let b = if bit8(self.mask, 4) != 0 && 1 <= c < 258 {
                a.sprite_rows_shifted()
            } else {
                a
            };
            b.background_fetch()
        } else {
            self
        }
    }

    /// The scrolling of the end of a scanline: the vertical increment at cycle
    /// 256, the shift register load and horizontal copy at 257, the vertical
    /// copy on the pre-render scanline.
    pub open spec fn scroll_step(self) -> PpuView {
        let c = self.cycle;
        let s3 = if c == 256 && self.rendering_enabled() {
            self.with_vram(scroll_y_incremented(self.vram))
        } else {
            self
        };
        let s4 = if c == 257 {
            let l = s3.shifters_loaded();
            if self.rendering_enabled() {
                l.with_vram(transferred_x(l.vram, l.temp_vram))
            } else {
                l
            }
        } else {
            s3
        };
        if self.scan_line == -1 && 280 <= c < 305 && self.rendering_enabled() {
            s4.with_vram(transferred_y(s4.vram, s4.temp_vram))
        } else {
            s4
        }
    }

    /// The work of a cycle on the pre-render and visible scanlines (-1 to
    /// 239): the odd-frame skip, flag clearing, background fetches and shifts,
    /// scrolling, sprite evaluation. The sprite row fetch of the last cycle is
    /// left out.
    #[verifier::opaque]
    pub open spec fn visible_work(self) -> PpuView {
        let s1 = self.cycle_start();
        let s5 = s1.shift_fetch_step().scroll_step();
        if s1.scan_line >= 0 && s1.cycle == 257 {
            s5.sprites_evaluated()
        } else {
            s5
        }
    }

    /// The pre-render and visible scanlines' work including the sprite row
    /// fetch at their last cycle.
    pub open spec fn scanline_work(self) -> PpuView {
        if -1 <= self.scan_line < 240 {
            let w = self.visible_work();
            if w.cycle == 340 {
                w.sprite_rows_fetched()
            } else {
                w
            }
        } else {
            self
        }
    }

    /// Vertical blank starts at scanline 241, cycle 1, and raises the NMI
    /// request when the controller enables it.
    pub open spec fn vblank_work(self) -> PpuView {
        if self.scan_line == 241 && self.cycle == 1 {
            PpuView {
                status: with_bit8(self.status, 7, 1),
                trigger_cpu_nmi: if bit8(self.controller, 7) == 1 {
                    true
                } else {
                    self.trigger_cpu_nmi
                },
                ..self
            }
        } else {
            self
        }
    }

    /// Whether the current position draws a pixel of the picture.
    pub open spec fn draws_pixel(self) -> bool {
        self.cycle < 256 && 0 <= self.scan_line < 240
    }

    /// The timing moves one cycle on: 341 cycles per scanline, scanlines -1 to
    /// 260; the end of scanline 260 completes the frame.
    pub open spec fn advanced(self) -> PpuView {
        if self.cycle + 1 > 340 {
            if self.scan_line + 1 > 260 {
                PpuView {
                    cycle: 0,
                    scan_line: -1i16,
                    frame_render_complete: true,
                    odd_frame: !self.odd_frame,
                    ..self
                }
            } else {
                PpuView { cycle: 0, scan_line: (self.scan_line + 1) as i16, ..self }
            }
        } else {
            PpuView { cycle: (self.cycle + 1) as i16, ..self }
        }
    }

    /// The screen with the pixel of the current position drawn, where the
    /// position is on the picture.
    pub open spec fn drawn(self, pix: u8, pal: u8) -> PpuView {
        if self.draws_pixel() {
            PpuView {
                screen: self.screen.update(
                    self.scan_line * SCREEN_WIDTH as int + self.cycle,
                    self.palette_color(pix, pal),
                ),
                ..self
            }
        } else {
            self
        }
    }

    /// The PPU after one clock cycle.
    #[verifier::opaque]
    pub open spec fn clock(self) -> PpuView {
        let s = self.scanline_work().vblank_work();
        let (pix, pal, t) = s.composed();
        t.drawn(pix, pal).advanced()
    }

    /// One clock cycle is defined: the sprite rows it fetches are on the PPU
    /// bus, and the pixel it draws has a colour code of the master palette
    /// (below 64).
    pub open spec fn clock_defined(self) -> bool {
        let w = self.visible_work();
        let s = self.scanline_work().vblank_work();
        let (pix, pal, t) = s.composed();
        &&& (-1 <= self.scan_line < 240 && w.cycle == 340) ==> w.sprite_fetch_defined()
        &&& t.draws_pixel() ==> t.palette[pal * 4 + pix] < 64
    }
}

impl Ben2C02 {
    fn increment_scroll_x(&mut self)
        requires
            old(self).wf(),
        ensures
            final(self).wf(),
            final(self)@ == old(self)@.with_vram(scroll_x_incremented(old(self)@.vram)),
    {
        proof {
            lemma_loopy_bounds(self.vram_reg.flags, self.temp_vram_reg.flags);
        }
        if self.vram_reg.get_coarse_x() == 31 {
            let nx = (self.vram_reg.get_nametable_x() == 0) as u8;
            self.vram_reg.set_nametable_x(nx);
            self.vram_reg.set_coarse_x(0);
        } else {
            let cx = self.vram_reg.get_coarse_x();
            self.vram_reg.set_coarse_x(cx + 1);
        }
        assert(self@ =~= old(self)@.with_vram(scroll_x_incremented(old(self)@.vram)));
    }

    fn increment_scroll_y(&mut self)
        requires
            old(self).wf(),
        ensures
            final(self).wf(),
            final(self)@ == old(self)@.with_vram(scroll_y_incremented(old(self)@.vram)),
    {
        proof {
            lemma_loopy_bounds(self.vram_reg.flags, self.temp_vram_reg.flags);
        }
        if self.vram_reg.get_fine_y() < 7 {
            let fy = self.vram_reg.get_fine_y();
            self.vram_reg.set_fine_y(fy + 1);
        } else {
            self.vram_reg.set_fine_y(0);
            if self.vram_reg.get_coarse_y() == 29 {
                let ny = (self.vram_reg.get_nametable_y() == 0) as u8;
                self.vram_reg.set_nametable_y(ny);
                self.vram_reg.set_coarse_y(0);
            } else if self.vram_reg.get_coarse_y() == 31 {
                self.vram_reg.set_coarse_y(0);
            } else {
                let cy = self.vram_reg.get_coarse_y();
                self.vram_reg.set_coarse_y(cy + 1);
            }
        }
        assert(self@ =~= old(self)@.with_vram(scroll_y_incremented(old(self)@.vram)));
    }

    fn transfer_temp_vram_x(&mut self)
        requires
            old(self).wf(),
        ensures
            final(self).wf(),
            final(self)@ == old(self)@.with_vram(
                transferred_x(old(self)@.vram, old(self)@.temp_vram),
            ),
    {
        proof {
            lemma_loopy_bounds(self.vram_reg.flags, self.temp_vram_reg.flags);
        }
        let nx = self.temp_vram_reg.get_nametable_x();
        self.vram_reg.set_nametable_x(nx);
        let cx = self.temp_vram_reg.get_coarse_x();
        self.vram_reg.set_coarse_x(cx);
        assert(self@ =~= old(self)@.with_vram(
            transferred_x(old(self)@.vram, old(self)@.temp_vram),
        ));
    }

    fn transfer_temp_vram_y(&mut self)
        requires
            old(self).wf(),
        ensures
            final(self).wf(),
            final(self)@ == old(self)@.with_vram(
                transferred_y(old(self)@.vram, old(self)@.temp_vram),
            ),
    {
        proof {
            lemma_loopy_bounds(self.vram_reg.flags, self.temp_vram_reg.flags);
        }
        let ny = self.temp_vram_reg.get_nametable_y();
        self.vram_reg.set_nametable_y(ny);
        let cy = self.temp_vram_reg.get_coarse_y();
        self.vram_reg.set_coarse_y(cy);
        let fy = self.temp_vram_reg.get_fine_y();
        self.vram_reg.set_fine_y(fy);
        assert(self@ =~= old(self)@.with_vram(
            transferred_y(old(self)@.vram, old(self)@.temp_vram),
        ));
    }

    fn load_background_shift_registers_with_next_tile(&mut self)
        requires
            old(self).wf(),
        ensures
            final(self).wf(),
            final(self)@ == old(self)@.shifters_loaded(),
    {
        self.bg_shifter_pattern_lo = (self.bg_shifter_pattern_lo & 0xFF00) | (
        self.bg_next_tile_lsb as u16);
        self.bg_shifter_pattern_hi = (self.bg_shifter_pattern_hi & 0xFF00) | (
        self.bg_next_tile_msb as u16);
        if (self.bg_next_tile_attribute & 0b01) != 0 {
            self.bg_shifter_attrib_lo = (self.bg_shifter_attrib_lo & 0xFF00) | 0xFF;
        } else {
            self.bg_shifter_attrib_lo = (self.bg_shifter_attrib_lo & 0xFF00) | 0x00;
        }
        if (self.bg_next_tile_attribute & 0b10) != 0 {
            self.bg_shifter_attrib_hi = (self.bg_shifter_attrib_hi & 0xFF00) | 0xFF;
        } else {
            self.bg_shifter_attrib_hi = (self.bg_shifter_attrib_hi & 0xFF00) | 0x00;
        }
        assert(self@ =~= old(self)@.shifters_loaded());
    }

    fn update_background_shift_registers(&mut self)
        requires
            old(self).wf(),
        ensures
            final(self).wf(),
            final(self)@ == old(self)@.shifters_shifted(),
    {
        self.bg_shifter_pattern_lo = self.bg_shifter_pattern_lo << 1;
        self.bg_shifter_pattern_hi = self.bg_shifter_pattern_hi << 1;
        self.bg_shifter_attrib_lo = self.bg_shifter_attrib_lo << 1;
        self.bg_shifter_attrib_hi = self.bg_shifter_attrib_hi << 1;
        assert(self@ =~= old(self)@.shifters_shifted());
    }

    fn update_foreground_shift_registers(&mut self)
        requires
            old(self).wf(),
        ensures
            final(self).wf(),
            final(self)@ == old(self)@.sprite_rows_shifted(),
    {
        let n = self.sprites_on_curr_scanline_pattern_lsb.len();
        let mut i: usize = 0;
        while i < n
            invariant
                n == old(self)@.sprite_lsb.len(),
                n == old(self)@.sprite_msb.len(),
                n <= old(self)@.sprites.len(),
                0 <= old(self)@.cycle <= 340,
                0 <= i <= n,
                self@.sprite_lsb.len() == n,
                self@.sprite_msb.len() == n,
                forall|k: int|
                    0 <= k < i ==> #[trigger] self@.sprite_lsb[k]
                        == old(self)@.sprite_rows_shifted().sprite_lsb[k],
                forall|k: int|
                    0 <= k < i ==> #[trigger] self@.sprite_msb[k]
                        == old(self)@.sprite_rows_shifted().sprite_msb[k],
                forall|k: int| i <= k < n ==> #[trigger] self@.sprite_lsb[k] == old(self)@.sprite_lsb[k],
                forall|k: int| i <= k < n ==> #[trigger] self@.sprite_msb[k] == old(self)@.sprite_msb[k],
                self@ == (PpuView {
                    sprite_lsb: self@.sprite_lsb,
                    sprite_msb: self@.sprite_msb,
                    ..old(self)@
                }),
            decreases n - i,
        {
            let sprite = self.sprites_on_curr_scanline[i];
            let c = self.cycle;
            if c - 1 >= (sprite.x as i16) && c - 1 < (sprite.x as i16 + 8) {
                let lo = self.sprites_on_curr_scanline_pattern_lsb[i];
                self.sprites_on_curr_scanline_pattern_lsb.set(i, lo << 1);
                let hi = self.sprites_on_curr_scanline_pattern_msb[i];
                self.sprites_on_curr_scanline_pattern_msb.set(i, hi << 1);
            }
            assert(old(self)@.sprite_active_before(i as int) == (c - 1 >= (sprite.x as i16) && c - 1
                < (sprite.x as i16 + 8)));
            assert(self@.sprite_lsb[i as int] == old(self)@.sprite_rows_shifted().sprite_lsb[i as int]);
            assert(self@.sprite_msb[i as int] == old(self)@.sprite_rows_shifted().sprite_msb[i as int]);
            i = i + 1;
        }
        assert(self@.sprite_lsb =~= old(self)@.sprite_rows_shifted().sprite_lsb);
        assert(self@.sprite_msb =~= old(self)@.sprite_rows_shifted().sprite_msb);
        assert(self@ =~= old(self)@.sprite_rows_shifted());
    }
}

impl Ben2C02 {
    fn fetch_tile_id(&mut self)
        requires
            old(self).wf(),
        ensures
            final(self).wf(),
            final(self)@ == (PpuView {
                bg_next_tile_id: old(self)@.shifters_loaded().bus_value(
                    0x2000 | (old(self)@.vram & 0x0FFF),
                ),
                ..old(self)@.shifters_loaded()
            }),
    {
        self.load_background_shift_registers_with_next_tile();
        let v = self.vram_reg.flags;
        let a = 0x2000 | (v & 0x0FFF);
        proof {
            lemma_fetch_bit_facts(v, 0, 0, 0, 0, 0, 0, 0, 0, 0);
        }
        let r = self.read_from_ppu_bus(a);
        self.bg_next_tile_id = match r {
            Ok(b) => b,
            Err(_) => 0,
        };
    }

    fn fetch_tile_attribute(&mut self)
        requires
            old(self).wf(),
        ensures
            final(self).wf(),
            final(self)@ == (PpuView {
                bg_next_tile_attribute: old(self)@.tile_palette(
                    old(self)@.bus_value(old(self)@.attribute_address()),
                ),
                ..old(self)@
            }),
    {
        let ny = self.vram_reg.get_nametable_y() as u16;
        let nx = self.vram_reg.get_nametable_x() as u16;
        let cy = self.vram_reg.get_coarse_y() as u16;
        let cx = self.vram_reg.get_coarse_x() as u16;
        let a = 0x23C0 | (ny << 11) | (nx << 10) | ((cy >> 2) << 3) | (cx >> 2);
        proof {
            lemma_fetch_bit_facts(0, ny, nx, cy, cx, 0, 0, 0, 0, 0);
        }
        let r = self.read_from_ppu_bus(a);
        let mut attribute = match r {
            Ok(b) => b,
            Err(_) => 0,
        };
        if (cy & 0x02) != 0 {
            attribute = attribute >> 4;
        }
        if (cx & 0x02) != 0 {
            attribute = attribute >> 2;
        }
        self.bg_next_tile_attribute = attribute & 0x03;
        assert(self@ =~= (PpuView {
            bg_next_tile_attribute: old(self)@.tile_palette(
                old(self)@.bus_value(old(self)@.attribute_address()),
            ),
            ..old(self)@
        }));
    }

    fn fetch_tile_pattern(&mut self, high: bool)
        requires
            old(self).wf(),
        ensures
            final(self).wf(),
            !high ==> final(self)@ == (PpuView {
                bg_next_tile_lsb: old(self)@.bus_value(old(self)@.tile_row_address()),
                ..old(self)@
            }),
            high ==> final(self)@ == (PpuView {
                bg_next_tile_msb: old(self)@.bus_value((old(self)@.tile_row_address() + 8) as u16),
                ..old(self)@
            }),
    {
        let pb = self.controller_reg.get_pattern_background() as u16;
        let fy = self.vram_reg.get_fine_y() as u16;
        let t = self.bg_next_tile_id as u16;
        let p1 = pb << 12;
        proof {
            lemma_fetch_bit_facts(0, 0, 0, 0, 0, pb, 0, 0, 0, 0);
        }
        let base = p1 + t * 16 + fy;
        if !high {
            let r = self.read_from_ppu_bus(base);
            self.bg_next_tile_lsb = match r {
                Ok(b) => b,
                Err(_) => 0,
            };
        } else {
            let r = self.read_from_ppu_bus(base + 8);
            self.bg_next_tile_msb = match r {
                Ok(b) => b,
                Err(_) => 0,
            };
        }
    }

    /// The background fetch of one cycle, chosen by the cycle's place in the
    /// 8-cycle tile period.
    fn fetch_background(&mut self)
        requires
            old(self).wf(),
            old(self)@.cycle >= 1,
        ensures
            final(self).wf(),
            final(self)@ == old(self)@.background_fetch(),
    {
        let phase = ((self.cycle - 1) as u16) % 8;
        if phase == 0 {
            self.fetch_tile_id();
        } else if phase == 2 {
            self.fetch_tile_attribute();
        } else if phase == 4 {
            self.fetch_tile_pattern(false);
        } else if phase == 6 {
            self.fetch_tile_pattern(true);
        } else if phase == 7 {
            if self.mask_reg.get_render_background() != 0 || self.mask_reg.get_render_sprites()
                != 0 {
                self.increment_scroll_x();
            }
        }
    }

    /// Sprite evaluation at the end of a visible scanline: finds the sprites
    /// of OAM that cover it, at most 8; more than 8 set the overflow flag.
    fn evaluate_sprites(&mut self)
        requires
            old(self).wf(),
            0 <= old(self)@.scan_line < 240,
            old(self)@.cycle == 257,
        ensures
            final(self)@ == old(self)@.sprites_evaluated(),
            final(self).wf(),
    {
        self.sprites_on_curr_scanline = Vec::new();
        self.sprites_on_curr_scanline_pattern_lsb = Vec::new();
        self.sprites_on_curr_scanline_pattern_msb = Vec::new();
        self.sprite_zero_hit_possible = false;
        let tall = self.controller_reg.get_sprite_size() != 0;
        let sprite_size: i16 = if tall {
            16
        } else {
            8
        };
        let ghost s0 = self@;
        let mut count: u8 = 0;
        let mut i: usize = 0;
        while i < 64
            invariant
                0 <= i <= 64,
                count == sprites_covering_line(old(self)@.oam, old(self)@.scan_line, tall, i as nat),
                count <= i,
                0 <= self@.scan_line < 240,
                tall == (bit8(old(self)@.controller, 5) != 0),
                sprite_size == if tall {
                    16i16
                } else {
                    8i16
                },
                self@.sprites == sprites_on_line(old(self)@.oam, old(self)@.scan_line, tall, i as nat),
                self@.sprite_zero_hit_possible == (i > 0 && sprite_on_line(
                    old(self)@.scan_line,
                    old(self)@.oam[0],
                    tall,
                )),
                self@ == (PpuView {
                    sprites: self@.sprites,
                    sprite_zero_hit_possible: self@.sprite_zero_hit_possible,
                    ..s0
                }),
                s0 == (PpuView {
                    sprites: Seq::empty(),
                    sprite_lsb: Seq::empty(),
                    sprite_msb: Seq::empty(),
                    sprite_zero_hit_possible: false,
                    ..old(self)@
                }),
                old(self)@.oam.len() == 64,
            decreases 64 - i,
        {
            proof {
                lemma_sprites_on_line_len(old(self)@.oam, old(self)@.scan_line, tall, i as nat);
            }
            let sprite = self.oam_memory[i];
            let y_pos_diff = self.scan_line - sprite.y as i16;
            if y_pos_diff >= 0 && y_pos_diff < sprite_size {
                count = count + 1;
                if i == 0 {
                    self.sprite_zero_hit_possible = true;
                }
                if self.sprites_on_curr_scanline.len() < 8 {
                    self.sprites_on_curr_scanline.push(sprite);
                }
            }
            i = i + 1;
        }
        if count > 8 {
            self.status_reg.set_sprite_overflow(1);
        }
        assert(self@ =~= old(self)@.sprites_evaluated());
        proof {
            lemma_sprites_on_line_len(old(self)@.oam, old(self)@.scan_line, tall, 64);
        }
    }

    /// The address of a sprite's pattern row (low plane) on the current
    /// scanline.
    fn sprite_row_address(&self, sprite: SpriteObj) -> (r: u16)
        requires
            self@.memory_wf(),
            -1 <= self@.scan_line < 240,
        ensures
            r == sprite_row_address(sprite, self@.scan_line, self@.controller),
    {
        let y_pos_diff = self.scan_line - sprite.y as i16;
        assert(-256 <= y_pos_diff < 240);
        assert(self.pattern_tables_mem_bounds.0 == 0);
        let t = sprite.tile_id;
        proof {
            lemma_fetch_bit_facts(0, 0, 0, 0, 0, 0, t, 0, 0, 0);
        }
        if self.controller_reg.get_sprite_size() == 0 {
            // 8x8 sprites
            let start_addr: u16 = self.pattern_tables_mem_bounds.0 + if self.controller_reg.get_pattern_sprite()
                != 0 {
                4096
            } else {
                0
            };
            let row: u16 = if (sprite.attributes & 0x80) != 0 {
                // Flipped vertically
                (7 - y_pos_diff) as u16
            } else {
                y_pos_diff as u16
            };
            (start_addr + (sprite.tile_id as u16) * 16).wrapping_add(row)
        } else {
            // 8x16 sprites: two tiles, the table chosen by bit 0 of the tile number
            let start_addr: u16 = self.pattern_tables_mem_bounds.0 + ((sprite.tile_id & 0x01) as u16)
                * 4096;
            let top: u16 = ((sprite.tile_id & 0b11111110) as u16) * 16;
            let bottom: u16 = (((sprite.tile_id & 0b11111110) + 1) as u16) * 16;
            let r8: i16 = if y_pos_diff >= 0 {
                y_pos_diff % 8
            } else {
                -((-y_pos_diff) % 8)
            };
            if (sprite.attributes & 0x80) != 0 {
                // Flipped vertically: the top half shows the bottom tile
                let tile_base = if y_pos_diff < 8 {
                    bottom
                } else {
                    top
                };
                (start_addr + tile_base).wrapping_add((7 - r8) as u16)
            } else {
                let tile_base = if y_pos_diff < 8 {
                    top
                } else {
                    bottom
                };
                (start_addr + tile_base).wrapping_add(r8 as u16)
            }
        }
    }

    /// At the last cycle of a visible scanline: fetches the pattern rows of
    /// the sprites found for it, flipped horizontally where asked.
    fn fetch_sprite_rows(&mut self)
        requires
            old(self).wf(),
            -1 <= old(self)@.scan_line < 240,
            old(self)@.sprite_fetch_defined(),
            old(self)@.sprite_lsb.len() == 0,
        ensures
            final(self)@ == old(self)@.sprite_rows_fetched(),
    {
        let n = self.sprites_on_curr_scanline.len();
        let mut i: usize = 0;
        while i < n
            invariant
                n == old(self)@.sprites.len(),
                0 <= i <= n,
                self@.memory_wf(),
                self@ == (PpuView {
                    sprite_lsb: self@.sprite_lsb,
                    sprite_msb: self@.sprite_msb,
                    ..old(self)@
                }),
                self@.sprite_lsb == old(self)@.sprite_lsb + old(self)@.sprite_rows_fetched().sprite_lsb.subrange(
                    old(self)@.sprite_lsb.len() as int,
                    old(self)@.sprite_lsb.len() + i,
                ),
                self@.sprite_msb == old(self)@.sprite_msb + old(self)@.sprite_rows_fetched().sprite_msb.subrange(
                    old(self)@.sprite_msb.len() as int,
                    old(self)@.sprite_msb.len() + i,
                ),
                old(self).wf(),
                -1 <= old(self)@.scan_line < 240,
                old(self)@.sprite_fetch_defined(),
            decreases n - i,
        {
            let sprite = self.sprites_on_curr_scanline[i];
            let lsb_addr = self.sprite_row_address(sprite);
            let msb_addr = lsb_addr.wrapping_add(8);
            let ghost before = self@;
            let r1 = self.read_from_ppu_bus(lsb_addr);
            let mut lo = match r1 {
                Ok(b) => b,
                Err(_) => 0,
            };
            let r2 = self.read_from_ppu_bus(msb_addr);
            let mut hi = match r2 {
                Ok(b) => b,
                Err(_) => 0,
            };
            if (sprite.attributes & 0x40) != 0 {
                // Flipped horizontally
                lo = reverse_bits_u8(lo);
                hi = reverse_bits_u8(hi);
            }
            self.sprites_on_curr_scanline_pattern_lsb.push(lo);
            self.sprites_on_curr_scanline_pattern_msb.push(hi);
            proof {
                let f = old(self)@.sprite_rows_fetched();
                let l0 = old(self)@.sprite_lsb.len() as int;
                let m0 = old(self)@.sprite_msb.len() as int;
                assert(f.sprite_lsb[l0 + i] == lo);
                assert(f.sprite_msb[m0 + i] == hi);
                assert(f.sprite_lsb.subrange(l0, l0 + i + 1) =~= f.sprite_lsb.subrange(l0, l0 + i).push(lo));
                assert(f.sprite_msb.subrange(m0, m0 + i + 1) =~= f.sprite_msb.subrange(m0, m0 + i).push(hi));
            }
            i = i + 1;
        }
        proof {
            let f = old(self)@.sprite_rows_fetched();
            assert(f.sprite_lsb =~= old(self)@.sprite_lsb + f.sprite_lsb.subrange(
                old(self)@.sprite_lsb.len() as int,
                old(self)@.sprite_lsb.len() + n,
            ));
            assert(f.sprite_msb =~= old(self)@.sprite_msb + f.sprite_msb.subrange(
                old(self)@.sprite_msb.len() as int,
                old(self)@.sprite_msb.len() + n,
            ));
        }
        assert(self@ =~= old(self)@.sprite_rows_fetched());
    }
}

impl Ben2C02 {
    /// The colour of a pixel value (0-3) in a palette (0-7).
    fn get_color_from_palette(&self, pixel_value: u8, palette_id: u8) -> (c: Color)
        requires
            self@.memory_wf(),
            pixel_value <= 3,
            palette_id <= 7,
            self@.palette[palette_id * 4 + pixel_value] < 64,
        ensures
            c == self@.palette_color(pixel_value, palette_id),
    {
        let pixel_color_code = self.palette[(palette_id * 4 + pixel_value) as usize];
        self.palette_vis_bufer[pixel_color_code as usize]
    }

    /// Mixes the background and sprite pixels of the current column, and
    /// keeps track of sprite 0 for the sprite-zero hit.
    #[verifier::rlimit(30)]
    fn compose_pixel(&mut self) -> (r: (u8, u8))
        requires
            old(self)@.memory_wf(),
            0 <= old(self)@.cycle <= 340,
        ensures
            r.0 == old(self)@.composed().0,
            r.1 == old(self)@.composed().1,
            final(self)@ == old(self)@.composed().2,
            r.0 <= 3,
            r.1 <= 7,
            final(self)@ == (PpuView {
                status: final(self)@.status,
                sprite_zero_being_rendered: final(self)@.sprite_zero_being_rendered,
                ..old(self)@
            }),
    {
        reveal(PpuView::composed);
        let mut bg_pixel_value: u8 = 0;
        let mut bg_palette_id: u8 = 0;
        if self.mask_reg.get_render_background() != 0 {
            let bit_mux: u16 = 0x8000 >> (self.fine_x as u16);
            let bg_pixel0 = ((self.bg_shifter_pattern_lo & bit_mux) > 0) as u8;
            let bg_pixel1 = ((self.bg_shifter_pattern_hi & bit_mux) > 0) as u8;
            bg_pixel_value = (bg_pixel1 << 1) | bg_pixel0;
            let bg_palette0 = ((self.bg_shifter_attrib_lo & bit_mux) > 0) as u8;
            let bg_palette1 = ((self.bg_shifter_attrib_hi & bit_mux) > 0) as u8;
            bg_palette_id = (bg_palette1 << 1) | bg_palette0;
            proof {
                lemma_fetch_bit_facts(0, 0, 0, 0, 0, 0, 0, bg_pixel0, bg_pixel1, 0);
                lemma_fetch_bit_facts(0, 0, 0, 0, 0, 0, 0, bg_palette0, bg_palette1, 0);
            }
        }
        let mut fg_pixel_value: u8 = 0;
        let mut fg_palette_id: u8 = 0;
        let mut fg_priority: bool = false;
        if self.mask_reg.get_render_sprites() != 0 {
            if self.mask_reg.get_render_sprites_left() != 0 || self.cycle >= 9 {
                self.sprite_zero_being_rendered = false;
                let n = self.sprites_on_curr_scanline.len();
                let mut i: usize = 0;
                while i < n
                    invariant_except_break
                        0 <= i <= n,
                        n == old(self)@.sprites.len(),
                        old(self)@.sprite_scan(0, (0, 0, false)) == old(self)@.sprite_scan(
                            i as int,
                            (fg_pixel_value, fg_palette_id, fg_priority),
                        ),
                        !self.sprite_zero_being_rendered,
                    invariant
                        self@ == (PpuView {
                            sprite_zero_being_rendered: self.sprite_zero_being_rendered,
                            ..old(self)@
                        }),
                        0 <= old(self)@.cycle <= 340,
                        fg_palette_id <= 7,
                        fg_pixel_value <= 3,
                    ensures
                        old(self)@.sprite_scan(0, (0, 0, false)) == (
                            fg_pixel_value,
                            fg_palette_id,
                            fg_priority,
                            self.sprite_zero_being_rendered,
                        ),
                    decreases n - i,
                {
                    let sprite_obj = self.sprites_on_curr_scanline[i];
                    if self.cycle >= (sprite_obj.x as i16) && self.cycle < (sprite_obj.x as i16 + 8) {
                        let lo_row: u8 = if i < self.sprites_on_curr_scanline_pattern_lsb.len() {
                            self.sprites_on_curr_scanline_pattern_lsb[i]
                        } else {
                            0
                        };
                        let hi_row: u8 = if i < self.sprites_on_curr_scanline_pattern_msb.len() {
                            self.sprites_on_curr_scanline_pattern_msb[i]
                        } else {
                            0
                        };
                        let fg_pixel_lo = (lo_row & 0x80 != 0) as u8;
                        let fg_pixel_hi = (hi_row & 0x80 != 0) as u8;
                        proof {
                            lemma_fetch_bit_facts(0, 0, 0, 0, 0, 0, 0, fg_pixel_lo, fg_pixel_hi, sprite_obj.attributes);
                        }
                        fg_pixel_value = (fg_pixel_hi << 1) | fg_pixel_lo;
                        let attr = sprite_obj.attributes;
                        fg_palette_id = (attr & 0b11) + 0x04;
                        fg_priority = (attr & 0b00100000) == 0;
                        assert(fg_pixel_value <= 3 && fg_palette_id <= 7);

                        assert(fg_pixel_lo == row_bit(old(self)@.sprite_lsb, i as int));
                        assert(fg_pixel_hi == row_bit(old(self)@.sprite_msb, i as int));
                        if fg_pixel_value != 0 {
                            if i == 0 {
                                self.sprite_zero_being_rendered = true;
                            }
                            break ;
                        }
                    }
                    i = i + 1;
                }
            }
        }
        let ghost s_mid = self@;
        assert(s_mid == (PpuView {
            sprite_zero_being_rendered: old(self)@.composed().2.sprite_zero_being_rendered,
            ..old(self)@
        }));
        let mut result_pixel_value: u8 = 0x00;
        let mut result_palette_id: u8 = 0x00;
        if bg_pixel_value == 0 && fg_pixel_value == 0 {
            result_pixel_value = 0;
            result_palette_id = 0;
        } else if bg_pixel_value == 0 && fg_pixel_value != 0 {
            result_pixel_value = fg_pixel_value;
            result_palette_id = fg_palette_id;
        } else if bg_pixel_value != 0 && fg_pixel_value == 0 {
            result_pixel_value = bg_pixel_value;
            result_palette_id = bg_palette_id;
        } else {
            if fg_priority {
                result_pixel_value = fg_pixel_value;
                result_palette_id = fg_palette_id;
            } else {
                result_pixel_value = bg_pixel_value;
                result_palette_id = bg_palette_id;
            }
            if self.sprite_zero_being_rendered && self.sprite_zero_hit_possible
                && self.mask_reg.get_render_background() != 0 && self.mask_reg.get_render_sprites()
                != 0 {
                if self.mask_reg.get_render_background_left() == 0
                    && self.mask_reg.get_render_sprites_left() == 0 {
                    if self.cycle >= 9 && self.cycle < 258 {
                        self.status_reg.set_sprite_zero_hit(1);
                    }
                } else if self.cycle >= 1 && self.cycle < 258 {
                    self.status_reg.set_sprite_zero_hit(1);
                }
            }
        }
        assert(self@ =~= old(self)@.composed().2);
        (result_pixel_value, result_palette_id)
    }
}


impl Ben2C02 {
    fn start_cycle(&mut self)
        requires
            old(self).wf(),
            -1 <= old(self)@.scan_line < 240,
        ensures
            final(self).wf(),
            final(self)@ == old(self)@.cycle_start(),
    {
        let rendering = self.mask_reg.get_render_background() != 0
            || self.mask_reg.get_render_sprites() != 0;
        if self.scan_line == 0 && self.cycle == 0 && self.odd_frame && rendering {
            // The odd frame skips the first cycle of scanline 0.
            self.cycle = 1;
        }
        if self.scan_line == -1 && self.cycle == 1 {
            self.status_reg.set_vertical_blank(0);
            self.status_reg.set_sprite_overflow(0);
            self.status_reg.set_sprite_zero_hit(0);
            self.sprites_on_curr_scanline_pattern_lsb = Vec::new();
            self.sprites_on_curr_scanline_pattern_msb = Vec::new();
        }
        assert(self@ =~= old(self)@.cycle_start());
    }

    fn shift_and_fetch(&mut self)
        requires
            old(self).wf(),
        ensures
            final(self).wf(),
            final(self)@ == old(self)@.shift_fetch_step(),
    {
        if (self.cycle >= 2 && self.cycle < 258) || (self.cycle >= 321 && self.cycle < 338) {
            if self.mask_reg.get_render_background() != 0 {
                self.update_background_shift_registers();
            }
            if self.mask_reg.get_render_sprites() != 0 && self.cycle >= 1 && self.cycle < 258 {
                self.update_foreground_shift_registers();
            }
            self.fetch_background();
        }
    }

    fn scroll_work(&mut self)
        requires
            old(self).wf(),
        ensures
            final(self).wf(),
            final(self)@ == old(self)@.scroll_step(),
    {
        let rendering = self.mask_reg.get_render_background() != 0
            || self.mask_reg.get_render_sprites() != 0;
        if self.cycle == 256 && rendering {
            self.increment_scroll_y();
        }
        if self.cycle == 257 {
            self.load_background_shift_registers_with_next_tile();
            if rendering {
                self.transfer_temp_vram_x();
            }
        }
        if self.scan_line == -1 && self.cycle >= 280 && self.cycle < 305 && rendering {
            self.transfer_temp_vram_y();
        }
    }

    /// The work of a cycle on the pre-render and visible scanlines, up to the
    /// sprite row fetch of their last cycle.
    fn visible_cycle_work(&mut self)
        requires
            old(self).wf(),
            -1 <= old(self)@.scan_line < 240,
        ensures
            final(self)@ == old(self)@.visible_work(),
            final(self).wf(),
            final(self)@.scan_line == old(self)@.scan_line,
            (final(self)@.scan_line == -1 && final(self)@.cycle >= 1) ==> final(self)@.sprite_lsb.len() == 0,
            (0 <= final(self)@.scan_line < 240 && final(self)@.cycle >= 257) ==> final(self)@.sprite_lsb.len() == 0,
    {
        reveal(PpuView::visible_work);
        self.start_cycle();
        let ghost s1 = self@;
        self.shift_and_fetch();
        self.scroll_work();
        if self.scan_line >= 0 && self.cycle == 257 {
            self.evaluate_sprites();
        }
    }
}

impl Ben2C02 {
    fn scanline_step(&mut self)
        requires
            old(self).wf(),
            old(self)@.clock_defined(),
        ensures
            final(self)@ == old(self)@.scanline_work(),
            final(self)@.memory_wf(),
            final(self)@.advanced().rendering_wf(),
            0 <= final(self)@.cycle <= 340,
            -1 <= final(self)@.scan_line <= 260,
    {
        if self.scan_line >= -1 && self.scan_line < 240 {
            self.visible_cycle_work();
            if self.cycle == 340 {
                self.fetch_sprite_rows();
            }
        }
    }

    fn vblank_step(&mut self)
        ensures
            final(self)@ == old(self)@.vblank_work(),
    {
        if self.scan_line == 241 && self.cycle == 1 {
            self.status_reg.set_vertical_blank(1);
            if self.controller_reg.get_enable_nmi() == 1 {
                self.trigger_cpu_nmi = true;
            }
        }
        assert(self@ =~= old(self)@.vblank_work());
    }

    fn advance(&mut self)
        requires
            0 <= old(self)@.cycle <= 340,
            -1 <= old(self)@.scan_line <= 260,
        ensures
            final(self)@ == old(self)@.advanced(),
    {
        self.cycle = self.cycle + 1;
        if self.cycle > 340 {
            self.cycle = 0;
            self.scan_line = self.scan_line + 1;
            if self.scan_line > 260 {
                self.scan_line = -1;
                self.frame_render_complete = true;
                self.odd_frame = !self.odd_frame;
            }
        }
        assert(self@ =~= old(self)@.advanced());
    }

    fn draw_pixel(&mut self, pixel: u8, palette_id: u8)
        requires
            old(self)@.memory_wf(),
            0 <= old(self)@.cycle <= 340,
            pixel <= 3,
            palette_id <= 7,
            old(self)@.draws_pixel() ==> old(self)@.palette[palette_id * 4 + pixel] < 64,
        ensures
            final(self)@ == old(self)@.drawn(pixel, palette_id),
            final(self)@.memory_wf(),
    {
        if self.cycle < 256 && self.scan_line < 240 && self.scan_line >= 0 {
            let color = self.get_color_from_palette(pixel, palette_id);
            let row = self.scan_line as usize;
            let col = self.cycle as usize;
            assert(row * 256 + col < 256 * 240) by (nonlinear_arith)
                requires
                    row < 240,
                    col < 256,
            ;
            let index = row * SCREEN_WIDTH + col;
            self.screen_vis_buffer.set(index, color);
        }
        assert(self@ =~= old(self)@.drawn(pixel, palette_id));
    }

    /// Runs the PPU for one clock cycle: the scanline's fetches and sprite
    /// work, the start of vertical blank, the pixel of the current position
    /// into the screen buffer, and the move to the next cycle.
    pub fn clock_cycle(&mut self)
        requires
            old(self).wf(),
            old(self)@.clock_defined(),
        ensures
            final(self).wf(),
            final(self)@ == old(self)@.clock(),
    {
        self.scanline_step();
        self.vblank_step();
        let ghost s = self@;
        let (pixel, palette_id) = self.compose_pixel();
        self.draw_pixel(pixel, palette_id);
        let ghost drawn = self@;
        assert(drawn.advanced().rendering_wf() == s.advanced().rendering_wf());
        self.advance();
        assert(self@ == old(self)@.clock()) by {
            reveal(PpuView::clock);
        }
    }
}

impl Ben2C02 {
    /// Draws both pattern tables, in the palette `palette_id`, into
    /// `pattern_tables_vis_buffer`.
    pub fn update_pattern_tables_vis_buffer(&mut self, palette_id: u8)
        requires
            old(self).wf(),
            palette_id <= 7,
            forall|k: int| 0 <= k < 4 ==> #[trigger] old(self)@.palette[palette_id * 4 + k] < 64,
        ensures
            final(self).wf(),
            final(self)@ == (PpuView {
                pattern_vis: old(self)@.pattern_tables_drawn(palette_id),
                ..old(self)@
            }),
    {
        let total: usize = 2 * PATTERN_TABLE_VIS_SIDE * PATTERN_TABLE_VIS_SIDE;
        let mut i: usize = 0;
        while i < total
            invariant
                total == 2 * PATTERN_TABLE_VIS_SIDE * PATTERN_TABLE_VIS_SIDE,
                0 <= i <= total,
                old(self).wf(),
                palette_id <= 7,
                forall|k: int| 0 <= k < 4 ==> #[trigger] old(self)@.palette[palette_id * 4 + k] < 64,
                self@ == (PpuView { pattern_vis: self@.pattern_vis, ..old(self)@ }),
                self@.pattern_vis.len() == total,
                forall|j: int|
                    0 <= j < i ==> self@.pattern_vis[j] == #[trigger] old(self)@.pattern_tables_drawn(
                        palette_id,
                    )[j],
            decreases total - i,
        {
            let t = i / 16384;
            let x = (i % 16384) / 128;
            let y = i % 128;
            let pixel_col = (x % 8) as u8;
            let addr = (t * 4096 + (x / 8) * 16 + (y / 8) * 256 + y % 8) as u16;
            let lsb = match self.read_from_ppu_bus(addr) {
                Ok(b) => b,
                Err(_) => 0,
            };
            let msb = match self.read_from_ppu_bus(addr + 8) {
                Ok(b) => b,
                Err(_) => 0,
            };
            let pixel_value_lsb = bitwise_utils::get_bit(lsb, 7 - pixel_col);
            let pixel_value_msb = bitwise_utils::get_bit(msb, 7 - pixel_col);
            proof {
                lemma_fetch_bit_facts(0, 0, 0, 0, 0, 0, 0, pixel_value_lsb, pixel_value_msb, 0);
            }
            let pixel_value = (pixel_value_msb << 1) + pixel_value_lsb;
            assert(pixel_value == old(self)@.pattern_pixel(t as int, x as int, y as int));
            assert(old(self)@.palette[palette_id * 4 + pixel_value] < 64);
            let color = self.get_color_from_palette(pixel_value, palette_id);
            self.pattern_tables_vis_buffer.set(i, color);
            i = i + 1;
        }
        assert(self@ =~= (PpuView {
            pattern_vis: old(self)@.pattern_tables_drawn(palette_id),
            ..old(self)@
        }));
    }
}

impl PpuView {
    /// The PPU cycles left until the frame is completed; none once it is.
    pub open spec fn cycles_to_frame_end(self) -> int {
        if self.frame_render_complete {
            0
        } else {
            (260 - self.scan_line) * 341 + (340 - self.cycle) + 1
        }
    }
}

/// A PPU cycle either completes the frame or brings its end nearer, by one
/// cycle (two where the odd frame skips the first cycle of scanline 0); a
/// completed frame stays completed.
pub proof fn lemma_clock_moves_on(p: PpuView)
    requires
        -1 <= p.scan_line <= 260,
        0 <= p.cycle <= 340,
    ensures
        p.frame_render_complete ==> p.clock().frame_render_complete,
        !p.frame_render_complete ==> p.clock().frame_render_complete || 1
            <= p.clock().cycles_to_frame_end() < p.cycles_to_frame_end(),
        -1 <= p.clock().scan_line <= 260,
        0 <= p.clock().cycle <= 340,
        !p.frame_render_complete && p.clock().frame_render_complete ==> p.clock().scan_line == -1
            && p.clock().cycle == 0,
        p.scan_line == -1 && p.cycle < 340 ==> p.clock().scan_line == -1 && p.clock().cycle
            == p.cycle + 1,
{
    reveal(PpuView::clock);
    reveal(PpuView::visible_work);
    reveal(PpuView::composed);
    let s = p.scanline_work().vblank_work();
    assert(s.scan_line == p.scan_line);
    assert(s.frame_render_complete == p.frame_render_complete);
    assert(s.cycle == p.cycle || (p.scan_line == 0 && p.cycle == 0 && s.cycle == 1));
    let t = s.composed().2;
    assert(t.scan_line == s.scan_line && t.cycle == s.cycle && t.frame_render_complete
        == s.frame_render_complete);
}

impl PpuView {
    /// The position in the frame: 341 cycles to a scanline, from scanline -1.
    pub open spec fn frame_position(self) -> int {
        (self.scan_line + 1) * 341 + self.cycle
    }

    /// The PPU cycles until the one that starts vertical blank (scanline 241,
    /// cycle 1), counted over the end of the frame if it has passed.
    pub open spec fn cycles_to_vblank_start(self) -> int {
        let target = 242 * 341 + 1;
        if self.frame_position() <= target {
            target - self.frame_position()
        } else {
            262 * 341 - self.frame_position() + target
        }
    }
}

/// A PPU cycle brings the start of vertical blank one or two cycles nearer;
/// only the cycle that starts it can raise the NMI request, and after it the
/// next start is a frame away.
pub proof fn lemma_clock_nears_vblank(p: PpuView)
    requires
        -1 <= p.scan_line <= 260,
        0 <= p.cycle <= 340,
    ensures
        p.cycles_to_vblank_start() > 0 ==> p.cycles_to_vblank_start() - 2
            <= p.clock().cycles_to_vblank_start() < p.cycles_to_vblank_start(),
        p.cycles_to_vblank_start() > 0 && !p.trigger_cpu_nmi ==> !p.clock().trigger_cpu_nmi,
        p.cycles_to_vblank_start() == 0 ==> p.clock().cycles_to_vblank_start() == 262 * 341 - 1,
{
    reveal(PpuView::clock);
    reveal(PpuView::visible_work);
    reveal(PpuView::composed);
    let s = p.scanline_work();
    assert(s.scan_line == p.scan_line);
    assert(s.trigger_cpu_nmi == p.trigger_cpu_nmi);
    assert(s.cycle == p.cycle || (p.scan_line == 0 && p.cycle == 0 && s.cycle == 1));
    let v = s.vblank_work();
    assert(v.scan_line == s.scan_line && v.cycle == s.cycle);
    let t = v.composed().2;
    assert(t.scan_line == v.scan_line && t.cycle == v.cycle && t.trigger_cpu_nmi
        == v.trigger_cpu_nmi);
}

/// A PPU cycle leaves the control and mask registers as they were: only CPU
/// writes change them.
pub proof fn lemma_clock_keeps_control(p: PpuView)
    ensures
        p.clock().controller == p.controller,
        p.clock().mask == p.mask,
{
    reveal(PpuView::clock);
    reveal(PpuView::visible_work);
    reveal(PpuView::composed);
}

} // verus!
