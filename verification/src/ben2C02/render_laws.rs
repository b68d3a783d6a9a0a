use vstd::prelude::*;
use super::PpuView;
use super::registers::{coarse_x_of, coarse_y_of, fine_y_of, nametable_x_of, nametable_y_of, lemma_vram_field_access, lemma_vram_fields_independent};
use super::rendering::{row_bit, sprites_on_line, sprites_covering_line, scroll_x_incremented, scroll_y_incremented, set_fine_y_of, set_coarse_y_of};
use super::SpriteObj;
use crate::utils::bitwise_utils::{bit8, bit16, with_bit16, lemma_selected_bits, lemma_set_bit_get_bit};

verus! {

/// Choosing the quadrant with two conditional shifts picks the same two bits
/// as one shift by twice the quadrant's number; the attribute and tile
/// addresses of a loopy address as arithmetic on its fields.
proof fn lemma_quadrant_shift(a: u8, cy: u16, cx: u16, v: u16)
    by (bit_vector)
    ensures
        0x23C0u16 | (nametable_y_of(v) << 11u16) | (nametable_x_of(v) << 10u16) | ((coarse_y_of(v)
            >> 2u16) << 3u16) | (coarse_x_of(v) >> 2u16) == 0x23C0 + 0x400 * (2 * nametable_y_of(v)
            + nametable_x_of(v)) + 8 * (coarse_y_of(v) / 4) + coarse_x_of(v) / 4,
        0x2000u16 | (v & 0x0FFF) == 0x2000 + 0x400 * (2 * nametable_y_of(v) + nametable_x_of(v))
            + 32 * coarse_y_of(v) + coarse_x_of(v),
        (if cx & 0x02 != 0 {
            (if cy & 0x02 != 0 {
                a >> 4u8
            } else {
                a
            }) >> 2u8
        } else {
            if cy & 0x02 != 0 {
                a >> 4u8
            } else {
                a
            }
        }) & 0x03 == (a >> ((4 * ((cy >> 1u16) & 1) + 2 * ((cx >> 1u16) & 1)) as u8)) & 0x03,
{
}

/// An attribute byte holds the palettes of the four 16x16 quadrants of its
/// 32x32 block, two bits each: top left in bits 0-1, top right in 2-3, bottom
/// left in 4-5, bottom right in 6-7. Bit 1 of the coarse x scroll picks the
/// right-hand quadrants, bit 1 of the coarse y scroll the bottom ones.
pub proof fn lemma_tile_palette_quadrant(p: PpuView, attribute: u8)
    ensures
        p.tile_palette(attribute) == (attribute >> ((4 * ((coarse_y_of(p.vram) >> 1u16) & 1) + 2
            * ((coarse_x_of(p.vram) >> 1u16) & 1)) as u8)) & 0x03,
{
    lemma_quadrant_shift(attribute, coarse_y_of(p.vram), coarse_x_of(p.vram), 0);
}

/// The pixel value (0-3) of sprite `i` of the scanline at the current column:
/// the leading bits of its high and low pattern rows.
pub open spec fn sprite_pixel(p: PpuView, i: int) -> u8 {
    (row_bit(p.sprite_msb, i) << 1u8) | row_bit(p.sprite_lsb, i)
}

/// Sprite `i` covers the current column with a non-transparent pixel.
pub open spec fn sprite_opaque_here(p: PpuView, i: int) -> bool {
    p.sprite_active(i) && sprite_pixel(p, i) != 0
}

/// Sprite `j` is the first sprite from `i` on that covers the current column
/// with a non-transparent pixel.
pub open spec fn first_opaque_sprite(p: PpuView, i: int, j: int) -> bool {
    &&& i <= j < p.sprites.len()
    &&& sprite_opaque_here(p, j)
    &&& forall|k: int| i <= k < j ==> !#[trigger] sprite_opaque_here(p, k)
}

/// The sprites of a scanline are looked at in order: the pixel found is
/// non-transparent exactly when some sprite covers the column with a
/// non-transparent pixel, and then it is the first such sprite's pixel, with
/// that sprite's palette (4 plus its attribute bits 0-1), in front of the
/// background exactly when its attribute bit 5 is 0, marked as sprite 0
/// exactly when it is the first sprite of the scanline.
#[verifier::spinoff_prover]
pub proof fn lemma_sprite_scan_first_opaque(p: PpuView, i: int, acc: (u8, u8, bool))
    requires
        0 <= i,
        acc.0 == 0,
    ensures
        ({
            let r = p.sprite_scan(i, acc);
            &&& (r.0 != 0) == (exists|j: int| first_opaque_sprite(p, i, j))
            &&& forall|j: int|
                #![trigger first_opaque_sprite(p, i, j)]
                first_opaque_sprite(p, i, j) ==> {
                    &&& r.0 == sprite_pixel(p, j)
                    &&& r.1 == ((p.sprites[j].attributes & 0x03) + 4) as u8
                    &&& r.2 == (p.sprites[j].attributes & 0x20 == 0)
                    &&& r.3 == (j == 0)
                }
        }),
    decreases p.sprites.len() - i,
{
    let r = p.sprite_scan(i, acc);
    if i >= p.sprites.len() {
        assert(!(exists|j: int| first_opaque_sprite(p, i, j)));
    } else if sprite_opaque_here(p, i) {
        assert(first_opaque_sprite(p, i, i));
        assert forall|j: int| #![trigger first_opaque_sprite(p, i, j)] first_opaque_sprite(p, i, j) implies j == i by {
            if j > i {
                assert(!sprite_opaque_here(p, i));
            }
        }
    } else {
        let v = sprite_pixel(p, i);
        let next = if p.sprite_active(i) {
            (v, ((p.sprites[i].attributes & 0x03) + 4) as u8, p.sprites[i].attributes & 0x20 == 0)
        } else {
            acc
        };
        lemma_sprite_scan_first_opaque(p, i + 1, next);
        assert(r == p.sprite_scan(i + 1, next));
        assert forall|j: int| first_opaque_sprite(p, i, j) <==> first_opaque_sprite(p, i + 1, j) by {
            if first_opaque_sprite(p, i + 1, j) {
                assert forall|k: int| i <= k < j implies !#[trigger] sprite_opaque_here(p, k) by {
                    if k > i {
                        assert(i + 1 <= k < j);
                    }
                }
            }
            if first_opaque_sprite(p, i, j) {
                assert(j != i);
            }
        }
        if exists|j: int| first_opaque_sprite(p, i, j) {
            let j = choose|j: int| first_opaque_sprite(p, i, j);
            assert(first_opaque_sprite(p, i + 1, j));
        }
        let i1 = i + 1;
        if exists|j: int| first_opaque_sprite(p, i1, j) {
            let j = choose|j: int| first_opaque_sprite(p, i1, j);
            assert(first_opaque_sprite(p, i, j));
        }
    }
}

/// The pixel shown at a column: where a sprite and the background both have
/// a non-transparent pixel, the first such sprite's pixel and palette exactly
/// when bit 5 of its attributes is 0, the background's otherwise; where only
/// one of them does, that one; where neither does, pixel 0 in palette 0.
#[verifier::spinoff_prover]
pub proof fn lemma_sprite_priority(p: PpuView)
    requires
        p.sprites_shown_here(),
    ensures
        ({
            let (bg, bg_pal) = p.background_pixel();
            let c = p.composed();
            &&& forall|j: int|
                #![trigger first_opaque_sprite(p, 0, j)]
                first_opaque_sprite(p, 0, j) ==> (c.0, c.1) == if bg == 0 || p.sprites[j].attributes
                    & 0x20 == 0 {
                    (sprite_pixel(p, j), ((p.sprites[j].attributes & 0x03) + 4) as u8)
                } else {
                    (bg, bg_pal)
                }
            &&& !(exists|j: int| first_opaque_sprite(p, 0, j)) ==> (c.0, c.1) == if bg == 0 {
                (0u8, 0u8)
            } else {
                (bg, bg_pal)
            }
        }),
{
    reveal(PpuView::composed);
    lemma_sprite_scan_first_opaque(p, 0, (0, 0, false));
}

/// The background pixel with background rendering on: bit 15 - fine x of
/// the high and low pattern shifters make the pixel value (high bit first),
/// the same bits of the attribute shifters its palette.
#[verifier::spinoff_prover]
pub proof fn lemma_background_pixel(p: PpuView)
    requires
        p.fine_x < 8,
        bit8(p.mask, 3) != 0,
    ensures
        ({
            let n = (15 - p.fine_x) as u8;
            let (pix, pal) = p.background_pixel();
            &&& pix == 2 * bit16(p.bg_shifter_pattern_hi, n) + bit16(p.bg_shifter_pattern_lo, n)
            &&& pal == 2 * bit16(p.bg_shifter_attrib_hi, n) + bit16(p.bg_shifter_attrib_lo, n)
        }),
{
    let k = p.fine_x as u16;
    let mux: u16 = 0x8000u16 >> k;
    let b = |w: u16| -> u8 { if w & mux > 0 { 1u8 } else { 0u8 } };
    lemma_selected_bits(0, p.bg_shifter_pattern_lo, k, b(p.bg_shifter_pattern_hi), b(p.bg_shifter_pattern_lo));
    lemma_selected_bits(0, p.bg_shifter_pattern_hi, k, 0, 0);
    lemma_selected_bits(0, p.bg_shifter_attrib_lo, k, b(p.bg_shifter_attrib_hi), b(p.bg_shifter_attrib_lo));
    lemma_selected_bits(0, p.bg_shifter_attrib_hi, k, 0, 0);
}

/// Sprite `o` covers scanline `scan`: the line lies within the sprite's
/// height (16 rows for tall sprites, 8 otherwise) from its top row `y`.
pub open spec fn covers_line(o: SpriteObj, scan: i16, tall: bool) -> bool {
    o.y <= scan && scan < o.y + if tall {
        16int
    } else {
        8int
    }
}

/// The sprites found on a scanline among the first `n` OAM entries all cover
/// it; there are as many as cover it, but at most 8.
pub proof fn lemma_sprites_found(oam: Seq<SpriteObj>, scan: i16, tall: bool, n: nat)
    requires
        n <= oam.len(),
    ensures
        ({
            let found = sprites_on_line(oam, scan, tall, n);
            let count = sprites_covering_line(oam, scan, tall, n);
            &&& forall|i: int| 0 <= i < found.len() ==> covers_line(#[trigger] found[i], scan, tall)
            &&& found.len() == if count < 8 {
                count
            } else {
                8
            }
        }),
    decreases n,
{
    if n > 0 {
        lemma_sprites_found(oam, scan, tall, (n - 1) as nat);
    }
}

/// Sprite evaluation at the end of a visible scanline keeps the sprites that
/// cover the scanline, at most 8; it sets the sprite-overflow flag (status
/// bit 5) when more than 8 of the 64 cover it and leaves it as it was
/// otherwise; sprite 0 can hit exactly when it covers the scanline.
#[verifier::spinoff_prover]
pub proof fn lemma_sprite_evaluation(p: PpuView)
    requires
        p.oam.len() == 64,
    ensures
        ({
            let tall = bit8(p.controller, 5) != 0;
            let e = p.sprites_evaluated();
            let count = sprites_covering_line(p.oam, p.scan_line, tall, 64);
            &&& forall|i: int| 0 <= i < e.sprites.len() ==> covers_line(#[trigger] e.sprites[i], p.scan_line, tall)
            &&& e.sprites.len() == if count < 8 {
                count
            } else {
                8
            }
            &&& bit8(e.status, 5) == if count > 8 {
                1
            } else {
                bit8(p.status, 5)
            }
            &&& e.sprite_zero_hit_possible == covers_line(p.oam[0], p.scan_line, tall)
        }),
{
    let tall = bit8(p.controller, 5) != 0;
    lemma_sprites_found(p.oam, p.scan_line, tall, 64);
    lemma_set_bit_get_bit(p.status, 5, 1, 5);
}

/// The sprite-zero hit (status bit 6) is set at a column exactly when sprite
/// 0 is the first sprite covering it with a non-transparent pixel, the
/// background pixel there is non-transparent, sprite 0 was found on the
/// scanline, both renderings are on, and the column lies in cycles 1-257
/// (9-257 when either leftmost 8 columns are hidden); otherwise the flag is
/// left as it was.
#[verifier::spinoff_prover]
pub proof fn lemma_sprite_zero_hit(p: PpuView)
    requires
        p.sprites_shown_here(),
    ensures
        bit8(p.composed().2.status, 6) == if p.background_pixel().0 != 0 && first_opaque_sprite(
            p,
            0,
            0,
        ) && p.sprite_zero_hit_possible && bit8(p.mask, 3) != 0 && if bit8(p.mask, 1) == 0
            && bit8(p.mask, 2) == 0 {
            9 <= p.cycle < 258
        } else {
            1 <= p.cycle < 258
        } {
            1
        } else {
            bit8(p.status, 6)
        },
{
    reveal(PpuView::composed);
    lemma_sprite_scan_first_opaque(p, 0, (0, 0, false));
    lemma_set_bit_get_bit(p.status, 6, 1, 6);
    if exists|j: int| first_opaque_sprite(p, 0, j) {
        let j = choose|j: int| first_opaque_sprite(p, 0, j);
        if first_opaque_sprite(p, 0, 0) {
            assert(j == 0);
        }
    }
}

/// Moving the VRAM address one tile right: the coarse x counts on modulo
/// 32, and the horizontal name table switches exactly when it wraps; the
/// vertical fields stay.
#[verifier::spinoff_prover]
pub proof fn lemma_scroll_x_increment(v: u16)
    ensures
        ({
            let r = scroll_x_incremented(v);
            &&& coarse_x_of(r) == (coarse_x_of(v) + 1) % 32
            &&& nametable_x_of(r) == if coarse_x_of(v) == 31 {
                if nametable_x_of(v) == 0 {
                    1u16
                } else {
                    0u16
                }
            } else {
                nametable_x_of(v)
            }
            &&& coarse_y_of(r) == coarse_y_of(v) && fine_y_of(r) == fine_y_of(v)
            &&& nametable_y_of(r) == nametable_y_of(v)
        }),
{
    lemma_vram_field_access(v, 0);
    let cx = coarse_x_of(v);
    if cx == 31 {
        let b: u16 = if nametable_x_of(v) == 0 {
            1
        } else {
            0
        };
        let v1 = with_bit16(v, 10, b as u8);
        lemma_vram_fields_independent(v, b);
        lemma_vram_fields_independent(v1, 0);
    } else {
        lemma_vram_fields_independent(v, (cx + 1) as u16);
    }
}

/// Moving the VRAM address one pixel row down within the 240 rows of a name
/// table: the row (8 times the coarse y plus the fine y) counts on modulo
/// 240, and the vertical name table switches exactly when it wraps; the
/// horizontal fields stay.
#[verifier::spinoff_prover]
pub proof fn lemma_scroll_y_increment(v: u16)
    requires
        coarse_y_of(v) < 30,
    ensures
        ({
            let r = scroll_y_incremented(v);
            let row = 8 * coarse_y_of(v) + fine_y_of(v);
            &&& 8 * coarse_y_of(r) + fine_y_of(r) == (row + 1) % 240
            &&& fine_y_of(r) < 8
            &&& nametable_y_of(r) == if row == 239 {
                if nametable_y_of(v) == 0 {
                    1u16
                } else {
                    0u16
                }
            } else {
                nametable_y_of(v)
            }
            &&& coarse_x_of(r) == coarse_x_of(v) && nametable_x_of(r) == nametable_x_of(v)
        }),
{
    lemma_vram_field_access(v, 0);
    let fy = fine_y_of(v);
    if fy < 7 {
        lemma_vram_fields_independent(v, (fy + 1) as u16);
        lemma_vram_field_access(set_fine_y_of(v, (fy + 1) as u16), 0);
    } else {
        let v1 = set_fine_y_of(v, 0);
        lemma_vram_fields_independent(v, 0);
        lemma_vram_field_access(v1, 0);
        let cy = coarse_y_of(v1);
        if cy == 29 {
            let b: u16 = if nametable_y_of(v1) == 0 {
                1
            } else {
                0
            };
            let v2 = with_bit16(v1, 11, b as u8);
            lemma_vram_fields_independent(v1, b);
            lemma_vram_fields_independent(v2, 0);
            lemma_vram_field_access(set_coarse_y_of(v2, 0), 0);
        } else {
            lemma_vram_fields_independent(v1, (cy + 1) as u16);
            lemma_vram_field_access(set_coarse_y_of(v1, (cy + 1) as u16), 0);
        }
    }
}

/// The attribute byte of a tile lies in the attribute table (0x3C0 bytes
/// into its name table, whose 0x400-byte block the name-table bits choose,
/// vertical first), one byte per 4x4 tiles, 8 to a row: at 8 times the
/// coarse y over 4 plus the coarse x over 4. The tile number fetched at the
/// start of a tile lies at 32 times the coarse y plus the coarse x in that
/// name table.
pub proof fn lemma_background_addresses(p: PpuView)
    ensures
        p.attribute_address() == 0x23C0 + 0x400 * (2 * nametable_y_of(p.vram) + nametable_x_of(
            p.vram,
        )) + 8 * (coarse_y_of(p.vram) / 4) + coarse_x_of(p.vram) / 4,
        0x2000 | (p.vram & 0x0FFF) == 0x2000 + 0x400 * (2 * nametable_y_of(p.vram) + nametable_x_of(
            p.vram,
        )) + 32 * coarse_y_of(p.vram) + coarse_x_of(p.vram),
{
    lemma_quadrant_shift(0, 0, 0, p.vram);
}

/// The first fetches of each 8-cycle tile period of a visible scanline: at
/// its first cycle the tile number from the name-table byte of the tile
/// (after the shifters take the previous tile), at its third the 2-bit
/// palette of the tile's quadrant out of its attribute byte.
#[verifier::spinoff_prover]
pub proof fn lemma_tile_fetches(p: PpuView)
    ensures
        (p.cycle - 1) % 8 == 0 ==> {
            let s = p.shifters_loaded();
            p.background_fetch().bg_next_tile_id == s.bus_value(
                (0x2000 + 0x400 * (2 * nametable_y_of(s.vram) + nametable_x_of(s.vram)) + 32
                    * coarse_y_of(s.vram) + coarse_x_of(s.vram)) as u16,
            )
        },
        (p.cycle - 1) % 8 == 2 ==> {
            let attribute = p.bus_value(
                (0x23C0 + 0x400 * (2 * nametable_y_of(p.vram) + nametable_x_of(p.vram)) + 8 * (
                coarse_y_of(p.vram) / 4) + coarse_x_of(p.vram) / 4) as u16,
            );
            p.background_fetch().bg_next_tile_attribute == (attribute >> ((4 * ((coarse_y_of(
                p.vram,
            ) >> 1u16) & 1) + 2 * ((coarse_x_of(p.vram) >> 1u16) & 1)) as u8)) & 0x03
        },
{
    lemma_background_addresses(p);
    lemma_background_addresses(p.shifters_loaded());
    lemma_tile_palette_quadrant(p, p.bus_value(p.attribute_address()));
}

} // verus!
