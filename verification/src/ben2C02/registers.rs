use vstd::prelude::*;
use crate::utils::bitwise_utils;
use crate::utils::bitwise_utils::{bit8, with_bit8, bits16, with_bits16, with_bit16};

verus! {

/// The PPU status register: bit 5 sprite overflow, bit 6 sprite-zero hit, bit 7 vertical blank.
#[derive(Clone, Copy, Debug, PartialEq, Eq, Structural)]
pub struct StatusRegister {
    pub flags: u8,
}
impl StatusRegister {
    pub(crate) fn new() -> (r: StatusRegister)
        ensures
            r.flags == 0,
    {
        StatusRegister { flags: 0 }
    }

    pub fn get_sprite_overflow(&self) -> (r: u8)
        ensures
            r == bit8(self.flags, 5),
            r <= 1,
    {
        bitwise_utils::get_bit(self.flags, 5)
    }

    pub(crate) fn set_sprite_overflow(&mut self, value: u8)
        requires
            value <= 1,
        ensures
            final(self).flags == with_bit8(old(self).flags, 5, value),
    {
        bitwise_utils::set_bit(&mut self.flags, 5, value);
    }

    pub fn get_sprite_zero_hit(&self) -> (r: u8)
        ensures
            r == bit8(self.flags, 6),
            r <= 1,
    {
        bitwise_utils::get_bit(self.flags, 6)
    }

    pub(crate) fn set_sprite_zero_hit(&mut self, value: u8)
        requires
            value <= 1,
        ensures
            final(self).flags == with_bit8(old(self).flags, 6, value),
    {
        bitwise_utils::set_bit(&mut self.flags, 6, value);
    }

    pub fn get_vertical_blank(&self) -> (r: u8)
        ensures
            r == bit8(self.flags, 7),
            r <= 1,
    {
        bitwise_utils::get_bit(self.flags, 7)
    }

    pub(crate) fn set_vertical_blank(&mut self, value: u8)
        requires
            value <= 1,
        ensures
            final(self).flags == with_bit8(old(self).flags, 7, value),
    {
        bitwise_utils::set_bit(&mut self.flags, 7, value);
    }
}

/// The PPU mask register, from bit 0: grayscale, background in the leftmost 8 pixels, sprites in the leftmost 8 pixels, background, sprites, red, green and blue emphasis.
#[derive(Clone, Copy, Debug, PartialEq, Eq, Structural)]
pub struct MaskRegister {
    pub flags: u8,
}
impl MaskRegister {
    pub(crate) fn new() -> (r: MaskRegister)
        ensures
            r.flags == 0,
    {
        MaskRegister { flags: 0 }
    }

    pub fn get_grayscale(&self) -> (r: u8)
        ensures
            r == bit8(self.flags, 0),
            r <= 1,
    {
        bitwise_utils::get_bit(self.flags, 0)
    }

    pub(crate) fn set_grayscale(&mut self, value: u8)
        requires
            value <= 1,
        ensures
            final(self).flags == with_bit8(old(self).flags, 0, value),
    {
        bitwise_utils::set_bit(&mut self.flags, 0, value);
    }

    pub fn get_render_background_left(&self) -> (r: u8)
        ensures
            r == bit8(self.flags, 1),
            r <= 1,
    {
        bitwise_utils::get_bit(self.flags, 1)
    }

    pub(crate) fn set_render_background_left(&mut self, value: u8)
        requires
            value <= 1,
        ensures
            final(self).flags == with_bit8(old(self).flags, 1, value),
    {
        bitwise_utils::set_bit(&mut self.flags, 1, value);
    }

    pub fn get_render_sprites_left(&self) -> (r: u8)
        ensures
            r == bit8(self.flags, 2),
            r <= 1,
    {
        bitwise_utils::get_bit(self.flags, 2)
    }

    pub(crate) fn set_render_sprites_left(&mut self, value: u8)
        requires
            value <= 1,
        ensures
            final(self).flags == with_bit8(old(self).flags, 2, value),
    {
        bitwise_utils::set_bit(&mut self.flags, 2, value);
    }

    pub fn get_render_background(&self) -> (r: u8)
        ensures
            r == bit8(self.flags, 3),
            r <= 1,
    {
        bitwise_utils::get_bit(self.flags, 3)
    }

    pub(crate) fn set_render_background(&mut self, value: u8)
        requires
            value <= 1,
        ensures
            final(self).flags == with_bit8(old(self).flags, 3, value),
    {
        bitwise_utils::set_bit(&mut self.flags, 3, value);
    }

    pub fn get_render_sprites(&self) -> (r: u8)
        ensures
            r == bit8(self.flags, 4),
            r <= 1,
    {
        bitwise_utils::get_bit(self.flags, 4)
    }

    pub(crate) fn set_render_sprites(&mut self, value: u8)
        requires
            value <= 1,
        ensures
            final(self).flags == with_bit8(old(self).flags, 4, value),
    {
        bitwise_utils::set_bit(&mut self.flags, 4, value);
    }

    pub fn get_enhance_red(&self) -> (r: u8)
        ensures
            r == bit8(self.flags, 5),
            r <= 1,
    {
        bitwise_utils::get_bit(self.flags, 5)
    }

    pub(crate) fn set_enhance_red(&mut self, value: u8)
        requires
            value <= 1,
        ensures
            final(self).flags == with_bit8(old(self).flags, 5, value),
    {
        bitwise_utils::set_bit(&mut self.flags, 5, value);
    }

    pub fn get_enhance_green(&self) -> (r: u8)
        ensures
            r == bit8(self.flags, 6),
            r <= 1,
    {
        bitwise_utils::get_bit(self.flags, 6)
    }

    pub(crate) fn set_enhance_green(&mut self, value: u8)
        requires
            value <= 1,
        ensures
            final(self).flags == with_bit8(old(self).flags, 6, value),
    {
        bitwise_utils::set_bit(&mut self.flags, 6, value);
    }

    pub fn get_enhance_blue(&self) -> (r: u8)
        ensures
            r == bit8(self.flags, 7),
            r <= 1,
    {
        bitwise_utils::get_bit(self.flags, 7)
    }

    pub(crate) fn set_enhance_blue(&mut self, value: u8)
        requires
            value <= 1,
        ensures
            final(self).flags == with_bit8(old(self).flags, 7, value),
    {
        bitwise_utils::set_bit(&mut self.flags, 7, value);
    }
}

/// The PPU controller register, from bit 0: name table x, name table y, increment mode, sprite pattern table, background pattern table, sprite size, slave mode, NMI at vertical blank.
#[derive(Clone, Copy, Debug, PartialEq, Eq, Structural)]
pub struct ControllerRegister {
    pub flags: u8,
}
impl ControllerRegister {
    pub(crate) fn new() -> (r: ControllerRegister)
        ensures
            r.flags == 0,
    {
        ControllerRegister { flags: 0 }
    }

    pub fn get_nametable_x(&self) -> (r: u8)
        ensures
            r == bit8(self.flags, 0),
            r <= 1,
    {
        bitwise_utils::get_bit(self.flags, 0)
    }

    pub(crate) fn set_nametable_x(&mut self, value: u8)
        requires
            value <= 1,
        ensures
            final(self).flags == with_bit8(old(self).flags, 0, value),
    {
        bitwise_utils::set_bit(&mut self.flags, 0, value);
    }

    pub fn get_nametable_y(&self) -> (r: u8)
        ensures
            r == bit8(self.flags, 1),
            r <= 1,
    {
        bitwise_utils::get_bit(self.flags, 1)
    }

    pub(crate) fn set_nametable_y(&mut self, value: u8)
        requires
            value <= 1,
        ensures
            final(self).flags == with_bit8(old(self).flags, 1, value),
    {
        bitwise_utils::set_bit(&mut self.flags, 1, value);
    }

    pub fn get_increment_mode(&self) -> (r: u8)
        ensures
            r == bit8(self.flags, 2),
            r <= 1,
    {
        bitwise_utils::get_bit(self.flags, 2)
    }

    pub(crate) fn set_increment_mode(&mut self, value: u8)
        requires
            value <= 1,
        ensures
            final(self).flags == with_bit8(old(self).flags, 2, value),
    {
        bitwise_utils::set_bit(&mut self.flags, 2, value);
    }

    pub fn get_pattern_sprite(&self) -> (r: u8)
        ensures
            r == bit8(self.flags, 3),
            r <= 1,
    {
        bitwise_utils::get_bit(self.flags, 3)
    }

    pub(crate) fn set_pattern_sprite(&mut self, value: u8)
        requires
            value <= 1,
        ensures
            final(self).flags == with_bit8(old(self).flags, 3, value),
    {
        bitwise_utils::set_bit(&mut self.flags, 3, value);
    }

    pub fn get_pattern_background(&self) -> (r: u8)
        ensures
            r == bit8(self.flags, 4),
            r <= 1,
    {
        bitwise_utils::get_bit(self.flags, 4)
    }

    pub(crate) fn set_pattern_background(&mut self, value: u8)
        requires
            value <= 1,
        ensures
            final(self).flags == with_bit8(old(self).flags, 4, value),
    {
        bitwise_utils::set_bit(&mut self.flags, 4, value);
    }

    pub fn get_sprite_size(&self) -> (r: u8)
        ensures
            r == bit8(self.flags, 5),
            r <= 1,
    {
        bitwise_utils::get_bit(self.flags, 5)
    }

    pub(crate) fn set_sprite_size(&mut self, value: u8)
        requires
            value <= 1,
        ensures
            final(self).flags == with_bit8(old(self).flags, 5, value),
    {
        bitwise_utils::set_bit(&mut self.flags, 5, value);
    }

    pub fn get_slave_mode(&self) -> (r: u8)
        ensures
            r == bit8(self.flags, 6),
            r <= 1,
    {
        bitwise_utils::get_bit(self.flags, 6)
    }

    pub(crate) fn set_slave_mode(&mut self, value: u8)
        requires
            value <= 1,
        ensures
            final(self).flags == with_bit8(old(self).flags, 6, value),
    {
        bitwise_utils::set_bit(&mut self.flags, 6, value);
    }

    pub fn get_enable_nmi(&self) -> (r: u8)
        ensures
            r == bit8(self.flags, 7),
            r <= 1,
    {
        bitwise_utils::get_bit(self.flags, 7)
    }

    pub(crate) fn set_enable_nmi(&mut self, value: u8)
        requires
            value <= 1,
        ensures
            final(self).flags == with_bit8(old(self).flags, 7, value),
    {
        bitwise_utils::set_bit(&mut self.flags, 7, value);
    }
}


/// The coarse x scroll (tile column, 0-31): bits 0-4 of a loopy register.
pub open spec fn coarse_x_of(flags: u16) -> u16 {
    flags & 0x001F
}

/// The coarse y scroll (tile row, 0-31): bits 5-9.
pub open spec fn coarse_y_of(flags: u16) -> u16 {
    (flags >> 5u16) & 0x001F
}

/// The horizontal name table select: bit 10.
pub open spec fn nametable_x_of(flags: u16) -> u16 {
    (flags >> 10u16) & 1
}

/// The vertical name table select: bit 11.
pub open spec fn nametable_y_of(flags: u16) -> u16 {
    (flags >> 11u16) & 1
}

/// The fine y scroll (pixel row within a tile, 0-7): bits 12-14.
pub open spec fn fine_y_of(flags: u16) -> u16 {
    (flags >> 12u16) & 0x0007
}

/// A "loopy" VRAM address register of the PPU. From bit 0: coarse x (5 bits),
/// coarse y (5 bits), name table x, name table y, fine y (3 bits), unused.
#[derive(Clone, Copy, Debug, PartialEq, Eq, Structural)]
pub struct VramRegister {
    pub flags: u16,
}

impl VramRegister {
    pub(crate) fn new() -> (r: VramRegister)
        ensures
            r.flags == 0,
    {
        VramRegister { flags: 0 }
    }

    pub fn get_coarse_x(&self) -> (r: u8)
        ensures
            r as u16 == coarse_x_of(self.flags),
            r < 32,
    {
        let bits = bitwise_utils::get_bits_16(self.flags, 0, 4);
        proof {
            lemma_vram_field_access(self.flags, bits);
        }
        (bits & 0xFF) as u8
    }

    pub(crate) fn set_coarse_x(&mut self, value: u8)
        requires
            value <= 0b11111,
        ensures
            final(self).flags == (old(self).flags & !0x001Fu16) | (value as u16),
    {
        proof {
            lemma_vram_field_access(self.flags, value as u16);
        }
        bitwise_utils::set_bits_16(&mut self.flags, 0, 4, value as u16);
    }

    pub fn get_coarse_y(&self) -> (r: u8)
        ensures
            r as u16 == coarse_y_of(self.flags),
            r < 32,
    {
        let bits = bitwise_utils::get_bits_16(self.flags, 5, 9);
        proof {
            lemma_vram_field_access(self.flags, bits);
        }
        (bits & 0xFF) as u8
    }

    pub(crate) fn set_coarse_y(&mut self, value: u8)
        requires
            value <= 0b11111,
        ensures
            final(self).flags == (old(self).flags & !0x03E0u16) | ((value as u16) << 5u16),
    {
        proof {
            lemma_vram_field_access(self.flags, value as u16);
        }
        bitwise_utils::set_bits_16(&mut self.flags, 5, 9, value as u16);
    }

    pub fn get_nametable_x(&self) -> (r: u8)
        ensures
            r as u16 == nametable_x_of(self.flags),
            r <= 1,
    {
        bitwise_utils::get_bit_16(self.flags, 10)
    }

    pub(crate) fn set_nametable_x(&mut self, value: u8)
        requires
            value <= 1,
        ensures
            final(self).flags == with_bit16(old(self).flags, 10, value),
    {
        bitwise_utils::set_bit_16(&mut self.flags, 10, value);
    }

    pub fn get_nametable_y(&self) -> (r: u8)
        ensures
            r as u16 == nametable_y_of(self.flags),
            r <= 1,
    {
        bitwise_utils::get_bit_16(self.flags, 11)
    }

    pub(crate) fn set_nametable_y(&mut self, value: u8)
        requires
            value <= 1,
        ensures
            final(self).flags == with_bit16(old(self).flags, 11, value),
    {
        bitwise_utils::set_bit_16(&mut self.flags, 11, value);
    }

    pub fn get_fine_y(&self) -> (r: u8)
        ensures
            r as u16 == fine_y_of(self.flags),
            r < 8,
    {
        let bits = bitwise_utils::get_bits_16(self.flags, 12, 14);
        proof {
            lemma_vram_field_access(self.flags, bits);
        }
        (bits & 0xFF) as u8
    }

    pub(crate) fn set_fine_y(&mut self, value: u8)
        requires
            value <= 0b111,
        ensures
            final(self).flags == (old(self).flags & !0x7000u16) | ((value as u16) << 12u16),
    {
        proof {
            lemma_vram_field_access(self.flags, value as u16);
        }
        bitwise_utils::set_bits_16(&mut self.flags, 12, 14, value as u16);
    }
}

/// Each field of a loopy register reads back what was last written to it, and
/// writing one field leaves every other field as it was.
pub proof fn lemma_vram_fields_independent(flags: u16, v: u16)
    by (bit_vector)
    ensures
        v <= 31 ==> coarse_x_of((flags & !0x001Fu16) | v) == v,
        v <= 31 ==> coarse_y_of((flags & !0x001Fu16) | v) == coarse_y_of(flags),
        v <= 31 ==> nametable_x_of((flags & !0x001Fu16) | v) == nametable_x_of(flags),
        v <= 31 ==> nametable_y_of((flags & !0x001Fu16) | v) == nametable_y_of(flags),
        v <= 31 ==> fine_y_of((flags & !0x001Fu16) | v) == fine_y_of(flags),
        v <= 31 ==> coarse_y_of((flags & !0x03E0u16) | (v << 5u16)) == v,
        v <= 31 ==> coarse_x_of((flags & !0x03E0u16) | (v << 5u16)) == coarse_x_of(flags),
        v <= 31 ==> nametable_x_of((flags & !0x03E0u16) | (v << 5u16)) == nametable_x_of(flags),
        v <= 31 ==> nametable_y_of((flags & !0x03E0u16) | (v << 5u16)) == nametable_y_of(flags),
        v <= 31 ==> fine_y_of((flags & !0x03E0u16) | (v << 5u16)) == fine_y_of(flags),
        v <= 7 ==> fine_y_of((flags & !0x7000u16) | (v << 12u16)) == v,
        v <= 7 ==> coarse_x_of((flags & !0x7000u16) | (v << 12u16)) == coarse_x_of(flags),
        v <= 7 ==> coarse_y_of((flags & !0x7000u16) | (v << 12u16)) == coarse_y_of(flags),
        v <= 7 ==> nametable_x_of((flags & !0x7000u16) | (v << 12u16)) == nametable_x_of(flags),
        v <= 7 ==> nametable_y_of((flags & !0x7000u16) | (v << 12u16)) == nametable_y_of(flags),
        v <= 1 ==> nametable_x_of(with_bit16(flags, 10, v as u8)) == v,
        v <= 1 ==> coarse_x_of(with_bit16(flags, 10, v as u8)) == coarse_x_of(flags),
        v <= 1 ==> coarse_y_of(with_bit16(flags, 10, v as u8)) == coarse_y_of(flags),
        v <= 1 ==> nametable_y_of(with_bit16(flags, 10, v as u8)) == nametable_y_of(flags),
        v <= 1 ==> fine_y_of(with_bit16(flags, 10, v as u8)) == fine_y_of(flags),
        v <= 1 ==> nametable_y_of(with_bit16(flags, 11, v as u8)) == v,
        v <= 1 ==> coarse_x_of(with_bit16(flags, 11, v as u8)) == coarse_x_of(flags),
        v <= 1 ==> coarse_y_of(with_bit16(flags, 11, v as u8)) == coarse_y_of(flags),
        v <= 1 ==> nametable_x_of(with_bit16(flags, 11, v as u8)) == nametable_x_of(flags),
        v <= 1 ==> fine_y_of(with_bit16(flags, 11, v as u8)) == fine_y_of(flags),
{
}

/// The field accessors of a loopy register: each field is the bit range that
/// the getter extracts, and each setter writes exactly its range.
pub(crate) proof fn lemma_vram_field_access(f: u16, v: u16)
    by (bit_vector)
    ensures
        bits16(f, 0, 4) == coarse_x_of(f),
        coarse_x_of(f) < 32,
        bits16(f, 5, 9) == coarse_y_of(f),
        coarse_y_of(f) < 32,
        bits16(f, 12, 14) == fine_y_of(f),
        fine_y_of(f) < 8,
        v < 256 ==> ((v & 0xFF) as u8) as u16 == v,
        v <= 31 ==> with_bits16(f, 0, 4, v) == (f & !0x001Fu16) | v,
        v <= 31 ==> with_bits16(f, 5, 9, v) == (f & !0x03E0u16) | (v << 5u16),
        v <= 7 ==> with_bits16(f, 12, 14, v) == (f & !0x7000u16) | (v << 12u16),
{
}

} // verus!
