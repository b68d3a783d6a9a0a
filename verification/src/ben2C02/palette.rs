use vstd::prelude::*;
use crate::graphics::Color;

verus! {

/// The 64 colours of the NES master palette, indexed by a 6-bit colour code.
pub open spec fn nes_palette() -> Seq<Color> {
    seq![
        Color { red: 84, green: 84, blue: 84 },
        Color { red: 0, green: 30, blue: 116 },
        Color { red: 8, green: 16, blue: 144 },
        Color { red: 48, green: 0, blue: 136 },
        Color { red: 68, green: 0, blue: 100 },
        Color { red: 92, green: 0, blue: 48 },
        Color { red: 84, green: 4, blue: 0 },
        Color { red: 60, green: 24, blue: 0 },
        Color { red: 32, green: 42, blue: 0 },
        Color { red: 8, green: 58, blue: 0 },
        Color { red: 0, green: 64, blue: 0 },
        Color { red: 0, green: 60, blue: 0 },
        Color { red: 0, green: 50, blue: 60 },
        Color { red: 0, green: 0, blue: 0 },
        Color { red: 0, green: 0, blue: 0 },
        Color { red: 0, green: 0, blue: 0 },
        Color { red: 152, green: 150, blue: 152 },
        Color { red: 8, green: 76, blue: 196 },
        Color { red: 48, green: 50, blue: 236 },
        Color { red: 92, green: 30, blue: 228 },
        Color { red: 136, green: 20, blue: 176 },
        Color { red: 160, green: 20, blue: 100 },
        Color { red: 152, green: 34, blue: 32 },
        Color { red: 120, green: 60, blue: 0 },
        Color { red: 84, green: 90, blue: 0 },
        Color { red: 40, green: 114, blue: 0 },
        Color { red: 8, green: 124, blue: 0 },
        Color { red: 0, green: 118, blue: 40 },
        Color { red: 0, green: 102, blue: 120 },
        Color { red: 0, green: 0, blue: 0 },
        Color { red: 0, green: 0, blue: 0 },
        Color { red: 0, green: 0, blue: 0 },
        Color { red: 236, green: 238, blue: 236 },
        Color { red: 76, green: 154, blue: 236 },
        Color { red: 120, green: 124, blue: 236 },
        Color { red: 176, green: 98, blue: 236 },
        Color { red: 228, green: 84, blue: 236 },
        Color { red: 236, green: 88, blue: 180 },
        Color { red: 236, green: 106, blue: 100 },
        Color { red: 212, green: 136, blue: 32 },
        Color { red: 160, green: 170, blue: 0 },
        Color { red: 116, green: 196, blue: 0 },
        Color { red: 76, green: 208, blue: 32 },
        Color { red: 56, green: 204, blue: 108 },
        Color { red: 56, green: 180, blue: 204 },
        Color { red: 60, green: 60, blue: 60 },
        Color { red: 0, green: 0, blue: 0 },
        Color { red: 0, green: 0, blue: 0 },
        Color { red: 236, green: 238, blue: 236 },
        Color { red: 168, green: 204, blue: 236 },
        Color { red: 188, green: 188, blue: 236 },
        Color { red: 212, green: 178, blue: 236 },
        Color { red: 236, green: 174, blue: 236 },
        Color { red: 236, green: 174, blue: 212 },
        Color { red: 236, green: 180, blue: 176 },
        Color { red: 228, green: 196, blue: 144 },
        Color { red: 204, green: 210, blue: 120 },
        Color { red: 180, green: 222, blue: 120 },
        Color { red: 168, green: 226, blue: 144 },
        Color { red: 152, green: 226, blue: 180 },
        Color { red: 160, green: 214, blue: 228 },
        Color { red: 160, green: 162, blue: 160 },
        Color { red: 0, green: 0, blue: 0 },
        Color { red: 0, green: 0, blue: 0 },
    ]
}

/// The NES master palette as 64 colours.
pub fn create_palette_vis_buffer() -> (buffer: [Color; 64])
    ensures
        buffer@ == nes_palette(),
{
    let mut buffer = [Color::new(0, 0, 0);64];
    // Colour values as used by the olcNES emulator of David Barr (javidx9).
    buffer[0x00] = Color::new(84, 84, 84);
    buffer[0x01] = Color::new(0, 30, 116);
    buffer[0x02] = Color::new(8, 16, 144);
    buffer[0x03] = Color::new(48, 0, 136);
    buffer[0x04] = Color::new(68, 0, 100);
    buffer[0x05] = Color::new(92, 0, 48);
    buffer[0x06] = Color::new(84, 4, 0);
    buffer[0x07] = Color::new(60, 24, 0);
    buffer[0x08] = Color::new(32, 42, 0);
    buffer[0x09] = Color::new(8, 58, 0);
    buffer[0x0A] = Color::new(0, 64, 0);
    buffer[0x0B] = Color::new(0, 60, 0);
    buffer[0x0C] = Color::new(0, 50, 60);
    buffer[0x0D] = Color::new(0, 0, 0);
    buffer[0x0E] = Color::new(0, 0, 0);
    buffer[0x0F] = Color::new(0, 0, 0);
    buffer[0x10] = Color::new(152, 150, 152);
    buffer[0x11] = Color::new(8, 76, 196);
    buffer[0x12] = Color::new(48, 50, 236);
    buffer[0x13] = Color::new(92, 30, 228);
    buffer[0x14] = Color::new(136, 20, 176);
    buffer[0x15] = Color::new(160, 20, 100);
    buffer[0x16] = Color::new(152, 34, 32);
    buffer[0x17] = Color::new(120, 60, 0);
    buffer[0x18] = Color::new(84, 90, 0);
    buffer[0x19] = Color::new(40, 114, 0);
    buffer[0x1A] = Color::new(8, 124, 0);
    buffer[0x1B] = Color::new(0, 118, 40);
    buffer[0x1C] = Color::new(0, 102, 120);
    buffer[0x1D] = Color::new(0, 0, 0);
    buffer[0x1E] = Color::new(0, 0, 0);
    buffer[0x1F] = Color::new(0, 0, 0);
    buffer[0x20] = Color::new(236, 238, 236);
    buffer[0x21] = Color::new(76, 154, 236);
    buffer[0x22] = Color::new(120, 124, 236);
    buffer[0x23] = Color::new(176, 98, 236);
    buffer[0x24] = Color::new(228, 84, 236);
    buffer[0x25] = Color::new(236, 88, 180);
    buffer[0x26] = Color::new(236, 106, 100);
    buffer[0x27] = Color::new(212, 136, 32);
    buffer[0x28] = Color::new(160, 170, 0);
    buffer[0x29] = Color::new(116, 196, 0);
    buffer[0x2A] = Color::new(76, 208, 32);
    buffer[0x2B] = Color::new(56, 204, 108);
    buffer[0x2C] = Color::new(56, 180, 204);
    buffer[0x2D] = Color::new(60, 60, 60);
    buffer[0x2E] = Color::new(0, 0, 0);
    buffer[0x2F] = Color::new(0, 0, 0);
    buffer[0x30] = Color::new(236, 238, 236);
    buffer[0x31] = Color::new(168, 204, 236);
    buffer[0x32] = Color::new(188, 188, 236);
    buffer[0x33] = Color::new(212, 178, 236);
    buffer[0x34] = Color::new(236, 174, 236);
    buffer[0x35] = Color::new(236, 174, 212);
    buffer[0x36] = Color::new(236, 180, 176);
    buffer[0x37] = Color::new(228, 196, 144);
    buffer[0x38] = Color::new(204, 210, 120);
    buffer[0x39] = Color::new(180, 222, 120);
    buffer[0x3A] = Color::new(168, 226, 144);
    buffer[0x3B] = Color::new(152, 226, 180);
    buffer[0x3C] = Color::new(160, 214, 228);
    buffer[0x3D] = Color::new(160, 162, 160);
    buffer[0x3E] = Color::new(0, 0, 0);
    buffer[0x3F] = Color::new(0, 0, 0);
    assert(buffer@ =~= nes_palette());
    buffer
}

} // verus!
