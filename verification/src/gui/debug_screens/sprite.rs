use vstd::prelude::*;

use crate::ppu::pixel_index::PixelColumn;
use crate::ppu::sprite::sprite_attributes::{Priority, SpriteAttributes};
use crate::ppu::sprite::sprite_y::SpriteY;
use crate::ppu::tile_number::TileNumber;

verus! {

/// Byte `n` (0 is the most significant) of a big-endian u32.
pub open spec fn be_byte(value: u32, n: int) -> u8 {
    if n == 0 {
        ((value / 16777216) % 256) as u8
    } else if n == 1 {
        ((value / 65536) % 256) as u8
    } else if n == 2 {
        ((value / 256) % 256) as u8
    } else {
        ((value / 1) % 256) as u8
    }
}

/// The u32 whose big-endian bytes are the four given ones.
pub fn u32_from_be_bytes(b0: u8, b1: u8, b2: u8, b3: u8) -> (r: u32)
    ensures
        be_byte(r, 0) == b0,
        be_byte(r, 1) == b1,
        be_byte(r, 2) == b2,
        be_byte(r, 3) == b3,
{
    let r = ((b0 as u32) << 24) | ((b1 as u32) << 16) | ((b2 as u32) << 8) | (b3 as u32);
    assert(((r / 16777216) % 256) as u8 == b0 && ((r / 65536) % 256) as u8 == b1
        && ((r / 256) % 256) as u8 == b2 && ((r / 1) % 256) as u8 == b3) by (bit_vector)
        requires
            r == ((b0 as u32) << 24) | ((b1 as u32) << 16) | ((b2 as u32) << 8) | (b3 as u32),
    ;
    r
}

/// The four bytes of a sprite in OAM, for debug windows only: the PPU never holds sprites in this form.
#[derive(Clone, Copy, Debug)]
pub struct Sprite {
    x_coordinate: PixelColumn,
    y_coordinate: SpriteY,
    tile_number: TileNumber,
    attributes: SpriteAttributes,
}

impl Sprite {
    pub closed spec fn spec_x(self) -> PixelColumn { self.x_coordinate }
    pub closed spec fn spec_y(self) -> SpriteY { self.y_coordinate }
    pub closed spec fn spec_tile_number(self) -> TileNumber { self.tile_number }
    pub closed spec fn spec_attributes(self) -> SpriteAttributes { self.attributes }

    /// The bytes, most significant first, are: y, tile number, attributes, x.
    pub fn from_u32(value: u32) -> (r: Sprite)
        ensures
            r.spec_y()@ == be_byte(value, 0),
            r.spec_tile_number()@ == be_byte(value, 1),
            r.spec_attributes().spec_decodes(be_byte(value, 2)),
            r.spec_x()@ == be_byte(value, 3),
    {
        let y = (value >> 24) as u8;
        let t = ((value >> 16) & 0xFF) as u8;
        let a = ((value >> 8) & 0xFF) as u8;
        let x = (value & 0xFF) as u8;
        assert(y == ((value / 16777216) % 256) as u8 && t == ((value / 65536) % 256) as u8
            && a == ((value / 256) % 256) as u8 && x == ((value / 1) % 256) as u8) by (bit_vector)
            requires
                y == (value >> 24) as u8,
                t == ((value >> 16) & 0xFF) as u8,
                a == ((value >> 8) & 0xFF) as u8,
                x == (value & 0xFF) as u8,
        ;
        Sprite {
            x_coordinate: PixelColumn::new(x),
            y_coordinate: SpriteY::new(y),
            tile_number: TileNumber::new(t),
            attributes: SpriteAttributes::from_u8(a),
        }
    }

    pub fn priority(self) -> (r: Priority)
        ensures
            r == self.spec_attributes().spec_priority(),
    {
        self.attributes.priority()
    }

    pub fn tile_number(self) -> (r: TileNumber)
        ensures
            r == self.spec_tile_number(),
    {
        self.tile_number
    }
}

} // verus!
