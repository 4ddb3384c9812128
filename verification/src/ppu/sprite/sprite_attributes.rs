use vstd::prelude::*;

use crate::ppu::palette::palette_table_index::PaletteTableIndex;

verus! {

/// The third byte of a sprite in OAM: `vhp. ..ii`.
#[derive(PartialEq, Eq, Clone, Copy, Debug, Structural)]
pub struct SpriteAttributes {
    flip_vertically: bool,
    flip_horizontally: bool,
    priority: Priority,
    palette_table_index: PaletteTableIndex,
}

impl SpriteAttributes {
    pub closed spec fn spec_flip_vertically(self) -> bool { self.flip_vertically }
    pub closed spec fn spec_flip_horizontally(self) -> bool { self.flip_horizontally }
    pub closed spec fn spec_priority(self) -> Priority { self.priority }
    pub closed spec fn spec_palette_table_index(self) -> PaletteTableIndex { self.palette_table_index }

    /// The attributes that a byte encodes.
    pub open spec fn spec_decodes(self, value: u8) -> bool {
        &&& self.spec_flip_vertically() == (value >= 128)
        &&& self.spec_flip_horizontally() == ((value / 64) % 2 == 1)
        &&& self.spec_priority() == Priority::spec_from_bool((value / 32) % 2 == 1)
        &&& self.spec_palette_table_index().spec_to_u8() == value % 4
    }

    pub fn new() -> (r: SpriteAttributes)
        ensures
            !r.spec_flip_vertically(),
            !r.spec_flip_horizontally(),
            r.spec_priority() == Priority::InFront,
            r.spec_palette_table_index() == PaletteTableIndex::Zero,
    {
        SpriteAttributes {
            flip_vertically: false,
            flip_horizontally: false,
            priority: Priority::InFront,
            palette_table_index: PaletteTableIndex::Zero,
        }
    }

    pub fn from_u8(value: u8) -> (r: SpriteAttributes)
        ensures
            r.spec_decodes(value),
    {
        let v = value & 0b1000_0000 != 0;
        let h = value & 0b0100_0000 != 0;
        let p = value & 0b0010_0000 != 0;
        let i = value & 0b11;
        assert(v == (value >= 128) && h == ((value / 64) % 2 == 1) && p == ((value / 32) % 2 == 1)
            && i == value % 4) by (bit_vector)
            requires
                v == (value & 0b1000_0000 != 0),
                h == (value & 0b0100_0000 != 0),
                p == (value & 0b0010_0000 != 0),
                i == value & 0b11,
        ;
        SpriteAttributes {
            flip_vertically: v,
            flip_horizontally: h,
            priority: Priority::from_bool(p),
            palette_table_index: PaletteTableIndex::from_u8(i),
        }
    }

    pub fn flip_vertically(self) -> (r: bool)
        ensures
            r == self.spec_flip_vertically(),
    {
        self.flip_vertically
    }

    pub fn flip_horizontally(self) -> (r: bool)
        ensures
            r == self.spec_flip_horizontally(),
    {
        self.flip_horizontally
    }

    pub fn priority(self) -> (r: Priority)
        ensures
            r == self.spec_priority(),
    {
        self.priority
    }

    pub fn palette_table_index(self) -> (r: PaletteTableIndex)
        ensures
            r == self.spec_palette_table_index(),
    {
        self.palette_table_index
    }
}

/// Whether a sprite is drawn in front of or behind the background.
#[derive(PartialEq, Eq, Clone, Copy, Debug, Structural)]
pub enum Priority {
    InFront,
    Behind,
}

impl Priority {
    pub open spec fn spec_from_bool(value: bool) -> Priority {
        if value {
            Priority::Behind
        } else {
            Priority::InFront
        }
    }

    /// A set priority bit puts the sprite behind the background.
    pub fn from_bool(value: bool) -> (r: Priority)
        ensures
            r == Self::spec_from_bool(value),
    {
        if value {
            Priority::Behind
        } else {
            Priority::InFront
        }
    }
}

impl Default for Priority {
    fn default() -> (r: Priority)
        ensures
            r == Priority::InFront,
    {
        Priority::InFront
    }
}

} // verus!
