use vstd::prelude::*;

verus! {

/// Which of the four palettes (of background or of sprites) a tile uses.
#[derive(PartialEq, Eq, Clone, Copy, Debug, Structural)]
pub enum PaletteTableIndex {
    Zero,
    One,
    Two,
    Three,
}

impl PaletteTableIndex {
    pub open spec fn spec_to_u8(self) -> u8 {
        match self {
            PaletteTableIndex::Zero => 0,
            PaletteTableIndex::One => 1,
            PaletteTableIndex::Two => 2,
            PaletteTableIndex::Three => 3,
        }
    }

    /// The value must fit in two bits.
    pub fn from_u8(value: u8) -> (r: PaletteTableIndex)
        requires
            value < 4,
        ensures
            r.spec_to_u8() == value,
    {
        match value {
            0 => PaletteTableIndex::Zero,
            1 => PaletteTableIndex::One,
            2 => PaletteTableIndex::Two,
            _ => PaletteTableIndex::Three,
        }
    }

    pub fn to_u8(self) -> (r: u8)
        ensures
            r == self.spec_to_u8(),
    {
        self as u8
    }
}

} // verus!
