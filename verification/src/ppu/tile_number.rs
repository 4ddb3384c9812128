use vstd::prelude::*;

verus! {

/// Which of the 256 tiles of a pattern table.
#[derive(PartialEq, Eq, Clone, Copy, Debug, Structural)]
pub struct TileNumber(u8);

impl View for TileNumber {
    type V = u8;

    closed spec fn view(&self) -> u8 {
        self.0
    }
}

impl TileNumber {
    pub fn new(value: u8) -> (r: TileNumber)
        ensures
            r@ == value,
    {
        TileNumber(value)
    }

    pub fn to_u8(self) -> (r: u8)
        ensures
            r == self@,
    {
        self.0
    }
}

} // verus!
