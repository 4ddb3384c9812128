use vstd::prelude::*;

verus! {

/// The y coordinate of the top of a sprite, as stored in OAM.
#[derive(PartialEq, Eq, Clone, Copy, Debug, Structural)]
pub struct SpriteY(u8);

impl View for SpriteY {
    type V = u8;

    closed spec fn view(&self) -> u8 {
        self.0
    }
}

impl SpriteY {
    pub fn new(value: u8) -> (r: SpriteY)
        ensures
            r@ == value,
    {
        SpriteY(value)
    }

    pub fn to_u8(self) -> (r: u8)
        ensures
            r == self@,
    {
        self.0
    }
}

} // verus!
