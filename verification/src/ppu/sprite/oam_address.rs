use vstd::prelude::*;

verus! {

/// OAMADDR: the byte of OAM that OAMDATA reads and writes.
#[derive(PartialEq, Eq, Clone, Copy, Debug, Structural)]
pub struct OamAddress(u8);

impl View for OamAddress {
    type V = u8;

    closed spec fn view(&self) -> u8 {
        self.0
    }
}

impl OamAddress {
    pub fn from_u8(value: u8) -> (r: OamAddress)
        ensures
            r@ == value,
    {
        OamAddress(value)
    }

    pub fn to_u8(self) -> (r: u8)
        ensures
            r == self@,
    {
        self.0
    }

    /// Moves to the next byte, wrapping around the end of OAM.
    pub fn next_field(&mut self)
        ensures
            final(self)@ == (old(self)@ + 1) % 256,
    {
        self.0 = if self.0 == 255 { 0 } else { self.0 + 1 };
    }

    /// A write to OAMDATA during rendering doesn't store anything, but bumps the sprite number
    /// (the high six bits), wrapping around the end of OAM.
    pub fn corrupt_by_write(&mut self)
        ensures
            final(self)@ == (old(self)@ + 4) % 256,
    {
        self.0 = ((self.0 as u16 + 4) % 256) as u8;
    }

    pub fn reset(&mut self)
        ensures
            final(self)@ == 0,
    {
        self.0 = 0;
    }
}

} // verus!
