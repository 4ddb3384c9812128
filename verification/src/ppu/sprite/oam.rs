use vstd::prelude::*;

use crate::ppu::sprite::oam_address::OamAddress;

verus! {

pub const OAM_SIZE: usize = 256;

/// The byte stored for a value written at an address: the attribute byte of each sprite
/// (the third of its four bytes) has no storage for bits 2 through 4.
pub open spec fn spec_stored_byte(address: u8, value: u8) -> u8 {
    if address % 4 == 2 {
        value & 0b1110_0011
    } else {
        value
    }
}

/// Object attribute memory: four bytes (y, tile number, attributes, x) for each of 64 sprites.
pub struct Oam {
    data: Vec<u8>,
}

impl View for Oam {
    type V = Seq<u8>;

    closed spec fn view(&self) -> Seq<u8> {
        self.data@
    }
}

impl Clone for Oam {
    fn clone(&self) -> (r: Oam)
        ensures
            r@ == self@,
    {
        Oam { data: self.data.clone() }
    }
}

impl Oam {
    pub open spec fn wf(&self) -> bool {
        self@.len() == OAM_SIZE
    }

    pub fn new() -> (r: Oam)
        ensures
            r.wf(),
            r@ == Seq::new(OAM_SIZE as nat, |i: int| 0u8),
    {
        let data = vec![0u8; OAM_SIZE];
        assert(data@ =~= Seq::new(OAM_SIZE as nat, |i: int| 0u8));
        Oam { data }
    }

    pub fn peek(&self, address: OamAddress) -> (r: u8)
        requires
            self.wf(),
        ensures
            r == self@[address@ as int],
    {
        self.data[address.to_u8() as usize]
    }

    pub fn write(&mut self, address: OamAddress, value: u8)
        requires
            old(self).wf(),
        ensures
            final(self).wf(),
            final(self)@ == old(self)@.update(address@ as int, spec_stored_byte(address@, value)),
    {
        let a = address.to_u8();
        let stored = if a % 4 == 2 { value & 0b1110_0011 } else { value };
        self.data.set(a as usize, stored);
    }

    /// All 256 bytes.
    pub fn to_raw(&self) -> (r: &[u8])
        ensures
            r@ == self@,
    {
        self.data.as_slice()
    }
}

} // verus!
