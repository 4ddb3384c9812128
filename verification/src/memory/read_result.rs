use vstd::prelude::*;

verus! {

/// The outcome of a read: a value and which of its bits were actually driven (the rest are open bus).
#[derive(PartialEq, Eq, Clone, Copy, Debug, Structural)]
pub struct ReadResult {
    value: u8,
    mask: u8,
}

impl ReadResult {
    pub closed spec fn spec_value(self) -> u8 {
        self.value
    }

    pub closed spec fn spec_mask(self) -> u8 {
        self.mask
    }

    /// A read that drove every bit.
    pub fn full(value: u8) -> (r: ReadResult)
        ensures
            r.spec_value() == value,
            r.spec_mask() == 0xFF,
    {
        ReadResult { value, mask: 0xFF }
    }

    /// A read that drove only the bits in the mask.
    pub fn partial(value: u8, mask: u8) -> (r: ReadResult)
        ensures
            r.spec_value() == value & mask,
            r.spec_mask() == mask,
    {
        ReadResult { value: value & mask, mask }
    }

    /// A read that drove no bits.
    pub fn open_bus() -> (r: ReadResult)
        ensures
            r.spec_value() == 0,
            r.spec_mask() == 0,
    {
        ReadResult { value: 0, mask: 0 }
    }

    /// The driven bits, with undriven bits zero.
    pub fn unmasked_value(self) -> (r: u8)
        ensures
            r == self.spec_value(),
    {
        self.value
    }

    /// The driven bits, with undriven bits taken from the open bus.
    pub fn resolve(self, open_bus: u8) -> (r: u8)
        ensures
            r == (self.spec_value() & self.spec_mask()) | (open_bus & !self.spec_mask()),
    {
        (self.value & self.mask) | (open_bus & !self.mask)
    }
}

} // verus!
