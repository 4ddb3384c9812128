use vstd::prelude::*;

verus! {

/// How many scanlines the data latch holds its value without being refreshed (about 600ms).
pub const DECAY_SCANLINES: u32 = 9432;

/// The data latch between the CPU and the PPU registers. Every register access refreshes it;
/// left alone, it decays to zero.
pub struct PpuIoBus {
    value: u8,
    scanlines_since_refresh: u32,
}

impl PpuIoBus {
    pub closed spec fn spec_value(&self) -> u8 {
        self.value
    }

    pub closed spec fn spec_age(&self) -> u32 {
        self.scanlines_since_refresh
    }

    pub fn new() -> (r: PpuIoBus)
        ensures
            r.spec_value() == 0,
            r.spec_age() == 0,
    {
        PpuIoBus { value: 0, scanlines_since_refresh: 0 }
    }

    pub fn value(&self) -> (r: u8)
        ensures
            r == self.spec_value(),
    {
        self.value
    }

    pub fn update(&mut self, value: u8)
        ensures
            final(self).spec_value() == value,
            final(self).spec_age() == 0,
    {
        self.value = value;
        self.scanlines_since_refresh = 0;
    }

    /// Reading PPUSTATUS refreshes only the three status bits; the low five bits keep their value.
    pub fn update_from_status_read(&mut self, status: u8)
        ensures
            final(self).spec_value() == (status & 0b1110_0000) | (old(self).spec_value() & 0b0001_1111),
            final(self).spec_age() == 0,
    {
        self.value = (status & 0b1110_0000) | (self.value & 0b0001_1111);
        self.scanlines_since_refresh = 0;
    }

    /// Called once per scanline: an unrefreshed latch decays to zero.
    pub fn maybe_decay(&mut self)
        ensures
            final(self).spec_age() == (if old(self).spec_age() < DECAY_SCANLINES {
                old(self).spec_age() + 1
            } else {
                old(self).spec_age() as int
            }),
            final(self).spec_value() == (if old(self).spec_age() + 1 >= DECAY_SCANLINES {
                0
            } else {
                old(self).spec_value()
            }),
    {
        if self.scanlines_since_refresh < DECAY_SCANLINES {
            self.scanlines_since_refresh = self.scanlines_since_refresh + 1;
        }
        if self.scanlines_since_refresh >= DECAY_SCANLINES {
            self.value = 0;
        }
    }
}

} // verus!
