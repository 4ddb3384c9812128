use vstd::prelude::*;

verus! {

/// The index of the last scanline of an NTSC frame (the pre-render scanline).
pub const MAX_SCANLINE: u16 = 261;
/// The index of the last cycle of a scanline.
pub const MAX_CYCLE: u16 = 340;

/// The position of the PPU within the current frame: which scanline and which cycle of it.
#[derive(Clone, Copy, Debug)]
pub struct PpuClock {
    frame: i64,
    scanline: u16,
    cycle: u16,
}

impl PpuClock {
    /// A well-formed clock has a scanline and cycle within an NTSC frame.
    pub open spec fn wf(self) -> bool {
        self.spec_scanline() <= MAX_SCANLINE && self.spec_cycle() <= MAX_CYCLE
    }

    pub closed spec fn spec_frame(self) -> i64 { self.frame }
    pub closed spec fn spec_scanline(self) -> u16 { self.scanline }
    pub closed spec fn spec_cycle(self) -> u16 { self.cycle }

    pub fn starting_at(frame: i64, scanline: u16, cycle: u16) -> (r: PpuClock)
        requires
            scanline <= MAX_SCANLINE,
            cycle <= MAX_CYCLE,
        ensures
            r.wf(),
            r.spec_frame() == frame,
            r.spec_scanline() == scanline,
            r.spec_cycle() == cycle,
    {
        PpuClock { frame, scanline, cycle }
    }

    pub fn frame(&self) -> (r: i64)
        ensures r == self.spec_frame(),
    {
        self.frame
    }

    pub fn scanline(&self) -> (r: u16)
        ensures r == self.spec_scanline(),
    {
        self.scanline
    }

    pub fn cycle(&self) -> (r: u16)
        ensures r == self.spec_cycle(),
    {
        self.cycle
    }

    /// Scanlines 0 through 239 are the visible ones.
    pub fn is_on_visible_scanline(&self) -> (r: bool)
        ensures r == (self.spec_scanline() < 240),
    {
        self.scanline < 240
    }

    /// Scanlines 241 through 260 are vertical blanking scanlines.
    pub fn is_on_vblank_scanline(&self) -> (r: bool)
        ensures r == (241 <= self.spec_scanline() && self.spec_scanline() <= 260),
    {
        241 <= self.scanline && self.scanline <= 260
    }

    /// The last scanline of a frame prepares for the next frame.
    pub fn is_on_prerender_scanline(&self) -> (r: bool)
        ensures r == (self.spec_scanline() == MAX_SCANLINE),
    {
        self.scanline == MAX_SCANLINE
    }
}

} // verus!
