use vstd::prelude::*;

verus! {

pub const CIRAM_SIZE: usize = 2048;
pub const SIDE_SIZE: usize = 1024;

/// Whether writes to a memory region take effect.
#[derive(PartialEq, Eq, Clone, Copy, Debug, Structural)]
pub enum WriteStatus {
    Disabled,
    Enabled,
}

/// Console-internal name table RAM: two 1KiB sides.
pub struct Ciram {
    raw: Vec<u8>,
    write_status: WriteStatus,
}

impl View for Ciram {
    type V = Seq<u8>;

    closed spec fn view(&self) -> Seq<u8> {
        self.raw@
    }
}

impl Ciram {
    pub closed spec fn wf(&self) -> bool {
        self.raw@.len() == CIRAM_SIZE
    }

    pub closed spec fn writes_enabled(&self) -> bool {
        self.write_status == WriteStatus::Enabled
    }

    /// All zeroes, and writes are ignored until the PPU has initialized a bit.
    pub fn new() -> (r: Ciram)
        ensures
            r.wf(),
            r@ == Seq::new(CIRAM_SIZE as nat, |i: int| 0u8),
            !r.writes_enabled(),
    {
        let raw = vec![0u8; CIRAM_SIZE];
        assert(raw@ =~= Seq::new(CIRAM_SIZE as nat, |i: int| 0u8));
        Self { raw, write_status: WriteStatus::Disabled }
    }

    /// The 1KiB of one side.
    pub fn side(&self, side: CiramSide) -> (r: &[u8])
        requires
            self.wf(),
        ensures
            r@ == self@.subrange(side.spec_start() as int, side.spec_start() + SIDE_SIZE),
            r@.len() == SIDE_SIZE,
    {
        let start_index = side.start();
        &self.raw.as_slice()[start_index..start_index + SIDE_SIZE]
    }

    pub fn enable_writes(&mut self)
        ensures
            final(self).writes_enabled(),
            final(self)@ == old(self)@,
            final(self).wf() == old(self).wf(),
    {
        self.write_status = WriteStatus::Enabled;
    }

    pub fn disable_writes(&mut self)
        ensures
            !final(self).writes_enabled(),
            final(self)@ == old(self)@,
            final(self).wf() == old(self).wf(),
    {
        self.write_status = WriteStatus::Disabled;
    }

    /// Stores the value at the index within the side, if writes are enabled.
    pub fn write(&mut self, side: CiramSide, index: u16, value: u8)
        requires
            old(self).wf(),
            index < SIDE_SIZE,
        ensures
            final(self).wf(),
            final(self).writes_enabled() == old(self).writes_enabled(),
            final(self)@ == (if old(self).writes_enabled() {
                old(self)@.update(side.spec_start() + index, value)
            } else {
                old(self)@
            }),
    {
        if self.write_status == WriteStatus::Enabled {
            let i = side.start() + index as usize;
            self.raw.set(i, value);
        }
    }
}

/// A value written to an enabled CIRAM is what its side then holds at that index.
pub proof fn lemma_ciram_write_then_side(before: Seq<u8>, side: CiramSide, index: int, value: u8)
    requires
        before.len() == CIRAM_SIZE,
        0 <= index < SIDE_SIZE,
    ensures
        before.update(side.spec_start() + index, value).subrange(
            side.spec_start() as int,
            side.spec_start() + SIDE_SIZE,
        )[index] == value,
{
}

/// Which half of CIRAM.
#[derive(PartialEq, Eq, Clone, Copy, Debug, Structural)]
pub enum CiramSide {
    Left,
    Right,
}

impl CiramSide {
    pub open spec fn spec_start(self) -> usize {
        match self {
            CiramSide::Left => 0,
            CiramSide::Right => SIDE_SIZE,
        }
    }

    pub fn start(self) -> (r: usize)
        ensures
            r == self.spec_start(),
    {
        match self {
            CiramSide::Left => 0,
            CiramSide::Right => SIDE_SIZE,
        }
    }

    /// Page 0 is the left side, page 1 the right side.
    pub fn from_page_number(page_number: u16) -> (r: CiramSide)
        requires
            page_number <= 1,
        ensures
            r == (if page_number == 0 { CiramSide::Left } else { CiramSide::Right }),
    {
        if page_number == 0 {
            CiramSide::Left
        } else {
            CiramSide::Right
        }
    }
}

impl Default for CiramSide {
    fn default() -> (r: CiramSide)
        ensures
            r == CiramSide::Left,
    {
        CiramSide::Left
    }
}

} // verus!
