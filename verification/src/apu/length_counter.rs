use vstd::prelude::*;

verus! {

/// The lengths that a 5-bit length index selects, in APU half frames.
pub open spec fn spec_length_table() -> Seq<u8> {
    seq![
        10, 254, 20, 2, 40, 4, 80, 6, 160, 8, 60, 10, 14, 12, 26, 14,
        12, 16, 24, 18, 48, 20, 96, 22, 192, 24, 72, 26, 16, 28, 32, 30,
    ]
}

/// The length that a 5-bit length index selects.
pub fn length_for_index(index: u8) -> (r: u8)
    requires
        index < 32,
    ensures
        r == spec_length_table()[index as int],
    no_unwind
{
    match index {
        0 => 10, 1 => 254, 2 => 20, 3 => 2, 4 => 40, 5 => 4, 6 => 80, 7 => 6,
        8 => 160, 9 => 8, 10 => 60, 11 => 10, 12 => 14, 13 => 12, 14 => 26, 15 => 14,
        16 => 12, 17 => 16, 18 => 24, 19 => 18, 20 => 48, 21 => 20, 22 => 96, 23 => 22,
        24 => 192, 25 => 24, 26 => 72, 27 => 26, 28 => 16, 29 => 28, 30 => 32, _ => 30,
    }
}

/// Silences a channel once its length runs out, unless halted.
pub struct LengthCounter {
    count: u8,
    halt: bool,
}

impl LengthCounter {
    pub closed spec fn spec_count(&self) -> u8 {
        self.count
    }

    pub closed spec fn spec_halt(&self) -> bool {
        self.halt
    }

    pub fn new() -> (r: LengthCounter)
        ensures
            r.spec_count() == 0,
            !r.spec_halt(),
    {
        LengthCounter { count: 0, halt: false }
    }

    /// Sets whether the counter is halted.
    pub fn start_halt(&mut self, halt: bool)
        ensures
            final(self).spec_halt() == halt,
            final(self).spec_count() == old(self).spec_count(),
        no_unwind
    {
        self.halt = halt;
    }

    /// Loads the length that the 5-bit index selects.
    pub fn start_reload(&mut self, index: u8)
        requires
            index < 32,
        ensures
            final(self).spec_count() == spec_length_table()[index as int],
            final(self).spec_halt() == old(self).spec_halt(),
        no_unwind
    {
        self.count = length_for_index(index);
    }

    pub fn set_to_zero(&mut self)
        ensures
            final(self).spec_count() == 0,
            final(self).spec_halt() == old(self).spec_halt(),
        no_unwind
    {
        self.count = 0;
    }

    pub fn is_zero(&self) -> (r: bool)
        ensures
            r == (self.spec_count() == 0),
    {
        self.count == 0
    }

    /// Every half frame: counts down by one unless halted or already zero.
    pub fn decrement(&mut self)
        ensures
            final(self).spec_halt() == old(self).spec_halt(),
            final(self).spec_count() == (if old(self).spec_halt() || old(self).spec_count() == 0 {
                old(self).spec_count() as int
            } else {
                old(self).spec_count() - 1
            }),
        no_unwind
    {
        if !self.halt && self.count > 0 {
            self.count = self.count - 1;
        }
    }
}

impl Default for LengthCounter {
    fn default() -> (r: LengthCounter)
        ensures
            r.spec_count() == 0,
            !r.spec_halt(),
    {
        LengthCounter::new()
    }
}

/// The length table's layout: an odd index from 3 up selects one less than itself and index 1
/// selects 254; the even indices below 10 double from 10 (10, 20, 40, 80, 160), and the same
/// positions sixteen further on double from 12 (12, 24, 48, 96, 192).
pub proof fn lemma_length_table_layout(i: int)
    requires
        0 <= i < 32,
    ensures
        spec_length_table().len() == 32,
        i % 2 == 1 && i >= 3 ==> spec_length_table()[i] == i - 1,
        spec_length_table()[1] == 254,
        i % 2 == 0 && 2 <= i < 10 ==> spec_length_table()[i] == 2 * spec_length_table()[i - 2],
        i % 2 == 0 && 2 <= i < 10 ==> spec_length_table()[i + 16] == 2 * spec_length_table()[i + 14],
        spec_length_table()[0] == 10,
        spec_length_table()[16] == 12,
{
    let table = spec_length_table();
    assert(table[0] == 10);
    assert(table[1] == 254);
    assert(table[2] == 20);
    assert(table[3] == 2);
    assert(table[4] == 40);
    assert(table[5] == 4);
    assert(table[6] == 80);
    assert(table[7] == 6);
    assert(table[8] == 160);
    assert(table[9] == 8);
    assert(table[10] == 60);
    assert(table[11] == 10);
    assert(table[12] == 14);
    assert(table[13] == 12);
    assert(table[14] == 26);
    assert(table[15] == 14);
    assert(table[16] == 12);
    assert(table[17] == 16);
    assert(table[18] == 24);
    assert(table[19] == 18);
    assert(table[20] == 48);
    assert(table[21] == 20);
    assert(table[22] == 96);
    assert(table[23] == 22);
    assert(table[24] == 192);
    assert(table[25] == 24);
    assert(table[26] == 72);
    assert(table[27] == 26);
    assert(table[28] == 16);
    assert(table[29] == 28);
    assert(table[30] == 32);
    assert(table[31] == 30);
    if i == 0 {} else if i == 1 {} else if i == 2 {} else if i == 3 {} else if i == 4 {} else if i == 5 {} else if i == 6 {} else if i == 7 {} else if i == 8 {} else if i == 9 {} else if i == 10 {} else if i == 11 {} else if i == 12 {} else if i == 13 {} else if i == 14 {} else if i == 15 {} else if i == 16 {} else if i == 17 {} else if i == 18 {} else if i == 19 {} else if i == 20 {} else if i == 21 {} else if i == 22 {} else if i == 23 {} else if i == 24 {} else if i == 25 {} else if i == 26 {} else if i == 27 {} else if i == 28 {} else if i == 29 {} else if i == 30 {} else if i == 31 {} else {}
}

} // verus!
