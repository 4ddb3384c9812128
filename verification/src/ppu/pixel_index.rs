use vstd::prelude::*;

use crate::ppu::ppu_clock::PpuClock;

verus! {

pub const COLUMN_COUNT: usize = 256;
pub const ROW_COUNT: usize = 240;
pub const PIXEL_COUNT: usize = 61440;

/// The position of a pixel on the visible screen.
#[derive(Clone, Copy, Debug)]
pub struct PixelIndex {
    pub column: PixelColumn,
    pub row: PixelRow,
}

impl PixelIndex {
    pub const PIXEL_COUNT: usize = 61440;

    /// The position of this pixel in a row-major buffer of the whole screen.
    pub open spec fn spec_to_usize(self) -> int {
        COLUMN_COUNT * self.row@ + self.column@
    }

    pub open spec fn wf(self) -> bool {
        self.row.wf()
    }

    pub fn try_from_clock(clock: &PpuClock) -> (r: Option<PixelIndex>)
        requires
            clock.spec_cycle() >= 1,
        ensures
            r == Self::spec_from_scanline_cycle(clock.spec_scanline(), clock.spec_cycle()),
    {
        PixelIndex::try_from_scanline_cycle(clock.scanline(), clock.cycle())
    }

    /// Cycle 1 of a scanline draws column 0; only the first 240 scanlines (taken modulo 256) are visible.
    pub open spec fn spec_from_scanline_cycle(scanline: u16, cycle: u16) -> Option<PixelIndex> {
        if cycle - 1 < 256 && scanline % 256 < 240 {
            Some(PixelIndex {
                column: PixelColumn::spec_new((cycle - 1) as u8),
                row: PixelRow::spec_new((scanline % 256) as u8),
            })
        } else {
            None
        }
    }

    pub fn is_in_overscan_region(self) -> (r: bool)
        ensures
            r == (self.column.spec_is_in_overscan_region() || self.row.spec_is_in_overscan_region()),
    {
        self.column.is_in_overscan_region() || self.row.is_in_overscan_region()
    }

    pub fn to_usize(self) -> (r: usize)
        ensures
            r == self.spec_to_usize(),
            r < 65536,
    {
        COLUMN_COUNT * self.row.to_usize() + self.column.to_usize()
    }

    fn try_from_scanline_cycle(scanline: u16, cycle: u16) -> (r: Option<PixelIndex>)
        requires
            cycle >= 1,
        ensures
            r == Self::spec_from_scanline_cycle(scanline, cycle),
            r matches Some(i) ==> i.wf(),
    {
        let column = match PixelColumn::try_from_u16(cycle - 1) {
            Some(c) => c,
            None => return None,
        };
        let row = match PixelRow::from_scanline(scanline) {
            Some(r) => r,
            None => return None,
        };
        Some(PixelIndex { column, row })
    }
}

/// A column of pixels on the screen, 0 through 255.
#[derive(PartialEq, Eq, Clone, Copy, Debug, Structural)]
pub struct PixelColumn(u8);

impl View for PixelColumn {
    type V = u8;

    closed spec fn view(&self) -> u8 {
        self.0
    }
}

impl PixelColumn {
    pub const COLUMN_COUNT: usize = 256;

    pub closed spec fn spec_new(value: u8) -> PixelColumn {
        PixelColumn(value)
    }

    /// A column made of a value holds that value.
    pub proof fn lemma_spec_new(value: u8)
        ensures
            Self::spec_new(value)@ == value,
    {
    }

    pub open spec fn spec_is_in_overscan_region(self) -> bool {
        self@ < 8 || self@ > 247
    }

    pub fn iter() -> (r: PixelColumnIterator)
        ensures
            r.spec_next_column() == 0,
    {
        PixelColumnIterator(0)
    }

    pub fn new(pixel_column: u8) -> (r: PixelColumn)
        ensures
            r@ == pixel_column,
            r == Self::spec_new(pixel_column),
    {
        PixelColumn(pixel_column)
    }

    pub fn try_from_u16(pixel_column: u16) -> (r: Option<PixelColumn>)
        ensures
            r == (if pixel_column < 256 { Some(Self::spec_new(pixel_column as u8)) } else { None }),
            r matches Some(c) ==> c@ == pixel_column,
    {
        if pixel_column < 256 {
            Some(PixelColumn::new(pixel_column as u8))
        } else {
            None
        }
    }

    pub fn add_column_in_tile(self, column_in_tile: ColumnInTile) -> (r: Option<PixelColumn>)
        ensures
            r == (if self@ + column_in_tile.spec_to_u8() < 256 {
                Some(Self::spec_new((self@ + column_in_tile.spec_to_u8()) as u8))
            } else {
                None
            }),
    {
        let value = match self.0.checked_add(column_in_tile.to_u8()) {
            Some(v) => v,
            None => return None,
        };
        Some(PixelColumn::new(value))
    }

    pub fn offset(self, offset: i16) -> (r: Option<PixelColumn>)
        requires
            self@ + offset <= i16::MAX,
        ensures
            r == (if 0 <= self@ + offset < 256 {
                Some(Self::spec_new((self@ + offset) as u8))
            } else {
                None
            }),
    {
        let column: i16 = self.0 as i16 + offset;
        if column < 0 {
            return None;
        }
        if column < 256 {
            Some(PixelColumn(column as u8))
        } else {
            None
        }
    }

    pub fn is_in_left_margin(self) -> (r: bool)
        ensures
            r == (self@ < 8),
    {
        self.0 < 8
    }

    pub fn to_u8(self) -> (r: u8)
        ensures
            r == self@,
    {
        self.0
    }

    pub fn to_usize(self) -> (r: usize)
        ensures
            r == self@,
    {
        self.0 as usize
    }

    pub fn is_in_overscan_region(self) -> (r: bool)
        ensures
            r == self.spec_is_in_overscan_region(),
    {
        self.0 < 8 || self.0 as usize > COLUMN_COUNT - 1 - 8
    }
}

/// Yields each pixel column from left to right, then nothing.
#[derive(Clone, Copy)]
pub struct PixelColumnIterator(u16);

impl PixelColumnIterator {
    pub closed spec fn spec_next_column(self) -> u16 {
        self.0
    }

    pub fn next(&mut self) -> (r: Option<PixelColumn>)
        ensures
            r == (if old(self).spec_next_column() < 256 {
                Some(PixelColumn::spec_new(old(self).spec_next_column() as u8))
            } else {
                None
            }),
            final(self).spec_next_column() == (if old(self).spec_next_column() < 256 {
                old(self).spec_next_column() + 1
            } else {
                old(self).spec_next_column() as int
            }),
    {
        let result = PixelColumn::try_from_u16(self.0);
        if self.0 < 256 {
            self.0 = self.0 + 1;
        }
        result
    }
}

/// A row of pixels on the screen, 0 through 239.
#[derive(PartialEq, Eq, Clone, Copy, Debug, Structural)]
pub struct PixelRow(u8);

impl View for PixelRow {
    type V = u8;

    closed spec fn view(&self) -> u8 {
        self.0
    }
}

impl PixelRow {
    pub const ROW_COUNT: usize = 240;

    pub closed spec fn spec_new(value: u8) -> PixelRow {
        PixelRow(value)
    }

    /// A row made of a value holds that value.
    pub proof fn lemma_spec_new(value: u8)
        ensures
            Self::spec_new(value)@ == value,
    {
    }

    pub open spec fn wf(self) -> bool {
        self@ < 240
    }

    pub open spec fn spec_try_from_u8(pixel_row: u8) -> Option<PixelRow> {
        if pixel_row < 240 {
            Some(Self::spec_new(pixel_row))
        } else {
            None
        }
    }

    pub open spec fn spec_is_in_overscan_region(self) -> bool {
        self@ < 16 || self@ > 228
    }

    pub fn iter() -> (r: PixelRowIterator)
        ensures
            r.spec_next_row() == 0,
    {
        PixelRowIterator(0)
    }

    pub fn zero() -> (r: PixelRow)
        ensures
            r@ == 0,
            r.wf(),
    {
        PixelRow(0)
    }

    pub fn try_from_u8(pixel_row: u8) -> (r: Option<PixelRow>)
        ensures
            r == Self::spec_try_from_u8(pixel_row),
            r matches Some(row) ==> row@ == pixel_row && row.wf(),
    {
        if pixel_row < 240 {
            Some(PixelRow(pixel_row))
        } else {
            None
        }
    }

    /// Only the low byte of the scanline is considered.
    pub fn from_scanline(pixel_row: u16) -> (r: Option<PixelRow>)
        ensures
            r == Self::spec_try_from_u8((pixel_row % 256) as u8),
            r matches Some(row) ==> row.wf(),
    {
        let low: u8 = (pixel_row & 0xFF) as u8;
        assert(low == (pixel_row % 256) as u8) by (bit_vector)
            requires
                low == (pixel_row & 0xFF) as u8,
        ;
        PixelRow::try_from_u8(low)
    }

    pub fn add_row_in_tile(self, row_in_tile: RowInTile) -> (r: Option<PixelRow>)
        ensures
            r == (if self@ + row_in_tile.spec_to_u8() < 240 {
                Some(Self::spec_new((self@ + row_in_tile.spec_to_u8()) as u8))
            } else {
                None
            }),
    {
        let value = match self.0.checked_add(row_in_tile.to_u8()) {
            Some(v) => v,
            None => return None,
        };
        PixelRow::try_from_u8(value)
    }

    pub fn offset(self, offset: i16) -> (r: Option<PixelRow>)
        requires
            self@ + offset <= i16::MAX,
        ensures
            r == (if 0 <= self@ + offset < 240 {
                Some(Self::spec_new((self@ + offset) as u8))
            } else {
                None
            }),
    {
        let row: i16 = self.0 as i16 + offset;
        if 0 <= row && row < 240 {
            Some(PixelRow(row as u8))
        } else {
            None
        }
    }

    pub fn difference(self, other: PixelRow) -> (r: Option<u8>)
        ensures
            r == (if self@ >= other@ { Some((self@ - other@) as u8) } else { None }),
    {
        self.to_u8().checked_sub(other.to_u8())
    }

    pub fn to_u8(self) -> (r: u8)
        ensures
            r == self@,
    {
        self.0
    }

    pub fn to_usize(self) -> (r: usize)
        ensures
            r == self@,
    {
        self.0 as usize
    }

    pub fn is_in_overscan_region(self) -> (r: bool)
        ensures
            r == self.spec_is_in_overscan_region(),
    {
        self.0 < 16 || self.0 as usize > ROW_COUNT - 1 - 11
    }
}

/// Yields each pixel row from top to bottom, then nothing.
#[derive(Clone, Copy)]
pub struct PixelRowIterator(u8);

impl PixelRowIterator {
    pub closed spec fn spec_next_row(self) -> u8 {
        self.0
    }

    pub fn next(&mut self) -> (r: Option<PixelRow>)
        ensures
            r == PixelRow::spec_try_from_u8(old(self).spec_next_row()),
            final(self).spec_next_row() == (if old(self).spec_next_row() < 240 {
                old(self).spec_next_row() + 1
            } else {
                old(self).spec_next_row() as int
            }),
    {
        let result = PixelRow::try_from_u8(self.0);
        if self.0 < 240 {
            self.0 = self.0 + 1;
        }
        result
    }
}

/// A column within an 8x8 tile.
#[derive(PartialEq, Eq, Clone, Copy, Debug, Structural)]
pub enum ColumnInTile {
    Zero,
    One,
    Two,
    Three,
    Four,
    Five,
    Six,
    Seven,
}

impl ColumnInTile {
    pub open spec fn spec_to_u8(self) -> u8 {
        match self {
            ColumnInTile::Zero => 0,
            ColumnInTile::One => 1,
            ColumnInTile::Two => 2,
            ColumnInTile::Three => 3,
            ColumnInTile::Four => 4,
            ColumnInTile::Five => 5,
            ColumnInTile::Six => 6,
            ColumnInTile::Seven => 7,
        }
    }

    pub open spec fn spec_from_u8(value: u8) -> ColumnInTile {
        if value == 0 {
            ColumnInTile::Zero
        } else if value == 1 {
            ColumnInTile::One
        } else if value == 2 {
            ColumnInTile::Two
        } else if value == 3 {
            ColumnInTile::Three
        } else if value == 4 {
            ColumnInTile::Four
        } else if value == 5 {
            ColumnInTile::Five
        } else if value == 6 {
            ColumnInTile::Six
        } else {
            ColumnInTile::Seven
        }
    }

    /// The value must fit in three bits.
    pub fn from_u8(value: u8) -> (r: ColumnInTile)
        requires
            value < 8,
        ensures
            r == Self::spec_from_u8(value),
            r.spec_to_u8() == value,
    {
        match value {
            0 => ColumnInTile::Zero,
            1 => ColumnInTile::One,
            2 => ColumnInTile::Two,
            3 => ColumnInTile::Three,
            4 => ColumnInTile::Four,
            5 => ColumnInTile::Five,
            6 => ColumnInTile::Six,
            _ => ColumnInTile::Seven,
        }
    }

    pub fn to_u8(self) -> (r: u8)
        ensures
            r == self.spec_to_u8(),
            r < 8,
    {
        self as u8
    }

    pub fn flip(self) -> (r: ColumnInTile)
        ensures
            r.spec_to_u8() == 7 - self.spec_to_u8(),
    {
        ColumnInTile::from_u8(7 - self.to_u8())
    }
}

/// A row within an 8x8 tile.
#[derive(PartialEq, Eq, Clone, Copy, Debug, Structural)]
pub enum RowInTile {
    Zero,
    One,
    Two,
    Three,
    Four,
    Five,
    Six,
    Seven,
}

impl RowInTile {
    pub open spec fn spec_to_u8(self) -> u8 {
        match self {
            RowInTile::Zero => 0,
            RowInTile::One => 1,
            RowInTile::Two => 2,
            RowInTile::Three => 3,
            RowInTile::Four => 4,
            RowInTile::Five => 5,
            RowInTile::Six => 6,
            RowInTile::Seven => 7,
        }
    }

    pub open spec fn spec_from_u8(value: u8) -> RowInTile {
        if value == 0 {
            RowInTile::Zero
        } else if value == 1 {
            RowInTile::One
        } else if value == 2 {
            RowInTile::Two
        } else if value == 3 {
            RowInTile::Three
        } else if value == 4 {
            RowInTile::Four
        } else if value == 5 {
            RowInTile::Five
        } else if value == 6 {
            RowInTile::Six
        } else {
            RowInTile::Seven
        }
    }

    /// The value must fit in three bits.
    pub fn from_u8(value: u8) -> (r: RowInTile)
        requires
            value < 8,
        ensures
            r == Self::spec_from_u8(value),
            r.spec_to_u8() == value,
    {
        match value {
            0 => RowInTile::Zero,
            1 => RowInTile::One,
            2 => RowInTile::Two,
            3 => RowInTile::Three,
            4 => RowInTile::Four,
            5 => RowInTile::Five,
            6 => RowInTile::Six,
            _ => RowInTile::Seven,
        }
    }

    pub fn to_u8(self) -> (r: u8)
        ensures
            r == self.spec_to_u8(),
            r < 8,
    {
        self as u8
    }

    pub fn flip(self) -> (r: RowInTile)
        ensures
            r.spec_to_u8() == 7 - self.spec_to_u8(),
    {
        RowInTile::from_u8(7 - self.to_u8())
    }

    /// Advances to the next row, but only within the low two bits (Seven becomes Zero, Three becomes Zero).
    pub fn increment_low_bits(&mut self)
        ensures
            final(self).spec_to_u8() == (old(self).spec_to_u8() + 1) % 8 % 4,
    {
        self.increment();
        let value = self.to_u8();
        let low = value & 0b11;
        assert(low == value % 4) by (bit_vector)
            requires
                low == value & 0b11,
        ;
        *self = RowInTile::from_u8(low);
    }

    /// Advances to the next row, wrapping from Seven to Zero. Returns whether it wrapped.
    pub fn increment(&mut self) -> (wrapped: bool)
        ensures
            final(self).spec_to_u8() == (old(self).spec_to_u8() + 1) % 8,
            wrapped == (*old(self) == RowInTile::Seven),
    {
        let will_wrap = *self == RowInTile::Seven;
        if will_wrap {
            *self = RowInTile::Zero;
        } else {
            *self = RowInTile::from_u8(self.to_u8() + 1);
        }
        will_wrap
    }

    pub fn decrement(self) -> (r: RowInTile)
        requires
            self != RowInTile::Zero,
        ensures
            r.spec_to_u8() == self.spec_to_u8() - 1,
    {
        RowInTile::from_u8(self.to_u8() - 1)
    }
}

/// Flipping a row twice gives the original row back.
pub proof fn lemma_row_flip_involution(row: RowInTile)
    ensures
        RowInTile::spec_from_u8((7 - RowInTile::spec_from_u8((7 - row.spec_to_u8()) as u8).spec_to_u8()) as u8) == row,
{
}

/// Flipping a column twice gives the original column back.
pub proof fn lemma_column_flip_involution(column: ColumnInTile)
    ensures
        ColumnInTile::spec_from_u8((7 - ColumnInTile::spec_from_u8((7 - column.spec_to_u8()) as u8).spec_to_u8()) as u8) == column,
{
}

/// Distinct visible pixels occupy distinct places in a screen buffer, all within the buffer.
pub proof fn lemma_pixel_index_injective(a: PixelIndex, b: PixelIndex)
    requires
        a.wf(),
        b.wf(),
        a.spec_to_usize() == b.spec_to_usize(),
    ensures
        a.column@ == b.column@,
        a.row@ == b.row@,
        a.spec_to_usize() < PIXEL_COUNT,
{
}

} // verus!
