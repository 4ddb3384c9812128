use vstd::prelude::*;

use crate::ppu::name_table::name_table_quadrant::NameTableQuadrant;
use crate::ppu::pixel_index::ColumnInTile;
use crate::ppu::register::ppu_registers::AddressIncrement;

verus! {

/// The fifteen bit internal PPU address register (`yyy NN YYYYY XXXXX`): fine y scroll,
/// name table quadrant, coarse y scroll and coarse x scroll. The low fourteen bits are a
/// PPU memory address.
#[derive(PartialEq, Eq, Clone, Copy, Debug, Structural)]
pub struct PpuAddress(u16);

impl View for PpuAddress {
    type V = u16;

    closed spec fn view(&self) -> u16 {
        self.0
    }
}

impl PpuAddress {
    pub open spec fn wf(self) -> bool {
        self@ < 0x8000
    }

    pub open spec fn spec_coarse_x(self) -> int {
        (self@ % 32) as int
    }

    pub open spec fn spec_coarse_y(self) -> int {
        ((self@ / 32) % 32) as int
    }

    pub open spec fn spec_quadrant(self) -> int {
        ((self@ / 1024) % 4) as int
    }

    pub open spec fn spec_fine_y(self) -> int {
        ((self@ / 4096) % 8) as int
    }

    /// An address is its coarse x, coarse y, name table quadrant and fine y, packed in that order.
    pub proof fn lemma_fields(self)
        requires
            self.wf(),
        ensures
            self@ == self.spec_coarse_x() + 32 * self.spec_coarse_y() + 1024 * self.spec_quadrant()
                + 4096 * self.spec_fine_y(),
    {
        let v = self@;
        assert(v == v % 32 + 32 * ((v / 32) % 32) + 1024 * ((v / 1024) % 4) + 4096 * ((v / 4096) % 8))
            by (bit_vector)
            requires
                v < 0x8000,
        ;
    }

    pub fn zero() -> (r: PpuAddress)
        ensures
            r@ == 0,
            r.wf(),
    {
        PpuAddress(0)
    }

    /// The fourteen bit memory address.
    pub fn from_u16(value: u16) -> (r: PpuAddress)
        ensures
            r@ == value % 0x4000,
            r.wf(),
    {
        let v = value & 0x3FFF;
        assert(v == value % 0x4000) by (bit_vector)
            requires
                v == value & 0x3FFF,
        ;
        PpuAddress(v)
    }

    /// The memory address that the register points to.
    pub fn to_u16(self) -> (r: u16)
        ensures
            r == self@ % 0x4000,
    {
        let v = self.0;
        let r = v & 0x3FFF;
        assert(r == v % 0x4000) by (bit_vector)
            requires
                r == v & 0x3FFF,
        ;
        r
    }

    pub fn set_name_table_quadrant(&mut self, quadrant: NameTableQuadrant)
        requires
            old(self).wf(),
        ensures
            final(self).wf(),
            final(self).spec_quadrant() == quadrant.spec_to_u8(),
            final(self).spec_coarse_x() == old(self).spec_coarse_x(),
            final(self).spec_coarse_y() == old(self).spec_coarse_y(),
            final(self).spec_fine_y() == old(self).spec_fine_y(),
    {
        let v = self.0;
        let q = quadrant.to_u16();
        let n = (v & !0x0C00u16) | (q << 10);
        assert(n < 0x8000 && n % 32 == v % 32 && (n / 32) % 32 == (v / 32) % 32 && (n / 1024) % 4 == q
            && (n / 4096) % 8 == (v / 4096) % 8) by (bit_vector)
            requires
                v < 0x8000,
                q < 4,
                n == (v & !0x0C00u16) | (q << 10),
        ;
        self.0 = n;
    }

    pub fn coarse_x_scroll(self) -> (r: u8)
        ensures
            r == self.spec_coarse_x(),
    {
        let v = self.0;
        let r = (v & 0x1F) as u8;
        assert(r == v % 32) by (bit_vector)
            requires
                r == (v & 0x1F) as u8,
        ;
        r
    }

    pub fn set_coarse_x_scroll(&mut self, coarse: u8)
        requires
            old(self).wf(),
            coarse < 32,
        ensures
            final(self).wf(),
            final(self).spec_coarse_x() == coarse,
            final(self).spec_coarse_y() == old(self).spec_coarse_y(),
            final(self).spec_quadrant() == old(self).spec_quadrant(),
            final(self).spec_fine_y() == old(self).spec_fine_y(),
    {
        let v = self.0;
        let c = coarse as u16;
        let n = (v & !0x001Fu16) | c;
        assert(n < 0x8000 && n % 32 == c && (n / 32) % 32 == (v / 32) % 32 && (n / 1024) % 4 == (v / 1024) % 4
            && (n / 4096) % 8 == (v / 4096) % 8) by (bit_vector)
            requires
                v < 0x8000,
                c < 32,
                n == (v & !0x001Fu16) | c,
        ;
        self.0 = n;
    }

    /// Sets coarse y scroll to the high five bits and fine y scroll to the low three bits.
    pub fn set_y_scroll(&mut self, value: u8)
        requires
            old(self).wf(),
        ensures
            final(self).wf(),
            final(self).spec_coarse_y() == value / 8,
            final(self).spec_fine_y() == value % 8,
            final(self).spec_coarse_x() == old(self).spec_coarse_x(),
            final(self).spec_quadrant() == old(self).spec_quadrant(),
    {
        let v = self.0;
        let d = value as u16;
        let n = (v & 0x0C1Fu16) | ((d >> 3) << 5) | ((d & 0b111) << 12);
        assert(n < 0x8000 && n % 32 == v % 32 && (n / 32) % 32 == d / 8 && (n / 1024) % 4 == (v / 1024) % 4
            && (n / 4096) % 8 == d % 8) by (bit_vector)
            requires
                v < 0x8000,
                d < 256,
                n == (v & 0x0C1Fu16) | ((d >> 3) << 5) | ((d & 0b111) << 12),
        ;
        self.0 = n;
    }

    /// Sets the high byte of the memory address (only its low six bits are used; bit 14 is cleared).
    pub fn set_high_byte(&mut self, value: u8)
        requires
            old(self).wf(),
        ensures
            final(self).wf(),
            final(self)@ == old(self)@ % 256 + 256 * (value % 64),
    {
        let v = self.0;
        let b = value as u16;
        let n = (v & 0x00FF) | ((b & 0x3F) << 8);
        assert(n == v % 256 + 256 * (b % 64)) by (bit_vector)
            requires
                b < 256,
                n == (v & 0x00FF) | ((b & 0x3F) << 8),
        ;
        self.0 = n;
    }

    /// Sets the low byte of the memory address.
    pub fn set_low_byte(&mut self, value: u8)
        requires
            old(self).wf(),
        ensures
            final(self).wf(),
            final(self)@ == 256 * (old(self)@ / 256) + value,
    {
        let v = self.0;
        let b = value as u16;
        let n = (v & 0x7F00) | b;
        assert(n == 256 * (v / 256) + b) by (bit_vector)
            requires
                v < 0x8000,
                b < 256,
                n == (v & 0x7F00) | b,
        ;
        self.0 = n;
    }

    /// Moves one byte right, or 32 bytes (one tile row) down, wrapping within fifteen bits.
    pub fn advance(&mut self, increment: AddressIncrement)
        requires
            old(self).wf(),
        ensures
            final(self).wf(),
            final(self)@ == (old(self)@ + increment.spec_amount()) % 0x8000,
    {
        let amount: u16 = match increment {
            AddressIncrement::Right => 1,
            AddressIncrement::Down => 32,
        };
        self.0 = (self.0 + amount) % 0x8000;
    }

    /// Moves down one pixel row: fine y scroll counts up to 7, then coarse y scroll advances.
    /// Coarse y scroll wraps from 29 to 0 into the vertically adjacent name table, and from 31
    /// to 0 within the same name table.
    pub fn increment_fine_y_scroll(&mut self)
        requires
            old(self).wf(),
        ensures
            final(self).wf(),
            final(self).spec_coarse_x() == old(self).spec_coarse_x(),
            final(self).spec_quadrant() % 2 == old(self).spec_quadrant() % 2,
            old(self).spec_fine_y() < 7 ==> {
                &&& final(self).spec_fine_y() == old(self).spec_fine_y() + 1
                &&& final(self).spec_coarse_y() == old(self).spec_coarse_y()
                &&& final(self).spec_quadrant() == old(self).spec_quadrant()
            },
            old(self).spec_fine_y() == 7 ==> {
                &&& final(self).spec_fine_y() == 0
                &&& final(self).spec_coarse_y() == (if old(self).spec_coarse_y() == 29
                    || old(self).spec_coarse_y() == 31 { 0 } else { old(self).spec_coarse_y() + 1 })
                &&& final(self).spec_quadrant() == (if old(self).spec_coarse_y() == 29 {
                    (old(self).spec_quadrant() + 2) % 4
                } else {
                    old(self).spec_quadrant()
                })
            },
    {
        let v = self.0;
        let n: u16;
        if (v & 0x7000) != 0x7000 {
            n = v + 0x1000;
            assert(n < 0x8000 && n % 32 == v % 32 && (n / 32) % 32 == (v / 32) % 32
                && (n / 1024) % 4 == (v / 1024) % 4 && (n / 4096) % 8 == (v / 4096) % 8 + 1) by (bit_vector)
                requires
                    v < 0x8000,
                    (v & 0x7000) != 0x7000,
                    n == v + 0x1000,
            ;
            assert((v / 4096) % 8 < 7) by (bit_vector)
                requires
                    v < 0x8000,
                    (v & 0x7000) != 0x7000,
            ;
        } else {
            let cleared = v & !0x7000u16;
            let coarse_y = (v & 0x03E0) >> 5;
            if coarse_y == 29 {
                n = (cleared & !0x03E0u16) ^ 0x0800;
                assert(n < 0x8000 && n % 32 == v % 32 && (n / 32) % 32 == 0
                    && (n / 1024) % 4 == ((v / 1024) % 4 + 2) % 4 && (n / 4096) % 8 == 0
                    && (v / 4096) % 8 == 7 && (v / 32) % 32 == 29) by (bit_vector)
                    requires
                        v < 0x8000,
                        (v & 0x7000) == 0x7000,
                        cleared == v & !0x7000u16,
                        coarse_y == (v & 0x03E0) >> 5,
                        coarse_y == 29,
                        n == (cleared & !0x03E0u16) ^ 0x0800,
                ;
            } else if coarse_y == 31 {
                n = cleared & !0x03E0u16;
                assert(n < 0x8000 && n % 32 == v % 32 && (n / 32) % 32 == 0
                    && (n / 1024) % 4 == (v / 1024) % 4 && (n / 4096) % 8 == 0
                    && (v / 4096) % 8 == 7 && (v / 32) % 32 == 31) by (bit_vector)
                    requires
                        v < 0x8000,
                        (v & 0x7000) == 0x7000,
                        cleared == v & !0x7000u16,
                        coarse_y == (v & 0x03E0) >> 5,
                        coarse_y == 31,
                        n == cleared & !0x03E0u16,
                ;
            } else {
                assert(cleared <= 0x0FFF) by (bit_vector)
                    requires
                        v < 0x8000,
                        cleared == v & !0x7000u16,
                ;
                n = cleared + 0x20;
                assert(n < 0x8000 && n % 32 == v % 32 && (n / 32) % 32 == (v / 32) % 32 + 1
                    && (n / 1024) % 4 == (v / 1024) % 4 && (n / 4096) % 8 == 0
                    && (v / 4096) % 8 == 7 && (v / 32) % 32 != 29 && (v / 32) % 32 != 31) by (bit_vector)
                    requires
                        v < 0x8000,
                        (v & 0x7000) == 0x7000,
                        cleared == v & !0x7000u16,
                        coarse_y == (v & 0x03E0) >> 5,
                        coarse_y != 29,
                        coarse_y != 31,
                        n == cleared + 0x20,
                ;
            }
        }
        self.0 = n;
    }

    /// Whether the memory address is in the palette table (0x3F00 through 0x3FFF).
    pub fn is_in_palette_table(self) -> (r: bool)
        ensures
            r == (self@ % 0x4000 >= 0x3F00),
    {
        self.to_u16() >= 0x3F00
    }
}

/// Horizontal scroll: which tile column (0 through 31) and which pixel column within it.
#[derive(PartialEq, Eq, Clone, Copy, Debug, Structural)]
pub struct XScroll {
    pub coarse: u8,
    pub fine: ColumnInTile,
}

impl XScroll {
    pub open spec fn wf(self) -> bool {
        self.coarse < 32
    }

    /// The high five bits are the tile column, the low three bits the pixel column within the tile.
    pub fn from_u8(value: u8) -> (r: XScroll)
        ensures
            r.wf(),
            r.coarse == value / 8,
            r.fine.spec_to_u8() == value % 8,
    {
        let coarse = value >> 3;
        let fine = value & 0b111;
        assert(coarse == value / 8 && fine == value % 8) by (bit_vector)
            requires
                coarse == value >> 3,
                fine == value & 0b111,
        ;
        XScroll { coarse, fine: ColumnInTile::from_u8(fine) }
    }

    pub fn coarse(self) -> (r: u8)
        ensures
            r == self.coarse,
    {
        self.coarse
    }

    pub fn fine(self) -> (r: ColumnInTile)
        ensures
            r == self.fine,
    {
        self.fine
    }

    /// The scroll in pixels.
    pub fn to_u8(self) -> (r: u8)
        requires
            self.wf(),
        ensures
            r == 8 * self.coarse + self.fine.spec_to_u8(),
    {
        8 * self.coarse + self.fine.to_u8()
    }
}

/// Writing a scroll value's tile column and pixel column and reading them back gives the value.
pub proof fn lemma_x_scroll_roundtrip(value: u8)
    ensures
        8 * (value / 8) + value % 8 == value,
{
}

} // verus!
