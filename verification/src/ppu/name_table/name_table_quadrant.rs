use vstd::prelude::*;

use crate::memory::register_ids::{ChrBankRegisterId, ChrSourceRegisterId};

verus! {

/// One of the four name tables, as laid out on a 2x2 grid.
#[derive(PartialEq, Eq, Clone, Copy, Debug, Structural)]
pub enum NameTableQuadrant {
    TopLeft,
    TopRight,
    BottomLeft,
    BottomRight,
}

impl NameTableQuadrant {
    pub open spec fn spec_to_u8(self) -> u8 {
        match self {
            NameTableQuadrant::TopLeft => 0,
            NameTableQuadrant::TopRight => 1,
            NameTableQuadrant::BottomLeft => 2,
            NameTableQuadrant::BottomRight => 3,
        }
    }

    pub open spec fn spec_from_u8(value: u8) -> NameTableQuadrant {
        if value == 0 {
            NameTableQuadrant::TopLeft
        } else if value == 1 {
            NameTableQuadrant::TopRight
        } else if value == 2 {
            NameTableQuadrant::BottomLeft
        } else {
            NameTableQuadrant::BottomRight
        }
    }

    pub open spec fn spec_is_on_left(self) -> bool {
        self == NameTableQuadrant::TopLeft || self == NameTableQuadrant::BottomLeft
    }

    pub open spec fn spec_is_on_top(self) -> bool {
        self == NameTableQuadrant::TopLeft || self == NameTableQuadrant::TopRight
    }

    /// The quadrant on the other side horizontally.
    pub open spec fn spec_next_horizontal(self) -> NameTableQuadrant {
        match self {
            NameTableQuadrant::TopLeft => NameTableQuadrant::TopRight,
            NameTableQuadrant::TopRight => NameTableQuadrant::TopLeft,
            NameTableQuadrant::BottomLeft => NameTableQuadrant::BottomRight,
            NameTableQuadrant::BottomRight => NameTableQuadrant::BottomLeft,
        }
    }

    /// The quadrant on the other side vertically.
    pub open spec fn spec_next_vertical(self) -> NameTableQuadrant {
        match self {
            NameTableQuadrant::TopLeft => NameTableQuadrant::BottomLeft,
            NameTableQuadrant::TopRight => NameTableQuadrant::BottomRight,
            NameTableQuadrant::BottomLeft => NameTableQuadrant::TopLeft,
            NameTableQuadrant::BottomRight => NameTableQuadrant::TopRight,
        }
    }

    /// The value must fit in two bits.
    pub fn from_u8(value: u8) -> (r: NameTableQuadrant)
        requires
            value < 4,
        ensures
            r == Self::spec_from_u8(value),
            r.spec_to_u8() == value,
    {
        match value {
            0 => NameTableQuadrant::TopLeft,
            1 => NameTableQuadrant::TopRight,
            2 => NameTableQuadrant::BottomLeft,
            _ => NameTableQuadrant::BottomRight,
        }
    }

    pub fn to_u16(self) -> (r: u16)
        ensures
            r == self.spec_to_u8(),
    {
        self as u16
    }

    pub fn next_horizontal(self) -> (r: NameTableQuadrant)
        ensures
            r == self.spec_next_horizontal(),
            r.spec_is_on_top() == self.spec_is_on_top(),
            r.spec_is_on_left() != self.spec_is_on_left(),
    {
        match self {
            NameTableQuadrant::TopLeft => NameTableQuadrant::TopRight,
            NameTableQuadrant::TopRight => NameTableQuadrant::TopLeft,
            NameTableQuadrant::BottomLeft => NameTableQuadrant::BottomRight,
            NameTableQuadrant::BottomRight => NameTableQuadrant::BottomLeft,
        }
    }

    pub fn next_vertical(self) -> (r: NameTableQuadrant)
        ensures
            r == self.spec_next_vertical(),
            r.spec_is_on_left() == self.spec_is_on_left(),
            r.spec_is_on_top() != self.spec_is_on_top(),
    {
        match self {
            NameTableQuadrant::TopLeft => NameTableQuadrant::BottomLeft,
            NameTableQuadrant::TopRight => NameTableQuadrant::BottomRight,
            NameTableQuadrant::BottomLeft => NameTableQuadrant::TopLeft,
            NameTableQuadrant::BottomRight => NameTableQuadrant::TopRight,
        }
    }

    /// Moves to the next quadrant in reading order, wrapping from BottomRight to TopLeft.
    /// Returns whether it wrapped.
    pub fn increment(&mut self) -> (wrapped: bool)
        ensures
            final(self).spec_to_u8() == (old(self).spec_to_u8() + 1) % 4,
            wrapped == (*old(self) == NameTableQuadrant::BottomRight),
    {
        let (result, wrap) = match *self {
            NameTableQuadrant::TopLeft => (NameTableQuadrant::TopRight, false),
            NameTableQuadrant::TopRight => (NameTableQuadrant::BottomLeft, false),
            NameTableQuadrant::BottomLeft => (NameTableQuadrant::BottomRight, false),
            NameTableQuadrant::BottomRight => (NameTableQuadrant::TopLeft, true),
        };
        *self = result;
        wrap
    }

    /// Moves horizontally, if needed, so that this quadrant is on the same side as the other.
    pub fn copy_horizontal_side_from(&mut self, other: NameTableQuadrant)
        ensures
            final(self).spec_is_on_left() == other.spec_is_on_left(),
            final(self).spec_is_on_top() == old(self).spec_is_on_top(),
    {
        let different_sides = self.is_on_left() != other.is_on_left();
        if different_sides {
            *self = self.next_horizontal();
        }
    }

    /// The registers that select the source and the bank of this quadrant.
    pub fn register_ids(self) -> (r: (ChrSourceRegisterId, ChrBankRegisterId))
        ensures
            r == (match self {
                NameTableQuadrant::TopLeft => (ChrSourceRegisterId::NTS0, ChrBankRegisterId::NT0),
                NameTableQuadrant::TopRight => (ChrSourceRegisterId::NTS1, ChrBankRegisterId::NT1),
                NameTableQuadrant::BottomLeft => (ChrSourceRegisterId::NTS2, ChrBankRegisterId::NT2),
                NameTableQuadrant::BottomRight => (ChrSourceRegisterId::NTS3, ChrBankRegisterId::NT3),
            }),
    {
        match self {
            NameTableQuadrant::TopLeft => (ChrSourceRegisterId::NTS0, ChrBankRegisterId::NT0),
            NameTableQuadrant::TopRight => (ChrSourceRegisterId::NTS1, ChrBankRegisterId::NT1),
            NameTableQuadrant::BottomLeft => (ChrSourceRegisterId::NTS2, ChrBankRegisterId::NT2),
            NameTableQuadrant::BottomRight => (ChrSourceRegisterId::NTS3, ChrBankRegisterId::NT3),
        }
    }

    fn is_on_left(self) -> (r: bool)
        ensures
            r == self.spec_is_on_left(),
    {
        self == NameTableQuadrant::TopLeft || self == NameTableQuadrant::BottomLeft
    }
}

/// Moving to the other side horizontally twice, or vertically twice, returns to the start,
/// and the two moves commute.
pub proof fn lemma_quadrant_moves(q: NameTableQuadrant)
    ensures
        q.spec_next_horizontal().spec_next_horizontal() == q,
        q.spec_next_vertical().spec_next_vertical() == q,
        q.spec_next_horizontal().spec_next_vertical() == q.spec_next_vertical().spec_next_horizontal(),
{
}

/// Incrementing a quadrant four times returns to the start, wrapping exactly once.
pub proof fn lemma_quadrant_increment_cycle(q: NameTableQuadrant)
    ensures
        NameTableQuadrant::spec_from_u8(((q.spec_to_u8() + 4) % 4) as u8) == q,
{
}

/// A quadrant's number holds its position: bit 0 is set on the right, bit 1 at the bottom. A
/// horizontal move changes sides and keeps the row; a vertical move changes rows and keeps the
/// side; and the number names the quadrant back.
pub proof fn lemma_quadrant_layout(q: NameTableQuadrant)
    ensures
        q.spec_to_u8() < 4,
        q.spec_is_on_left() <==> q.spec_to_u8() % 2 == 0,
        q.spec_is_on_top() <==> q.spec_to_u8() < 2,
        q.spec_next_horizontal().spec_is_on_left() != q.spec_is_on_left(),
        q.spec_next_horizontal().spec_is_on_top() == q.spec_is_on_top(),
        q.spec_next_vertical().spec_is_on_top() != q.spec_is_on_top(),
        q.spec_next_vertical().spec_is_on_left() == q.spec_is_on_left(),
        NameTableQuadrant::spec_from_u8(q.spec_to_u8()) == q,
{
}

} // verus!
