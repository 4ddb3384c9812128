use vstd::prelude::*;

use crate::ppu::palette::color::Color;

verus! {

/// A color that may be transparent, letting what is behind it show through.
#[derive(PartialEq, Eq, Clone, Copy, Debug, Structural)]
pub enum ColorT {
    Transparent,
    Opaque(Color),
}

impl ColorT {
    pub fn opaque(color: Color) -> (r: ColorT)
        ensures
            r == ColorT::Opaque(color),
    {
        ColorT::Opaque(color)
    }

    pub fn is_transparent(self) -> (r: bool)
        ensures
            r == (self is Transparent),
    {
        matches!(self, ColorT::Transparent)
    }

    pub fn is_opaque(self) -> (r: bool)
        ensures
            r == (self is Opaque),
    {
        matches!(self, ColorT::Opaque(_))
    }

    pub fn to_color(self) -> (r: Option<Color>)
        ensures
            r == (match self {
                ColorT::Opaque(c) => Some(c),
                ColorT::Transparent => None,
            }),
    {
        if let ColorT::Opaque(rgb) = self {
            Some(rgb)
        } else {
            None
        }
    }
}

impl Default for ColorT {
    fn default() -> (r: ColorT)
        ensures
            r == ColorT::Transparent,
    {
        ColorT::Transparent
    }
}

} // verus!
