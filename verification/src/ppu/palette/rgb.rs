use vstd::prelude::*;

verus! {

/// A displayable color: red, green and blue intensities.
#[derive(PartialEq, Eq, Clone, Copy, Debug, Structural)]
pub struct Rgb {
    pub red: u8,
    pub green: u8,
    pub blue: u8,
}

impl Rgb {
    pub fn new(red: u8, green: u8, blue: u8) -> (r: Rgb)
        ensures
            r == (Rgb { red, green, blue }),
    {
        Rgb { red, green, blue }
    }

    pub fn black() -> (r: Rgb)
        ensures
            r == (Rgb { red: 0, green: 0, blue: 0 }),
    {
        Rgb { red: 0, green: 0, blue: 0 }
    }

    pub fn white() -> (r: Rgb)
        ensures
            r == (Rgb { red: 255, green: 255, blue: 255 }),
    {
        Rgb { red: 255, green: 255, blue: 255 }
    }

    pub fn red(self) -> (r: u8)
        ensures
            r == self.red,
    {
        self.red
    }

    pub fn green(self) -> (r: u8)
        ensures
            r == self.green,
    {
        self.green
    }

    pub fn blue(self) -> (r: u8)
        ensures
            r == self.blue,
    {
        self.blue
    }
}

/// A displayable color that may be transparent.
#[derive(PartialEq, Eq, Clone, Copy, Debug, Structural)]
pub enum Rgbt {
    Transparent,
    Opaque(Rgb),
}

impl Rgbt {
    pub fn to_rgb(self) -> (r: Option<Rgb>)
        ensures
            r == (match self {
                Rgbt::Opaque(rgb) => Some(rgb),
                Rgbt::Transparent => None,
            }),
    {
        match self {
            Rgbt::Opaque(rgb) => Some(rgb),
            Rgbt::Transparent => None,
        }
    }
}

} // verus!
