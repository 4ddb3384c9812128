use vstd::prelude::*;

verus! {

/// A color as the PPU produces it: a luma (brightness) and a chroma (hue).
#[derive(PartialEq, Eq, Clone, Copy, Debug, Structural)]
pub struct Color {
    brightness: Brightness,
    hue: Hue,
}

impl Color {
    pub closed spec fn spec_brightness(self) -> Brightness {
        self.brightness
    }

    pub closed spec fn spec_hue(self) -> Hue {
        self.hue
    }

    pub closed spec fn spec_new(brightness: Brightness, hue: Hue) -> Color {
        Color { brightness, hue }
    }

    /// A color made of a brightness and a hue has that brightness and that hue.
    pub proof fn lemma_spec_new(brightness: Brightness, hue: Hue)
        ensures
            Self::spec_new(brightness, hue).spec_brightness() == brightness,
            Self::spec_new(brightness, hue).spec_hue() == hue,
    {
    }

    /// The color that a number names: its bits 4 and 5 give the brightness, its low four bits
    /// the hue; the two high bits are ignored.
    pub closed spec fn spec_from_u8(value: u8) -> Color {
        Color {
            brightness: Brightness::spec_from_u8(((value / 16) % 4) as u8),
            hue: Hue::spec_from_u8((value % 16) as u8),
        }
    }

    /// The six bit number of this color: two brightness bits above four hue bits.
    pub open spec fn spec_to_u6(self) -> u8 {
        (16 * self.spec_brightness().spec_to_u8() + self.spec_hue().spec_to_u8()) as u8
    }

    /// Black, as shown for the overscan region.
    pub fn black() -> (r: Color)
        ensures
            r.spec_brightness() == Brightness::Low,
            r.spec_hue() == Hue::Black,
    {
        Color { hue: Hue::Black, brightness: Brightness::Low }
    }

    pub fn new(brightness: Brightness, hue: Hue) -> (r: Color)
        ensures
            r == Self::spec_new(brightness, hue),
            r.spec_brightness() == brightness,
            r.spec_hue() == hue,
    {
        Color { brightness, hue }
    }

    pub fn to_greyscale(self) -> (r: Color)
        ensures
            r.spec_hue() == Hue::Gray,
            r.spec_brightness() == self.spec_brightness(),
    {
        Color { hue: Hue::Gray, brightness: self.brightness }
    }

    pub fn brightness(self) -> (r: Brightness)
        ensures
            r == self.spec_brightness(),
    {
        self.brightness
    }

    pub fn hue(self) -> (r: Hue)
        ensures
            r == self.spec_hue(),
    {
        self.hue
    }

    /// The six bit number of this color (`00bb hhhh`).
    pub fn to_u6(self) -> (r: u8)
        ensures
            r == self.spec_to_u6(),
            r < 64,
    {
        let b = self.brightness.to_u8();
        let h = self.hue.to_u8();
        16 * b + h
    }

    pub fn to_usize(self) -> (r: usize)
        ensures
            r == self.spec_to_u6(),
            r < 64,
    {
        self.to_u6() as usize
    }

    /// Reads a color number (`..bb hhhh`); the two high bits are ignored.
    pub fn from_u8(value: u8) -> (r: Color)
        ensures
            r.spec_brightness().spec_to_u8() == (value / 16) % 4,
            r.spec_hue().spec_to_u8() == value % 16,
            r.spec_to_u6() == value % 64,
            r == Self::spec_from_u8(value),
    {
        let b = (value >> 4) & 0b11;
        let h = value & 0b1111;
        assert(b == (value / 16) % 4 && h == value % 16) by (bit_vector)
            requires
                b == (value >> 4) & 0b11,
                h == value & 0b1111,
        ;
        Color { brightness: Brightness::from_u8(b), hue: Hue::from_u8(h) }
    }
}

/// Every six bit color number names a distinct color: reading back the number of a color gives the color.
pub proof fn lemma_color_number_roundtrip(color: Color)
    ensures
        color.spec_to_u6() < 64,
        Brightness::spec_from_u8(((color.spec_to_u6() / 16) % 4) as u8) == color.spec_brightness(),
        Hue::spec_from_u8((color.spec_to_u6() % 16) as u8) == color.spec_hue(),
{
}

/// A color's number names that same color, and a six bit number is the number of the color it
/// names.
pub proof fn lemma_color_from_number_roundtrip(color: Color, value: u8)
    ensures
        Color::spec_from_u8(color.spec_to_u6()) == color,
        value < 64 ==> Color::spec_from_u8(value).spec_to_u6() == value,
{
    lemma_color_number_roundtrip(color);
}

/// Determines NTSC/PAL chroma.
#[derive(PartialEq, Eq, Clone, Copy, Debug, Structural)]
pub enum Hue {
    Gray,
    Azure,
    Blue,
    Violet,
    Magenta,
    Rose,
    Maroon,
    Orange,
    Olive,
    Chartreuse,
    Green,
    Spring,
    Cyan,
    DarkGray,
    Black,
    ExtraBlack,
}

impl Hue {
    pub open spec fn spec_to_u8(self) -> u8 {
        match self {
            Hue::Gray => 0,
            Hue::Azure => 1,
            Hue::Blue => 2,
            Hue::Violet => 3,
            Hue::Magenta => 4,
            Hue::Rose => 5,
            Hue::Maroon => 6,
            Hue::Orange => 7,
            Hue::Olive => 8,
            Hue::Chartreuse => 9,
            Hue::Green => 10,
            Hue::Spring => 11,
            Hue::Cyan => 12,
            Hue::DarkGray => 13,
            Hue::Black => 14,
            Hue::ExtraBlack => 15,
        }
    }

    pub open spec fn spec_from_u8(value: u8) -> Hue {
        if value == 0 { Hue::Gray }
        else if value == 1 { Hue::Azure }
        else if value == 2 { Hue::Blue }
        else if value == 3 { Hue::Violet }
        else if value == 4 { Hue::Magenta }
        else if value == 5 { Hue::Rose }
        else if value == 6 { Hue::Maroon }
        else if value == 7 { Hue::Orange }
        else if value == 8 { Hue::Olive }
        else if value == 9 { Hue::Chartreuse }
        else if value == 10 { Hue::Green }
        else if value == 11 { Hue::Spring }
        else if value == 12 { Hue::Cyan }
        else if value == 13 { Hue::DarkGray }
        else if value == 14 { Hue::Black }
        else { Hue::ExtraBlack }
    }

    /// The value must fit in four bits.
    pub fn from_u8(value: u8) -> (r: Hue)
        requires
            value < 16,
        ensures
            r == Self::spec_from_u8(value),
            r.spec_to_u8() == value,
    {
        match value {
            0 => Hue::Gray,
            1 => Hue::Azure,
            2 => Hue::Blue,
            3 => Hue::Violet,
            4 => Hue::Magenta,
            5 => Hue::Rose,
            6 => Hue::Maroon,
            7 => Hue::Orange,
            8 => Hue::Olive,
            9 => Hue::Chartreuse,
            10 => Hue::Green,
            11 => Hue::Spring,
            12 => Hue::Cyan,
            13 => Hue::DarkGray,
            14 => Hue::Black,
            _ => Hue::ExtraBlack,
        }
    }

    pub fn to_u8(self) -> (r: u8)
        ensures
            r == self.spec_to_u8(),
            r < 16,
    {
        self as u8
    }
}

/// Determines NTSC/PAL luma.
#[derive(PartialEq, Eq, Clone, Copy, Debug, Structural)]
pub enum Brightness {
    Minimum,
    Low,
    High,
    Maximum,
}

impl Brightness {
    pub open spec fn spec_to_u8(self) -> u8 {
        match self {
            Brightness::Minimum => 0,
            Brightness::Low => 1,
            Brightness::High => 2,
            Brightness::Maximum => 3,
        }
    }

    pub open spec fn spec_from_u8(value: u8) -> Brightness {
        if value == 0 {
            Brightness::Minimum
        } else if value == 1 {
            Brightness::Low
        } else if value == 2 {
            Brightness::High
        } else {
            Brightness::Maximum
        }
    }

    /// The value must fit in two bits.
    pub fn from_u8(value: u8) -> (r: Brightness)
        requires
            value < 4,
        ensures
            r == Self::spec_from_u8(value),
            r.spec_to_u8() == value,
    {
        match value {
            0 => Brightness::Minimum,
            1 => Brightness::Low,
            2 => Brightness::High,
            _ => Brightness::Maximum,
        }
    }

    pub fn to_u8(self) -> (r: u8)
        ensures
            r == self.spec_to_u8(),
            r < 4,
    {
        self as u8
    }
}

} // verus!
