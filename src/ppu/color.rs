use vstd::prelude::*;

verus! {

/// One screen pixel as 32-bit ARGB; the alpha byte is left at zero.
pub type Pixel = u32;

#[derive(Clone, Copy)]
pub struct Color {
    pub r: u8,
    pub g: u8,
    pub b: u8,
}

pub open spec fn pixel_of(c: Color) -> Pixel {
    (c.r as int * 0x10000 + c.g as int * 0x100 + c.b as int) as Pixel
}

/// The shade that a two-bit DMG color number stands for.
pub open spec fn shade(n: u8) -> Color {
    if n == 0 {
        Color { r: 255, g: 255, b: 255 }
    } else if n == 1 {
        Color { r: 160, g: 160, b: 160 }
    } else if n == 2 {
        Color { r: 64, g: 64, b: 64 }
    } else {
        Color { r: 0, g: 0, b: 0 }
    }
}

/// A little-endian RGB555 color (red in the low five bits) widened to eight
/// bits per channel.
pub open spec fn rgb555(c: u16) -> Color {
    Color { r: ((c % 32) * 8) as u8, g: ((c / 32 % 32) * 8) as u8, b: ((c / 1024 % 32) * 8) as u8 }
}

impl Color {
    pub fn into_pixel(self) -> (p: Pixel)
        ensures
            p == pixel_of(self),
    {
        (self.r as u32) * 0x10000 + (self.g as u32) * 0x100 + (self.b as u32)
    }

    pub fn from_rgb555(c: u16) -> (r: Color)
        ensures
            r == rgb555(c),
    {
        Color { r: ((c % 32) * 8) as u8, g: ((c / 32 % 32) * 8) as u8, b: ((c / 1024 % 32) * 8) as u8 }
    }
}

pub fn get_matching_color(number: u8) -> (c: Color)
    ensures
        c == shade(number),
{
    if number == 0 {
        Color { r: 255, g: 255, b: 255 }
    } else if number == 1 {
        Color { r: 160, g: 160, b: 160 }
    } else if number == 2 {
        Color { r: 64, g: 64, b: 64 }
    } else {
        Color { r: 0, g: 0, b: 0 }
    }
}

} // verus!
