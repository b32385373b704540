use vstd::prelude::*;

verus! {

pub open spec fn bit_set(value: u8, bit: u8) -> bool {
    value & (1u8 << bit) != 0
}

pub fn is_bit_set(value: u8, bit: u8) -> (r: bool)
    requires
        bit < 8,
    ensures
        r == bit_set(value, bit),
{
    value & (1u8 << bit) != 0
}

/// Which palette a sprite reads its colors from.
#[derive(Clone, Copy)]
pub enum Pallete {
    /// OBP1 when true, OBP0 when false.
    GbPallete(bool),
    /// One of the eight color-RAM palettes.
    GbcPallete(u8),
}

#[derive(Clone, Copy)]
pub struct Attributes {
    pub priority: bool,
    pub flip_y: bool,
    pub flip_x: bool,
    pub bank: bool,
}

impl Attributes {
    pub fn new_gb(attribute: u8) -> (a: Self)
        ensures
            a.priority == bit_set(attribute, 7),
            a.flip_y == bit_set(attribute, 6),
            a.flip_x == bit_set(attribute, 5),
            !a.bank,
    {
        Attributes {
            priority: is_bit_set(attribute, 7),
            flip_y: is_bit_set(attribute, 6),
            flip_x: is_bit_set(attribute, 5),
            bank: false,
        }
    }

    pub fn new_gbc(attribute: u8) -> (a: Self)
        ensures
            a.priority == bit_set(attribute, 7),
            a.flip_y == bit_set(attribute, 6),
            a.flip_x == bit_set(attribute, 5),
            a.bank == bit_set(attribute, 3),
    {
        Attributes {
            priority: is_bit_set(attribute, 7),
            flip_y: is_bit_set(attribute, 6),
            flip_x: is_bit_set(attribute, 5),
            bank: is_bit_set(attribute, 3),
        }
    }
}

#[derive(Clone, Copy)]
pub struct BackgroundAttributes {
    pub attribute: Attributes,
    pub cgb_pallete_number: u8,
}

/// The attributes that a GBC background-map attribute byte stands for.
pub open spec fn bg_attributes(attribute: u8) -> BackgroundAttributes {
    BackgroundAttributes {
        attribute: Attributes {
            priority: bit_set(attribute, 7),
            flip_y: bit_set(attribute, 6),
            flip_x: bit_set(attribute, 5),
            bank: bit_set(attribute, 3),
        },
        cgb_pallete_number: attribute % 8,
    }
}

impl BackgroundAttributes {
    pub fn new(attribute: u8) -> (a: Self)
        ensures
            a == bg_attributes(attribute),
            a.attribute.priority == bit_set(attribute, 7),
            a.attribute.flip_y == bit_set(attribute, 6),
            a.attribute.flip_x == bit_set(attribute, 5),
            a.attribute.bank == bit_set(attribute, 3),
            a.cgb_pallete_number == attribute % 8,
            a.cgb_pallete_number < 8,
    {
        proof {
            assert(attribute & 7 == attribute % 8) by (bit_vector);
        }
        BackgroundAttributes { attribute: Attributes::new_gbc(attribute), cgb_pallete_number: attribute & 7 }
    }
}

#[derive(Clone, Copy)]
pub struct SpriteAttributes {
    pub y: u8,
    pub x: u8,
    pub tile_number: u8,
    pub palette_number: Pallete,
    pub attribute: Attributes,
    pub oam_index: u8,
}

impl SpriteAttributes {
    pub fn new_gb(y: u8, x: u8, tile_number: u8, attributes: u8) -> (s: Self)
        ensures
            s.y == y,
            s.x == x,
            s.tile_number == tile_number,
            s.oam_index == 0,
            s.palette_number == Pallete::GbPallete(bit_set(attributes, 4)),
            s.attribute.priority == bit_set(attributes, 7),
            s.attribute.flip_y == bit_set(attributes, 6),
            s.attribute.flip_x == bit_set(attributes, 5),
            !s.attribute.bank,
    {
        Self::new(y, x, tile_number, Attributes::new_gb(attributes), Pallete::GbPallete(is_bit_set(attributes, 4)), 0)
    }

    pub fn new_gbc(y: u8, x: u8, tile_number: u8, attributes: u8, oam_index: u8) -> (s: Self)
        ensures
            s.y == y,
            s.x == x,
            s.tile_number == tile_number,
            s.oam_index == oam_index,
            s.palette_number == Pallete::GbcPallete(attributes % 8),
            s.attribute.priority == bit_set(attributes, 7),
            s.attribute.flip_y == bit_set(attributes, 6),
            s.attribute.flip_x == bit_set(attributes, 5),
            s.attribute.bank == bit_set(attributes, 3),
    {
        proof {
            assert(attributes & 7 == attributes % 8) by (bit_vector);
        }
        Self::new(y, x, tile_number, Attributes::new_gbc(attributes), Pallete::GbcPallete(attributes & 7), oam_index)
    }

    pub fn new(y: u8, x: u8, tile_number: u8, attribute: Attributes, palette_number: Pallete, oam_index: u8) -> (s: Self)
        ensures
            s == (SpriteAttributes { y, x, tile_number, attribute, palette_number, oam_index }),
    {
        SpriteAttributes { y, x, tile_number, attribute, palette_number, oam_index }
    }
}

} // verus!
