//! Packed 8-bit-per-channel RGB colors.

use vstd::arithmetic::div_mod::{
    lemma_fundamental_div_mod_converse_div, lemma_fundamental_div_mod_converse_mod,
};
use vstd::prelude::*;

verus! {

#[derive(Clone, Copy, PartialEq, Eq, Structural, Debug)]
pub struct Color {
    pub r: u8,
    pub g: u8,
    pub b: u8,
}

/// The packed representation: red in the high byte of the low 24 bits.
pub open spec fn color_hex_s(c: Color) -> int {
    c.r * 65536 + c.g * 256 + c.b
}

pub open spec fn color_of_hex_s(h: int) -> Color {
    Color { r: ((h / 65536) % 256) as u8, g: ((h / 256) % 256) as u8, b: (h % 256) as u8 }
}

impl Color {
    pub fn new(r: u8, g: u8, b: u8) -> (c: Color)
        ensures
            c == (Color { r, g, b }),
    {
        Color { r, g, b }
    }

    /// The packed 32-bit value presented to the display.
    pub fn to_hex(&self) -> (h: u32)
        ensures
            h == color_hex_s(*self),
            h < 16777216,
    {
        (self.r as u32) * 65536 + (self.g as u32) * 256 + (self.b as u32)
    }

    /// Unpack a 32-bit value; bits above the low 24 are ignored.
    pub fn from_hex(h: u32) -> (c: Color)
        ensures
            c == color_of_hex_s(h as int),
    {
        Color {
            r: ((h / 65536) % 256) as u8,
            g: ((h / 256) % 256) as u8,
            b: (h % 256) as u8,
        }
    }
}

/// A raw channel value saturated into one byte, the behaviour of the
/// narrowing at the end of every shading formula.
pub open spec fn chan_s(v: int) -> int {
    if v < 0 {
        0
    } else if v > 255 {
        255
    } else {
        v
    }
}

pub fn chan(v: i64) -> (r: u8)
    ensures
        r == chan_s(v as int),
{
    if v < 0 {
        0
    } else if v > 255 {
        255
    } else {
        v as u8
    }
}

/// Packing then unpacking restores every channel.
pub proof fn lemma_color_hex_round_trip(c: Color)
    ensures
        color_of_hex_s(color_hex_s(c)) == c,
{
    let h = color_hex_s(c);
    assert(h == (c.r * 256 + c.g) * 256 + c.b) by (nonlinear_arith)
        requires
            h == c.r * 65536 + c.g * 256 + c.b,
    ;
    lemma_fundamental_div_mod_converse_div(h, 256, c.r * 256 + c.g, c.b as int);
    lemma_fundamental_div_mod_converse_mod(h, 256, c.r * 256 + c.g, c.b as int);
    assert(h / 256 == c.r * 256 + c.g);
    lemma_fundamental_div_mod_converse_mod(c.r * 256 + c.g, 256, c.r as int, c.g as int);
    assert(h == c.r * 65536 + (c.g * 256 + c.b)) by (nonlinear_arith)
        requires
            h == c.r * 65536 + c.g * 256 + c.b,
    ;
    lemma_fundamental_div_mod_converse_div(h, 65536, c.r as int, c.g * 256 + c.b);
    assert(h / 65536 == c.r);
    lemma_fundamental_div_mod_converse_mod(c.r as int, 256, 0, c.r as int);
}

} // verus!
