//! Pixel candidates produced by the rasterizer.

use crate::color::Color;
use vstd::prelude::*;

verus! {

/// A screen pixel candidate: integer pixel position, interpolated color and
/// depth, and the flat lighting intensity of its triangle (a fixed-point
/// factor in [0, 1]).
#[derive(Clone, Copy, PartialEq, Eq, Structural, Debug)]
pub struct Fragment {
    pub x: i64,
    pub y: i64,
    pub color: Color,
    pub depth: i64,
    pub intensity: i64,
}

impl Fragment {
    pub fn new(x: i64, y: i64, color: Color, depth: i64) -> (f: Fragment)
        ensures
            f == (Fragment { x, y, color, depth, intensity: 1000i64 }),
    {
        Fragment { x, y, color, depth, intensity: 1000 }
    }

    pub fn new_with_intensity(x: i64, y: i64, color: Color, depth: i64, intensity: i64) -> (f:
        Fragment)
        ensures
            f == (Fragment { x, y, color, depth, intensity }),
    {
        Fragment { x, y, color, depth, intensity }
    }
}

} // verus!
