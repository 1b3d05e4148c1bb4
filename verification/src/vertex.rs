//! Mesh vertices: object-space attributes plus the per-frame transformed
//! copy filled in by the vertex stage.

use crate::color::Color;
use crate::fixed::{FX_LIM, POS_LIM};
use crate::vec::{v3_bounded, Vec2, Vec3};
use vstd::prelude::*;

verus! {

#[derive(Clone, Copy, PartialEq, Eq, Structural, Debug)]
pub struct Vertex {
    pub position: Vec3,
    pub normal: Vec3,
    pub tex_coords: Vec2,
    pub color: Color,
    pub transformed_position: Vec3,
    pub transformed_normal: Vec3,
}

/// The bounds every vertex of a mesh keeps: positions inside the world
/// limit, normals inside the coordinate limit.
pub open spec fn vertex_wf(v: Vertex) -> bool {
    &&& v3_bounded(v.position, POS_LIM as int)
    &&& v3_bounded(v.normal, FX_LIM as int)
    &&& v3_bounded(v.transformed_position, POS_LIM as int)
    &&& v3_bounded(v.transformed_normal, FX_LIM as int)
}

impl Vertex {
    /// A freshly loaded vertex: transformed fields at their defaults, color
    /// black until the shading stage assigns one.
    pub fn new(position: Vec3, normal: Vec3, tex_coords: Vec2) -> (v: Vertex)
        requires
            v3_bounded(position, POS_LIM as int),
            v3_bounded(normal, FX_LIM as int),
        ensures
            v.position == position,
            v.normal == normal,
            v.tex_coords == tex_coords,
            v.color == (Color { r: 0, g: 0, b: 0 }),
            v.transformed_position == (Vec3 { x: 0, y: 0, z: 0 }),
            v.transformed_normal == normal,
            vertex_wf(v),
    {
        Vertex {
            position,
            normal,
            tex_coords,
            color: Color { r: 0, g: 0, b: 0 },
            transformed_position: Vec3 { x: 0, y: 0, z: 0 },
            transformed_normal: normal,
        }
    }
}

} // verus!
