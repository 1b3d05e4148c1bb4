//! Background meshes: a latitude-longitude sphere for the starfield and a
//! cube, both emitted as flat triangle lists.

use crate::color::Color;
use crate::fixed::{
    fx_cos, fx_cos_s, fx_mul, fx_mul_s, fx_sin, fx_sin_s, lemma_fx_mul_unit, tdiv, POS_LIM,
};
use crate::vec::{v3_bounded, v3_norm, v3_norm_s, Vec2, Vec3};
use crate::vertex::{vertex_wf, Vertex};
use vstd::prelude::*;

verus! {

pub struct Skybox;

/// The grid vertex of the sphere at latitude step `i` and longitude step
/// `j` out of `sub`.
pub open spec fn sphere_vertex_s(radius: int, sub: int, i: int, j: int) -> Vertex {
    let theta = tdiv(i * 3142, sub);
    let phi = tdiv(j * 6283, sub);
    let pos = Vec3 {
        x: fx_mul_s(radius, fx_mul_s(fx_sin_s(theta), fx_cos_s(phi))) as i64,
        y: fx_mul_s(radius, fx_cos_s(theta)) as i64,
        z: fx_mul_s(radius, fx_mul_s(fx_sin_s(theta), fx_sin_s(phi))) as i64,
    };
    Vertex {
        position: pos,
        normal: v3_norm_s(pos),
        tex_coords: Vec2 { x: 0, y: 0 },
        color: Color { r: 0, g: 0, b: 0 },
        transformed_position: Vec3 { x: 0, y: 0, z: 0 },
        transformed_normal: v3_norm_s(pos),
    }
}

/// The six entries one grid cell contributes to the triangle list.
pub open spec fn sphere_block_ok(
    s: Seq<Vertex>,
    radius: int,
    sub: int,
    ri: int,
    rj: int,
) -> bool {
    let base = 6 * (ri * sub + rj);
    &&& s[base] == sphere_vertex_s(radius, sub, ri, rj)
    &&& s[base + 1] == sphere_vertex_s(radius, sub, ri + 1, rj + 1)
    &&& s[base + 2] == sphere_vertex_s(radius, sub, ri, rj + 1)
    &&& s[base + 3] == sphere_vertex_s(radius, sub, ri, rj)
    &&& s[base + 4] == sphere_vertex_s(radius, sub, ri + 1, rj)
    &&& s[base + 5] == sphere_vertex_s(radius, sub, ri + 1, rj + 1)
}

fn sphere_vertex(radius: i64, sub: u32, i: u32, j: u32) -> (v: Vertex)
    requires
        0 <= radius <= 1_000_000_000,
        1 <= sub <= 256,
        i <= sub,
        j <= sub,
    ensures
        v == sphere_vertex_s(radius as int, sub as int, i as int, j as int),
        vertex_wf(v),
{
    let theta: i64 = ((i as i64) * 3142) / (sub as i64);
    let phi: i64 = ((j as i64) * 6283) / (sub as i64);
    let st = fx_sin(theta);
    let ct = fx_cos(theta);
    let sp = fx_sin(phi);
    let cp = fx_cos(phi);
    proof {
        lemma_fx_mul_unit(st as int, cp as int);
        lemma_fx_mul_unit(st as int, sp as int);
        lemma_fx_mul_unit(radius as int, fx_mul_s(st as int, cp as int));
        lemma_fx_mul_unit(radius as int, ct as int);
        lemma_fx_mul_unit(radius as int, fx_mul_s(st as int, sp as int));
    }
    let pos = Vec3 {
        x: fx_mul(radius, fx_mul(st, cp)),
        y: fx_mul(radius, ct),
        z: fx_mul(radius, fx_mul(st, sp)),
    };
    let normal = v3_norm(pos);
    Vertex {
        position: pos,
        normal,
        tex_coords: Vec2 { x: 0, y: 0 },
        color: Color { r: 0, g: 0, b: 0 },
        transformed_position: Vec3 { x: 0, y: 0, z: 0 },
        transformed_normal: normal,
    }
}

/// One of the eight cube corners, components at plus or minus half the
/// edge length.
pub open spec fn cube_corner_s(size: int, k: int) -> Vec3 {
    let h = tdiv(size, 2);
    if k == 0 {
        Vec3 { x: (-h) as i64, y: (-h) as i64, z: (-h) as i64 }
    } else if k == 1 {
        Vec3 { x: h as i64, y: (-h) as i64, z: (-h) as i64 }
    } else if k == 2 {
        Vec3 { x: h as i64, y: h as i64, z: (-h) as i64 }
    } else if k == 3 {
        Vec3 { x: (-h) as i64, y: h as i64, z: (-h) as i64 }
    } else if k == 4 {
        Vec3 { x: (-h) as i64, y: (-h) as i64, z: h as i64 }
    } else if k == 5 {
        Vec3 { x: h as i64, y: (-h) as i64, z: h as i64 }
    } else if k == 6 {
        Vec3 { x: h as i64, y: h as i64, z: h as i64 }
    } else {
        Vec3 { x: (-h) as i64, y: h as i64, z: h as i64 }
    }
}

/// The vertex the cube mesh places at one corner: outward normal, default
/// transformed fields.
pub open spec fn cube_vertex_s(size: int, k: int) -> Vertex {
    let pos = cube_corner_s(size, k);
    Vertex {
        position: pos,
        normal: v3_norm_s(pos),
        tex_coords: Vec2 { x: 0, y: 0 },
        color: Color { r: 0, g: 0, b: 0 },
        transformed_position: Vec3 { x: 0, y: 0, z: 0 },
        transformed_normal: v3_norm_s(pos),
    }
}

/// Corner indices of the twelve cube triangles, two per face.
pub open spec fn cube_index_s(k: int) -> int {
    seq![
        0int, 1, 2, 0, 2, 3, 4, 6, 5, 4, 7, 6, 0, 3, 7, 0, 7, 4, 1, 5, 6, 1, 6, 2, 0, 4, 5, 0, 5,
        1, 3, 2, 6, 3, 6, 7,
    ][k]
}

impl Skybox {
    /// A latitude-longitude sphere as a flat triangle list: for each of
    /// the `subdivisions` by `subdivisions` grid cells, two triangles over
    /// the four surrounding grid vertices.
    pub fn create_sphere_vertices(radius: i64, subdivisions: u32) -> (vertices: Vec<Vertex>)
        requires
            0 <= radius <= 1_000_000_000,
            1 <= subdivisions <= 256,
        ensures
            vertices@.len() == 6 * (subdivisions as int) * (subdivisions as int),
            forall|ri: int, rj: int|
                0 <= ri < subdivisions && 0 <= rj < subdivisions ==> #[trigger] sphere_block_ok(
                    vertices@,
                    radius as int,
                    subdivisions as int,
                    ri,
                    rj,
                ),
            forall|k: int| 0 <= k < vertices@.len() ==> vertex_wf(#[trigger] vertices@[k]),
    {
        let sub = subdivisions;
        let mut triangle_vertices: Vec<Vertex> = Vec::new();
        let mut i: u32 = 0;
        while i < sub
            invariant
                0 <= radius <= 1_000_000_000,
                1 <= sub <= 256,
                0 <= i <= sub,
                triangle_vertices@.len() == 6 * ((i as int) * (sub as int)),
                forall|ri: int, rj: int|
                    0 <= ri < i && 0 <= rj < sub ==> #[trigger] sphere_block_ok(
                        triangle_vertices@,
                        radius as int,
                        sub as int,
                        ri,
                        rj,
                    ),
                forall|k: int|
                    0 <= k < triangle_vertices@.len() ==> vertex_wf(
                        #[trigger] triangle_vertices@[k],
                    ),
            decreases sub - i,
        {
            let mut j: u32 = 0;
            while j < sub
                invariant
                    0 <= radius <= 1_000_000_000,
                    1 <= sub <= 256,
                    0 <= i < sub,
                    0 <= j <= sub,
                    triangle_vertices@.len() == 6 * ((i as int) * (sub as int) + (j as int)),
                    forall|ri: int, rj: int|
                        (0 <= ri < i && 0 <= rj < sub) || (ri == i && 0 <= rj < j)
                            ==> #[trigger] sphere_block_ok(
                            triangle_vertices@,
                            radius as int,
                            sub as int,
                            ri,
                            rj,
                        ),
                    forall|k: int|
                        0 <= k < triangle_vertices@.len() ==> vertex_wf(
                            #[trigger] triangle_vertices@[k],
                        ),
                decreases sub - j,
            {
                let ghost pre = triangle_vertices@;
                let v00 = sphere_vertex(radius, sub, i, j);
                let v01 = sphere_vertex(radius, sub, i, j + 1);
                let v10 = sphere_vertex(radius, sub, i + 1, j);
                let v11 = sphere_vertex(radius, sub, i + 1, j + 1);
                triangle_vertices.push(v00);
                triangle_vertices.push(v11);
                triangle_vertices.push(v01);
                triangle_vertices.push(v00);
                triangle_vertices.push(v10);
                triangle_vertices.push(v11);
                proof {
                    assert(pre.len() == 6 * ((i as int) * (sub as int) + (j as int)));
                    assert(sphere_block_ok(
                        triangle_vertices@,
                        radius as int,
                        sub as int,
                        i as int,
                        j as int,
                    ));
                    assert forall|ri: int, rj: int|
                        (0 <= ri < i && 0 <= rj < sub) || (ri == i && 0 <= rj < j
                            + 1) implies #[trigger] sphere_block_ok(
                        triangle_vertices@,
                        radius as int,
                        sub as int,
                        ri,
                        rj,
                    ) by {
                        if ri < i || rj < j {
                            assert(sphere_block_ok(pre, radius as int, sub as int, ri, rj));
                            assert(6 * (ri * (sub as int) + rj) + 5 < pre.len())
                                by (nonlinear_arith)
                                requires
                                    ((0 <= ri < i && 0 <= rj < sub) || (ri == i && 0 <= rj < j)),
                                    pre.len() == 6 * ((i as int) * (sub as int) + (j as int)),
                                    1 <= sub,
                                    rj < sub,
                            ;
                        }
                    }
                }
                j = j + 1;
            }
            proof {
                assert(6 * ((i as int) * (sub as int) + (sub as int)) == 6 * (((i as int) + 1) * (
                sub as int))) by (nonlinear_arith);
            }
            i = i + 1;
        }
        proof {
            assert(6 * ((sub as int) * (sub as int)) == 6 * (sub as int) * (sub as int))
                by (nonlinear_arith);
        }
        triangle_vertices
    }

    /// A cube as a flat triangle list of thirty-six corner vertices, six
    /// per face.
    pub fn create_cube_vertices(size: i64) -> (vertices: Vec<Vertex>)
        requires
            0 <= size <= 1_000_000_000,
        ensures
            vertices@.len() == 36,
            forall|k: int|
                0 <= k < 36 ==> #[trigger] vertices@[k] == cube_vertex_s(
                    size as int,
                    cube_index_s(k),
                ),
            forall|k: int| 0 <= k < 36 ==> vertex_wf(#[trigger] vertices@[k]),
    {
        let half = size / 2;
        let p0 = Vec3 { x: -half, y: -half, z: -half };
        let p1 = Vec3 { x: half, y: -half, z: -half };
        let p2 = Vec3 { x: half, y: half, z: -half };
        let p3 = Vec3 { x: -half, y: half, z: -half };
        let p4 = Vec3 { x: -half, y: -half, z: half };
        let p5 = Vec3 { x: half, y: -half, z: half };
        let p6 = Vec3 { x: half, y: half, z: half };
        let p7 = Vec3 { x: -half, y: half, z: half };
        let v0 = cube_vertex(p0);
        let v1 = cube_vertex(p1);
        let v2 = cube_vertex(p2);
        let v3 = cube_vertex(p3);
        let v4 = cube_vertex(p4);
        let v5 = cube_vertex(p5);
        let v6 = cube_vertex(p6);
        let v7 = cube_vertex(p7);
        proof {
            assert(v0 == cube_vertex_s(size as int, 0));
            assert(v1 == cube_vertex_s(size as int, 1));
            assert(v2 == cube_vertex_s(size as int, 2));
            assert(v3 == cube_vertex_s(size as int, 3));
            assert(v4 == cube_vertex_s(size as int, 4));
            assert(v5 == cube_vertex_s(size as int, 5));
            assert(v6 == cube_vertex_s(size as int, 6));
            assert(v7 == cube_vertex_s(size as int, 7));
        }
        let mut vertices: Vec<Vertex> = Vec::new();
        vertices.push(v0);
        vertices.push(v1);
        vertices.push(v2);
        vertices.push(v0);
        vertices.push(v2);
        vertices.push(v3);
        vertices.push(v4);
        vertices.push(v6);
        vertices.push(v5);
        vertices.push(v4);
        vertices.push(v7);
        vertices.push(v6);
        vertices.push(v0);
        vertices.push(v3);
        vertices.push(v7);
        vertices.push(v0);
        vertices.push(v7);
        vertices.push(v4);
        vertices.push(v1);
        vertices.push(v5);
        vertices.push(v6);
        vertices.push(v1);
        vertices.push(v6);
        vertices.push(v2);
        vertices.push(v0);
        vertices.push(v4);
        vertices.push(v5);
        vertices.push(v0);
        vertices.push(v5);
        vertices.push(v1);
        vertices.push(v3);
        vertices.push(v2);
        vertices.push(v6);
        vertices.push(v3);
        vertices.push(v6);
        vertices.push(v7);
        vertices
    }
}

/// Build a cube corner vertex with its outward normal.
fn cube_vertex(pos: Vec3) -> (v: Vertex)
    requires
        v3_bounded(pos, POS_LIM as int),
    ensures
        v == (Vertex {
            position: pos,
            normal: v3_norm_s(pos),
            tex_coords: Vec2 { x: 0, y: 0 },
            color: Color { r: 0, g: 0, b: 0 },
            transformed_position: Vec3 { x: 0, y: 0, z: 0 },
            transformed_normal: v3_norm_s(pos),
        }),
        vertex_wf(v),
{
    let normal = v3_norm(pos);
    Vertex {
        position: pos,
        normal,
        tex_coords: Vec2 { x: 0, y: 0 },
        color: Color { r: 0, g: 0, b: 0 },
        transformed_position: Vec3 { x: 0, y: 0, z: 0 },
        transformed_normal: normal,
    }
}

} // verus!
