//! The triangle rasterizer: bounding-box scan with the exact barycentric
//! interior test and linear color and depth interpolation.
//!
//! Coordinates are fixed-point screen positions; pixel centers sit half a
//! unit inside each cell. The interior test compares the three edge values
//! against the signed area directly: the closed-interval test on the
//! barycentric weights, carried out in exact integers without a division.

use crate::color::Color;
use crate::fixed::{
    cdiv1000, cdiv1000_s, clamp_i64, clamp_s, fdiv1000, fdiv1000_s, fx_mul, fx_mul_s,
    lemma_fx_mul_le, lemma_tdiv_bound, lemma_tdiv_neg, max_s, min_s, tdiv, tdiv_i128, FX_LIM,
    POS_LIM,
};
use crate::fragment::Fragment;
use crate::shaders::{attenuation, attenuation_s};
use crate::uniforms::{uniforms_wf, Uniforms};
use crate::vec::{
    lemma_v3_cross_s_bound, lemma_v3_dot_s_bound, v3_bounded, v3_cross, v3_cross_s, v3_dot,
    v3_dot_s, v3_len, v3_len_s, v3_norm, v3_norm_s, v3_sub, v3_sub_s, Vec3,
};
use crate::vertex::{vertex_wf, Vertex};
use vstd::arithmetic::div_mod::{lemma_div_is_ordered, lemma_div_pos_is_pos};
use vstd::prelude::*;

verus! {

/// Largest bounding-box dimension, in pixels, that is still rasterized.
pub const MAX_TRIANGLE_SIZE: i64 = 300;

/// The 2D edge function: twice the signed area of the triangle through
/// `a` and `b` with the query point `c`.
pub open spec fn ef_s(a: Vec3, b: Vec3, c: Vec3) -> int {
    (c.x - a.x) * (b.y - a.y) - (c.y - a.y) * (b.x - a.x)
}

pub fn edge_function(a: &Vec3, b: &Vec3, c: &Vec3) -> (r: i64)
    requires
        v3_bounded(*a, POS_LIM as int),
        v3_bounded(*b, POS_LIM as int),
        v3_bounded(*c, POS_LIM as int),
    ensures
        r == ef_s(*a, *b, *c),
        -8_000_000_000_000_000_000 <= r <= 8_000_000_000_000_000_000,
{
    proof {
        lemma_fx_mul_le(
            c.x as int - a.x as int,
            b.y as int - a.y as int,
            2_000_000_000,
            2_000_000_000,
        );
        lemma_fx_mul_le(
            c.y as int - a.y as int,
            b.x as int - a.x as int,
            2_000_000_000,
            2_000_000_000,
        );
    }
    (c.x - a.x) * (b.y - a.y) - (c.y - a.y) * (b.x - a.x)
}

/// The three edge values at a point partition the triangle's area.
pub proof fn lemma_edge_sum(a: Vec3, b: Vec3, c: Vec3, p: Vec3)
    ensures
        ef_s(b, c, p) + ef_s(c, a, p) + ef_s(a, b, p) == ef_s(a, b, c),
{
    assert((p.x - b.x) * (c.y - b.y) == p.x * c.y - p.x * b.y - b.x * c.y + b.x * b.y)
        by (nonlinear_arith);
    assert((p.y - b.y) * (c.x - b.x) == p.y * c.x - p.y * b.x - b.y * c.x + b.y * b.x)
        by (nonlinear_arith);
    assert((p.x - c.x) * (a.y - c.y) == p.x * a.y - p.x * c.y - c.x * a.y + c.x * c.y)
        by (nonlinear_arith);
    assert((p.y - c.y) * (a.x - c.x) == p.y * a.x - p.y * c.x - c.y * a.x + c.y * c.x)
        by (nonlinear_arith);
    assert((p.x - a.x) * (b.y - a.y) == p.x * b.y - p.x * a.y - a.x * b.y + a.x * a.y)
        by (nonlinear_arith);
    assert((p.y - a.y) * (b.x - a.x) == p.y * b.x - p.y * a.x - a.y * b.x + a.y * a.x)
        by (nonlinear_arith);
    assert((c.x - a.x) * (b.y - a.y) == c.x * b.y - c.x * a.y - a.x * b.y + a.x * a.y)
        by (nonlinear_arith);
    assert((c.y - a.y) * (b.x - a.x) == c.y * b.x - c.y * a.x - a.y * b.x + a.y * a.x)
        by (nonlinear_arith);
    assert(b.x * b.y == b.y * b.x && c.x * c.y == c.y * c.x && a.x * a.y == a.y * a.x && p.x * c.y
        == c.y * p.x && p.x * b.y == b.y * p.x && p.x * a.y == a.y * p.x && p.y * c.x == c.x * p.y
        && p.y * b.x == b.x * p.y && p.y * a.x == a.x * p.y && b.x * c.y == c.y * b.x && c.x * a.y
        == a.y * c.x && a.x * b.y == b.y * a.x && b.y * c.x == c.x * b.y && c.y * a.x == a.x * c.y
        && a.y * b.x == b.x * a.y) by (nonlinear_arith);
}

/// The center of an integer pixel in fixed-point screen coordinates.
pub open spec fn pixel_center_s(px: int, py: int) -> Vec3 {
    Vec3 { x: (px * 1000 + 500) as i64, y: (py * 1000 + 500) as i64, z: 0 }
}

/// The closed interior test: all three barycentric weights lie in [0, 1],
/// stated without division as the edge values lying between zero and the
/// signed area. A degenerate triangle has no interior.
pub open spec fn inside_s(a: Vec3, b: Vec3, c: Vec3, px: int, py: int) -> bool {
    let p = pixel_center_s(px, py);
    let area = ef_s(a, b, c);
    let e1 = ef_s(b, c, p);
    let e2 = ef_s(c, a, p);
    let e3 = ef_s(a, b, p);
    if area > 0 {
        0 <= e1 <= area && 0 <= e2 <= area && 0 <= e3 <= area
    } else if area < 0 {
        area <= e1 <= 0 && area <= e2 <= 0 && area <= e3 <= 0
    } else {
        false
    }
}

pub open spec fn min3_s(x: int, y: int, z: int) -> int {
    min_s(min_s(x, y), z)
}

pub open spec fn max3_s(x: int, y: int, z: int) -> int {
    max_s(max_s(x, y), z)
}

pub open spec fn bbox_min_x_s(a: Vec3, b: Vec3, c: Vec3) -> int {
    clamp_s(fdiv1000_s(min3_s(a.x as int, b.x as int, c.x as int)), -1000, 2000)
}

pub open spec fn bbox_min_y_s(a: Vec3, b: Vec3, c: Vec3) -> int {
    clamp_s(fdiv1000_s(min3_s(a.y as int, b.y as int, c.y as int)), -1000, 2000)
}

pub open spec fn bbox_max_x_s(a: Vec3, b: Vec3, c: Vec3) -> int {
    clamp_s(cdiv1000_s(max3_s(a.x as int, b.x as int, c.x as int)), -1000, 2000)
}

pub open spec fn bbox_max_y_s(a: Vec3, b: Vec3, c: Vec3) -> int {
    clamp_s(cdiv1000_s(max3_s(a.y as int, b.y as int, c.y as int)), -1000, 2000)
}

/// The integer pixel bounding box of three screen positions, floored and
/// ceiled, clamped into the safety window.
pub fn calculate_bounding_box(v1: &Vec3, v2: &Vec3, v3: &Vec3) -> (r: (i64, i64, i64, i64))
    requires
        v3_bounded(*v1, POS_LIM as int),
        v3_bounded(*v2, POS_LIM as int),
        v3_bounded(*v3, POS_LIM as int),
    ensures
        r.0 == bbox_min_x_s(*v1, *v2, *v3),
        r.1 == bbox_min_y_s(*v1, *v2, *v3),
        r.2 == bbox_max_x_s(*v1, *v2, *v3),
        r.3 == bbox_max_y_s(*v1, *v2, *v3),
        -1000 <= r.0 <= 2000,
        -1000 <= r.1 <= 2000,
        -1000 <= r.2 <= 2000,
        -1000 <= r.3 <= 2000,
        r.0 <= r.2,
        r.1 <= r.3,
{
    let mx = min3(v1.x, v2.x, v3.x);
    let my = min3(v1.y, v2.y, v3.y);
    let nx = max3(v1.x, v2.x, v3.x);
    let ny = max3(v1.y, v2.y, v3.y);
    proof {
        lemma_floor_le_ceil(mx as int, nx as int);
        lemma_floor_le_ceil(my as int, ny as int);
    }
    let min_x = clamp_i64(fdiv1000(mx), -1000, 2000);
    let min_y = clamp_i64(fdiv1000(my), -1000, 2000);
    let max_x = clamp_i64(cdiv1000(nx), -1000, 2000);
    let max_y = clamp_i64(cdiv1000(ny), -1000, 2000);
    (min_x, min_y, max_x, max_y)
}

fn min3(x: i64, y: i64, z: i64) -> (r: i64)
    ensures
        r == min3_s(x as int, y as int, z as int),
        r <= x && r <= y && r <= z,
{
    let m = if x < y {
        x
    } else {
        y
    };
    if m < z {
        m
    } else {
        z
    }
}

fn max3(x: i64, y: i64, z: i64) -> (r: i64)
    ensures
        r == max3_s(x as int, y as int, z as int),
        r >= x && r >= y && r >= z,
{
    let m = if x > y {
        x
    } else {
        y
    };
    if m > z {
        m
    } else {
        z
    }
}

/// The floor of a smaller value never exceeds the ceiling of a larger one.
proof fn lemma_floor_le_ceil(m: int, n: int)
    requires
        m <= n,
    ensures
        fdiv1000_s(m) <= cdiv1000_s(n),
{
    lemma_div_is_ordered(m, n + 999, 1000);
}

/// Linear interpolation of a vertex attribute by the unnormalized
/// barycentric weights: the exact rational, truncated once.
pub open spec fn interp_s(e1: int, e2: int, e3: int, area: int, z1: int, z2: int, z3: int) -> int {
    tdiv(e1 * z1 + e2 * z2 + e3 * z3, area)
}

/// Under the interior test the interpolated value stays inside the range
/// of the vertex values' bound, and stays non-negative for non-negative
/// attributes.
pub proof fn lemma_interp_bound(
    e1: int,
    e2: int,
    e3: int,
    area: int,
    z1: int,
    z2: int,
    z3: int,
    zb: int,
)
    requires
        area != 0,
        e1 + e2 + e3 == area,
        area > 0 ==> 0 <= e1 <= area && 0 <= e2 <= area && 0 <= e3 <= area,
        area < 0 ==> area <= e1 <= 0 && area <= e2 <= 0 && area <= e3 <= 0,
        zb >= 0,
        -zb <= z1 <= zb,
        -zb <= z2 <= zb,
        -zb <= z3 <= zb,
    ensures
        -zb <= interp_s(e1, e2, e3, area, z1, z2, z3) <= zb,
        (0 <= z1 && 0 <= z2 && 0 <= z3) ==> 0 <= interp_s(e1, e2, e3, area, z1, z2, z3),
{
    let num = e1 * z1 + e2 * z2 + e3 * z3;
    if area > 0 {
        assert(-(area * zb) <= num <= area * zb) by (nonlinear_arith)
            requires
                num == e1 * z1 + e2 * z2 + e3 * z3,
                e1 + e2 + e3 == area,
                0 <= e1,
                0 <= e2,
                0 <= e3,
                -zb <= z1 <= zb,
                -zb <= z2 <= zb,
                -zb <= z3 <= zb,
        ;
        lemma_tdiv_bound(num, area, zb);
        if 0 <= z1 && 0 <= z2 && 0 <= z3 {
            assert(num >= 0) by (nonlinear_arith)
                requires
                    num == e1 * z1 + e2 * z2 + e3 * z3,
                    0 <= e1,
                    0 <= e2,
                    0 <= e3,
                    0 <= z1,
                    0 <= z2,
                    0 <= z3,
            ;
            lemma_div_pos_is_pos(num, area);
        }
    } else {
        let na = -area;
        let nnum = -num;
        assert(-(na * zb) <= nnum <= na * zb) by (nonlinear_arith)
            requires
                nnum == -(e1 * z1 + e2 * z2 + e3 * z3),
                e1 + e2 + e3 == area,
                na == -area,
                e1 <= 0,
                e2 <= 0,
                e3 <= 0,
                -zb <= z1 <= zb,
                -zb <= z2 <= zb,
                -zb <= z3 <= zb,
        ;
        lemma_tdiv_neg(num, area);
        lemma_tdiv_bound(nnum, na, zb);
        if 0 <= z1 && 0 <= z2 && 0 <= z3 {
            assert(nnum >= 0) by (nonlinear_arith)
                requires
                    nnum == -(e1 * z1 + e2 * z2 + e3 * z3),
                    e1 <= 0,
                    e2 <= 0,
                    e3 <= 0,
                    0 <= z1,
                    0 <= z2,
                    0 <= z3,
            ;
            lemma_div_pos_is_pos(nnum, na);
        }
    }
}

/// Interpolate one attribute over wide intermediates.
fn interp3(e1: i64, e2: i64, e3: i64, area: i64, z1: i64, z2: i64, z3: i64, zb: i64) -> (r: i64)
    requires
        area != 0,
        e1 + e2 + e3 == area,
        area > 0 ==> 0 <= e1 <= area && 0 <= e2 <= area && 0 <= e3 <= area,
        area < 0 ==> area <= e1 <= 0 && area <= e2 <= 0 && area <= e3 <= 0,
        -9_223_372_036_854_775_807 <= area,
        0 <= zb <= 2_000_000_000,
        -zb <= z1 <= zb,
        -zb <= z2 <= zb,
        -zb <= z3 <= zb,
    ensures
        r == interp_s(e1 as int, e2 as int, e3 as int, area as int, z1 as int, z2 as int, z3 as int),
        -zb <= r <= zb,
        (0 <= z1 && 0 <= z2 && 0 <= z3) ==> 0 <= r,
{
    proof {
        lemma_interp_bound(
            e1 as int,
            e2 as int,
            e3 as int,
            area as int,
            z1 as int,
            z2 as int,
            z3 as int,
            zb as int,
        );
        lemma_fx_mul_le(e1 as int, z1 as int, 9_223_372_036_854_775_807, 2_000_000_000);
        lemma_fx_mul_le(e2 as int, z2 as int, 9_223_372_036_854_775_807, 2_000_000_000);
        lemma_fx_mul_le(e3 as int, z3 as int, 9_223_372_036_854_775_807, 2_000_000_000);
    }
    let num: i128 = (e1 as i128) * (z1 as i128) + (e2 as i128) * (z2 as i128) + (e3 as i128) * (
    z3 as i128);
    tdiv_i128(num, area as i128) as i64
}

/// The fragment the rasterizer emits at an interior pixel: interpolated
/// color and depth, the triangle's flat intensity attached.
pub open spec fn frag_at_s(v1: Vertex, v2: Vertex, v3: Vertex, intensity: i64, px: int, py: int) -> Fragment {
    let a = v1.transformed_position;
    let b = v2.transformed_position;
    let c = v3.transformed_position;
    let p = pixel_center_s(px, py);
    let area = ef_s(a, b, c);
    let e1 = ef_s(b, c, p);
    let e2 = ef_s(c, a, p);
    let e3 = ef_s(a, b, p);
    Fragment {
        x: px as i64,
        y: py as i64,
        color: Color {
            r: interp_s(e1, e2, e3, area, v1.color.r as int, v2.color.r as int, v3.color.r as int)
                as u8,
            g: interp_s(e1, e2, e3, area, v1.color.g as int, v2.color.g as int, v3.color.g as int)
                as u8,
            b: interp_s(e1, e2, e3, area, v1.color.b as int, v2.color.b as int, v3.color.b as int)
                as u8,
        },
        depth: interp_s(e1, e2, e3, area, a.z as int, b.z as int, c.z as int) as i64,
        intensity,
    }
}

/// The flat per-triangle lighting intensity: full for the light source
/// itself, a default when no uniforms are supplied, otherwise ambient plus
/// the face-normal diffuse term scaled by the distance attenuation.
pub open spec fn flat_intensity_of_s(v1: Vertex, v2: Vertex, v3: Vertex, u: Uniforms) -> int {
    if u.is_light_source {
        1000
    } else {
        let edge1 = v3_sub_s(v2.position, v1.position);
        let edge2 = v3_sub_s(v3.position, v1.position);
        let n = v3_norm_s(v3_cross_s(edge1, edge2));
        let center = Vec3 {
            x: tdiv(v1.position.x + v2.position.x + v3.position.x, 3) as i64,
            y: tdiv(v1.position.y + v2.position.y + v3.position.y, 3) as i64,
            z: tdiv(v1.position.z + v2.position.z + v3.position.z, 3) as i64,
        };
        let ld = v3_norm_s(v3_sub_s(u.light_position, center));
        let diffuse = max_s(v3_dot_s(n, ld), 0);
        let d = v3_len_s(v3_sub_s(u.light_position, center));
        clamp_s(100 + fx_mul_s(diffuse, attenuation_s(d)), 0, 1000)
    }
}

pub open spec fn flat_intensity_s(v1: Vertex, v2: Vertex, v3: Vertex, u: Option<&Uniforms>) -> int {
    match u {
        None => 500,
        Some(uu) => flat_intensity_of_s(v1, v2, v3, *uu),
    }
}

/// Compute the flat lighting intensity of a triangle.
pub fn triangle_intensity(v1: &Vertex, v2: &Vertex, v3: &Vertex, uniforms: Option<&Uniforms>) -> (r:
    i64)
    requires
        vertex_wf(*v1),
        vertex_wf(*v2),
        vertex_wf(*v3),
        match uniforms {
            Some(u) => uniforms_wf(*u),
            None => true,
        },
    ensures
        r == flat_intensity_s(*v1, *v2, *v3, uniforms),
        0 <= r <= 1000,
{
    match uniforms {
        None => 500,
        Some(u) => {
            if u.is_light_source {
                1000
            } else {
                let edge1 = v3_sub(v2.position, v1.position);
                let edge2 = v3_sub(v3.position, v1.position);
                let cr = v3_cross(edge1, edge2);
                proof {
                    lemma_v3_cross_s_bound(edge1, edge2, 2_000_000_000, 2_000_000_000);
                }
                let n = v3_norm(cr);
                proof {
                    lemma_tdiv_bound(
                        v1.position.x as int + v2.position.x as int + v3.position.x as int,
                        3,
                        POS_LIM as int,
                    );
                    lemma_tdiv_bound(
                        v1.position.y as int + v2.position.y as int + v3.position.y as int,
                        3,
                        POS_LIM as int,
                    );
                    lemma_tdiv_bound(
                        v1.position.z as int + v2.position.z as int + v3.position.z as int,
                        3,
                        POS_LIM as int,
                    );
                }
                let center = Vec3 {
                    x: (v1.position.x + v2.position.x + v3.position.x) / 3,
                    y: (v1.position.y + v2.position.y + v3.position.y) / 3,
                    z: (v1.position.z + v2.position.z + v3.position.z) / 3,
                };
                let to_light = v3_sub(u.light_position, center);
                let ld = v3_norm(to_light);
                proof {
                    lemma_v3_dot_s_bound(n, ld, 1000, 1000);
                }
                let diffuse = crate::fixed::max_i64(v3_dot(n, ld), 0);
                let d = v3_len(to_light);
                let att = attenuation(d);
                proof {
                    lemma_fx_mul_le(diffuse as int, att as int, 3001, 1000);
                }
                clamp_i64(100 + fx_mul(diffuse, att), 0, 1000)
            }
        },
    }
}

/// Whether the size guard rejects the triangle outright.
pub open spec fn oversized_s(a: Vec3, b: Vec3, c: Vec3) -> bool {
    bbox_max_x_s(a, b, c) - bbox_min_x_s(a, b, c) > MAX_TRIANGLE_SIZE || bbox_max_y_s(a, b, c)
        - bbox_min_y_s(a, b, c) > MAX_TRIANGLE_SIZE
}

/// The fragments one pixel contributes to the rasterizer's output: one if
/// its center passes the interior test, none otherwise.
pub open spec fn cell_s(v1: Vertex, v2: Vertex, v3: Vertex, intensity: i64, px: int, py: int) -> Seq<
    Fragment,
> {
    if inside_s(
        v1.transformed_position,
        v2.transformed_position,
        v3.transformed_position,
        px,
        py,
    ) {
        seq![frag_at_s(v1, v2, v3, intensity, px, py)]
    } else {
        Seq::empty()
    }
}

/// The fragments of one pixel row, columns `x0` through `x1`, in order.
pub open spec fn raster_row_s(
    v1: Vertex,
    v2: Vertex,
    v3: Vertex,
    intensity: i64,
    py: int,
    x0: int,
    x1: int,
) -> Seq<Fragment>
    decreases x1 + 1 - x0,
{
    if x0 > x1 {
        Seq::empty()
    } else {
        cell_s(v1, v2, v3, intensity, x0, py) + raster_row_s(v1, v2, v3, intensity, py, x0 + 1, x1)
    }
}

/// The fragments of the pixel rows `y0` through `y1`, row-major.
pub open spec fn raster_rows_s(
    v1: Vertex,
    v2: Vertex,
    v3: Vertex,
    intensity: i64,
    y0: int,
    y1: int,
    x0: int,
    x1: int,
) -> Seq<Fragment>
    decreases y1 + 1 - y0,
{
    if y0 > y1 {
        Seq::empty()
    } else {
        raster_row_s(v1, v2, v3, intensity, y0, x0, x1) + raster_rows_s(
            v1,
            v2,
            v3,
            intensity,
            y0 + 1,
            y1,
            x0,
            x1,
        )
    }
}

/// The rasterizer's entire output: the row-major scan of the clamped
/// bounding box, empty for an oversized or degenerate triangle.
pub open spec fn raster_core_s(v1: Vertex, v2: Vertex, v3: Vertex, intensity: i64) -> Seq<
    Fragment,
> {
    let a = v1.transformed_position;
    let b = v2.transformed_position;
    let c = v3.transformed_position;
    if oversized_s(a, b, c) || ef_s(a, b, c) == 0 {
        Seq::empty()
    } else {
        raster_rows_s(
            v1,
            v2,
            v3,
            intensity,
            bbox_min_y_s(a, b, c),
            bbox_max_y_s(a, b, c),
            bbox_min_x_s(a, b, c),
            bbox_max_x_s(a, b, c),
        )
    }
}

/// Extending a row scan by its last column appends that column's cell.
proof fn lemma_raster_row_snoc(
    v1: Vertex,
    v2: Vertex,
    v3: Vertex,
    intensity: i64,
    py: int,
    x0: int,
    x1: int,
)
    requires
        x0 <= x1,
    ensures
        raster_row_s(v1, v2, v3, intensity, py, x0, x1) == raster_row_s(
            v1,
            v2,
            v3,
            intensity,
            py,
            x0,
            x1 - 1,
        ) + cell_s(v1, v2, v3, intensity, x1, py),
    decreases x1 - x0,
{
    if x0 == x1 {
        assert(raster_row_s(v1, v2, v3, intensity, py, x0 + 1, x1) =~= Seq::<Fragment>::empty());
        assert(raster_row_s(v1, v2, v3, intensity, py, x0, x1 - 1) =~= Seq::<Fragment>::empty());
        assert(raster_row_s(v1, v2, v3, intensity, py, x0, x1) == cell_s(
            v1,
            v2,
            v3,
            intensity,
            x0,
            py,
        ) + raster_row_s(v1, v2, v3, intensity, py, x0 + 1, x1));
        assert(raster_row_s(v1, v2, v3, intensity, py, x0, x1) =~= raster_row_s(
            v1,
            v2,
            v3,
            intensity,
            py,
            x0,
            x1 - 1,
        ) + cell_s(v1, v2, v3, intensity, x1, py));
    } else {
        lemma_raster_row_snoc(v1, v2, v3, intensity, py, x0 + 1, x1);
        assert(raster_row_s(v1, v2, v3, intensity, py, x0, x1) == cell_s(
            v1,
            v2,
            v3,
            intensity,
            x0,
            py,
        ) + raster_row_s(v1, v2, v3, intensity, py, x0 + 1, x1));
        assert(raster_row_s(v1, v2, v3, intensity, py, x0, x1 - 1) == cell_s(
            v1,
            v2,
            v3,
            intensity,
            x0,
            py,
        ) + raster_row_s(v1, v2, v3, intensity, py, x0 + 1, x1 - 1));
        assert(cell_s(v1, v2, v3, intensity, x0, py) + (raster_row_s(
            v1,
            v2,
            v3,
            intensity,
            py,
            x0 + 1,
            x1 - 1,
        ) + cell_s(v1, v2, v3, intensity, x1, py)) =~= (cell_s(v1, v2, v3, intensity, x0, py)
            + raster_row_s(v1, v2, v3, intensity, py, x0 + 1, x1 - 1)) + cell_s(
            v1,
            v2,
            v3,
            intensity,
            x1,
            py,
        ));
    }
}

/// Extending a row-major scan by its last row appends that row's scan.
proof fn lemma_raster_rows_snoc(
    v1: Vertex,
    v2: Vertex,
    v3: Vertex,
    intensity: i64,
    y0: int,
    y1: int,
    x0: int,
    x1: int,
)
    requires
        y0 <= y1,
    ensures
        raster_rows_s(v1, v2, v3, intensity, y0, y1, x0, x1) == raster_rows_s(
            v1,
            v2,
            v3,
            intensity,
            y0,
            y1 - 1,
            x0,
            x1,
        ) + raster_row_s(v1, v2, v3, intensity, y1, x0, x1),
    decreases y1 - y0,
{
    if y0 == y1 {
        assert(raster_rows_s(v1, v2, v3, intensity, y0 + 1, y1, x0, x1) =~= Seq::<
            Fragment,
        >::empty());
        assert(raster_rows_s(v1, v2, v3, intensity, y0, y1 - 1, x0, x1) =~= Seq::<
            Fragment,
        >::empty());
        assert(raster_rows_s(v1, v2, v3, intensity, y0, y1, x0, x1) == raster_row_s(
            v1,
            v2,
            v3,
            intensity,
            y0,
            x0,
            x1,
        ) + raster_rows_s(v1, v2, v3, intensity, y0 + 1, y1, x0, x1));
        assert(raster_rows_s(v1, v2, v3, intensity, y0, y1, x0, x1) =~= raster_rows_s(
            v1,
            v2,
            v3,
            intensity,
            y0,
            y1 - 1,
            x0,
            x1,
        ) + raster_row_s(v1, v2, v3, intensity, y1, x0, x1));
    } else {
        lemma_raster_rows_snoc(v1, v2, v3, intensity, y0 + 1, y1, x0, x1);
        assert(raster_rows_s(v1, v2, v3, intensity, y0, y1, x0, x1) == raster_row_s(
            v1,
            v2,
            v3,
            intensity,
            y0,
            x0,
            x1,
        ) + raster_rows_s(v1, v2, v3, intensity, y0 + 1, y1, x0, x1));
        assert(raster_rows_s(v1, v2, v3, intensity, y0, y1 - 1, x0, x1) == raster_row_s(
            v1,
            v2,
            v3,
            intensity,
            y0,
            x0,
            x1,
        ) + raster_rows_s(v1, v2, v3, intensity, y0 + 1, y1 - 1, x0, x1));
        assert(raster_row_s(v1, v2, v3, intensity, y0, x0, x1) + (raster_rows_s(
            v1,
            v2,
            v3,
            intensity,
            y0 + 1,
            y1 - 1,
            x0,
            x1,
        ) + raster_row_s(v1, v2, v3, intensity, y1, x0, x1)) =~= (raster_row_s(
            v1,
            v2,
            v3,
            intensity,
            y0,
            x0,
            x1,
        ) + raster_rows_s(v1, v2, v3, intensity, y0 + 1, y1 - 1, x0, x1)) + raster_row_s(
            v1,
            v2,
            v3,
            intensity,
            y1,
            x0,
            x1,
        ));
    }
}

/// Rasterize one triangle: emit exactly the fragments whose pixel centers
/// pass the interior test inside the clamped bounding box, each carrying
/// the interpolated color and depth and the flat intensity; an oversized
/// box or a degenerate triangle emits nothing.
pub fn triangle_with_uniforms(
    v1: &Vertex,
    v2: &Vertex,
    v3: &Vertex,
    uniforms: Option<&Uniforms>,
) -> (fragments: Vec<Fragment>)
    requires
        vertex_wf(*v1),
        vertex_wf(*v2),
        vertex_wf(*v3),
        match uniforms {
            Some(u) => uniforms_wf(*u),
            None => true,
        },
    ensures
        ({
            let a = v1.transformed_position;
            let b = v2.transformed_position;
            let c = v3.transformed_position;
            &&& (oversized_s(a, b, c) ==> fragments@.len() == 0)
            &&& (ef_s(a, b, c) == 0 ==> fragments@.len() == 0)
            &&& forall|i: int|
                0 <= i < fragments@.len() ==> {
                    let f = #[trigger] fragments@[i];
                    &&& bbox_min_x_s(a, b, c) <= f.x <= bbox_max_x_s(a, b, c)
                    &&& bbox_min_y_s(a, b, c) <= f.y <= bbox_max_y_s(a, b, c)
                    &&& inside_s(a, b, c, f.x as int, f.y as int)
                    &&& 0 <= f.intensity <= 1000
                    &&& f == frag_at_s(
                        *v1,
                        *v2,
                        *v3,
                        flat_intensity_s(*v1, *v2, *v3, uniforms) as i64,
                        f.x as int,
                        f.y as int,
                    )
                }
            &&& forall|px: int, py: int|
                bbox_min_x_s(a, b, c) <= px <= bbox_max_x_s(a, b, c) && bbox_min_y_s(a, b, c) <= py
                    <= bbox_max_y_s(a, b, c) && #[trigger] inside_s(a, b, c, px, py)
                    && !oversized_s(a, b, c) ==> exists|i: int|
                    0 <= i < fragments@.len() && (#[trigger] fragments@[i]).x == px && fragments@[
                        i].y == py
            &&& fragments@ == raster_core_s(
                *v1,
                *v2,
                *v3,
                flat_intensity_s(*v1, *v2, *v3, uniforms) as i64,
            )
        }),
{
    let a = v1.transformed_position;
    let b = v2.transformed_position;
    let c = v3.transformed_position;
    let bbox = calculate_bounding_box(&a, &b, &c);
    let min_x = bbox.0;
    let min_y = bbox.1;
    let max_x = bbox.2;
    let max_y = bbox.3;
    let mut fragments: Vec<Fragment> = Vec::new();
    if max_x - min_x > MAX_TRIANGLE_SIZE || max_y - min_y > MAX_TRIANGLE_SIZE {
        proof {
            assert(fragments@ =~= Seq::<Fragment>::empty());
        }
        return fragments;
    }
    let intensity = triangle_intensity(v1, v2, v3, uniforms);
    let area = edge_function(&a, &b, &c);
    if area == 0 {
        proof {
            assert(fragments@ =~= Seq::<Fragment>::empty());
        }
        return fragments;
    }
    proof {
        assert(raster_rows_s(
            *v1,
            *v2,
            *v3,
            intensity,
            min_y as int,
            min_y - 1,
            min_x as int,
            max_x as int,
        ) =~= Seq::<Fragment>::empty());
        assert(fragments@ =~= Seq::<Fragment>::empty());
    }
    let mut y = min_y;
    while y <= max_y
        invariant
            vertex_wf(*v1),
            vertex_wf(*v2),
            vertex_wf(*v3),
            a == v1.transformed_position,
            b == v2.transformed_position,
            c == v3.transformed_position,
            min_x == bbox_min_x_s(a, b, c),
            min_y == bbox_min_y_s(a, b, c),
            max_x == bbox_max_x_s(a, b, c),
            max_y == bbox_max_y_s(a, b, c),
            -1000 <= min_x <= 2000,
            -1000 <= min_y <= 2000,
            -1000 <= max_x <= 2000,
            -1000 <= max_y <= 2000,
            min_y <= y <= max_y + 1,
            area == ef_s(a, b, c),
            area != 0,
            -8_000_000_000_000_000_000 <= area <= 8_000_000_000_000_000_000,
            intensity == flat_intensity_s(*v1, *v2, *v3, uniforms),
            0 <= intensity <= 1000,
            fragments@ == raster_rows_s(*v1, *v2, *v3, intensity, min_y as int, y - 1, min_x as int, max_x as int),
            forall|i: int|
                0 <= i < fragments@.len() ==> {
                    let f = #[trigger] fragments@[i];
                    &&& min_x <= f.x <= max_x
                    &&& min_y <= f.y <= max_y
                    &&& inside_s(a, b, c, f.x as int, f.y as int)
                    &&& 0 <= f.intensity <= 1000
                    &&& f == frag_at_s(*v1, *v2, *v3, intensity, f.x as int, f.y as int)
                },
            forall|px: int, py: int|
                min_x <= px <= max_x && min_y <= py < y && #[trigger] inside_s(a, b, c, px, py)
                    ==> exists|i: int|
                    0 <= i < fragments@.len() && (#[trigger] fragments@[i]).x == px && fragments@[
                        i].y == py,
        decreases max_y + 1 - y,
    {
        proof {
            assert(raster_row_s(
                *v1,
                *v2,
                *v3,
                intensity,
                y as int,
                min_x as int,
                min_x - 1,
            ) =~= Seq::<Fragment>::empty());
            assert(fragments@ + Seq::<Fragment>::empty() =~= fragments@);
        }
        let mut x = min_x;
        while x <= max_x
            invariant
                vertex_wf(*v1),
                vertex_wf(*v2),
                vertex_wf(*v3),
                a == v1.transformed_position,
                b == v2.transformed_position,
                c == v3.transformed_position,
                min_x == bbox_min_x_s(a, b, c),
                min_y == bbox_min_y_s(a, b, c),
                max_x == bbox_max_x_s(a, b, c),
                max_y == bbox_max_y_s(a, b, c),
                -1000 <= min_x <= 2000,
                -1000 <= min_y <= 2000,
                -1000 <= max_x <= 2000,
                -1000 <= max_y <= 2000,
                min_y <= y <= max_y,
                min_x <= x <= max_x + 1,
                area == ef_s(a, b, c),
                area != 0,
                -8_000_000_000_000_000_000 <= area <= 8_000_000_000_000_000_000,
                intensity == flat_intensity_s(*v1, *v2, *v3, uniforms),
                0 <= intensity <= 1000,
                fragments@ == raster_rows_s(*v1, *v2, *v3, intensity, min_y as int, y - 1, min_x as int, max_x as int) + raster_row_s(*v1, *v2, *v3, intensity, y as int, min_x as int, x - 1),
                forall|i: int|
                    0 <= i < fragments@.len() ==> {
                        let f = #[trigger] fragments@[i];
                        &&& min_x <= f.x <= max_x
                        &&& min_y <= f.y <= max_y
                        &&& inside_s(a, b, c, f.x as int, f.y as int)
                        &&& 0 <= f.intensity <= 1000
                    &&& f == frag_at_s(*v1, *v2, *v3, intensity, f.x as int, f.y as int)
                    },
                forall|px: int, py: int|
                    min_x <= px <= max_x && min_y <= py < y && #[trigger] inside_s(a, b, c, px, py)
                        ==> exists|i: int|
                        0 <= i < fragments@.len() && (#[trigger] fragments@[i]).x == px
                            && fragments@[i].y == py,
                forall|px: int|
                    min_x <= px < x && #[trigger] inside_s(a, b, c, px, y as int) ==> exists|i: int|
                        0 <= i < fragments@.len() && (#[trigger] fragments@[i]).x == px
                            && fragments@[i].y == y,
            decreases max_x + 1 - x,
        {
            let p = Vec3 { x: x * 1000 + 500, y: y * 1000 + 500, z: 0 };
            let e1 = edge_function(&b, &c, &p);
            let e2 = edge_function(&c, &a, &p);
            let e3 = edge_function(&a, &b, &p);
            let ins: bool = if area > 0 {
                0 <= e1 && e1 <= area && 0 <= e2 && e2 <= area && 0 <= e3 && e3 <= area
            } else {
                area <= e1 && e1 <= 0 && area <= e2 && e2 <= 0 && area <= e3 && e3 <= 0
            };
            if ins {
                proof {
                    lemma_edge_sum(a, b, c, p);
                }
                let depth = interp3(e1, e2, e3, area, a.z, b.z, c.z, FX_LIM);
                let cr = interp3(
                    e1,
                    e2,
                    e3,
                    area,
                    v1.color.r as i64,
                    v2.color.r as i64,
                    v3.color.r as i64,
                    255,
                );
                let cg = interp3(
                    e1,
                    e2,
                    e3,
                    area,
                    v1.color.g as i64,
                    v2.color.g as i64,
                    v3.color.g as i64,
                    255,
                );
                let cb = interp3(
                    e1,
                    e2,
                    e3,
                    area,
                    v1.color.b as i64,
                    v2.color.b as i64,
                    v3.color.b as i64,
                    255,
                );
                let ghost pre = fragments@;
                let frag = Fragment {
                    x,
                    y,
                    color: Color { r: cr as u8, g: cg as u8, b: cb as u8 },
                    depth,
                    intensity,
                };
                fragments.push(frag);
                proof {
                    assert(fragments@[pre.len() as int] == frag);
                    assert forall|px: int, py: int|
                        min_x <= px <= max_x && min_y <= py < y && #[trigger] inside_s(
                            a,
                            b,
                            c,
                            px,
                            py,
                        ) implies exists|i: int|
                        0 <= i < fragments@.len() && (#[trigger] fragments@[i]).x == px
                            && fragments@[i].y == py by {
                        let i0 = choose|i: int|
                            0 <= i < pre.len() && (#[trigger] pre[i]).x == px && pre[i].y == py;
                        assert(fragments@[i0] == pre[i0]);
                    }
                    assert forall|px: int|
                        min_x <= px < x + 1 && #[trigger] inside_s(a, b, c, px, y as int) implies
                        exists|i: int|
                            0 <= i < fragments@.len() && (#[trigger] fragments@[i]).x == px
                                && fragments@[i].y == y by {
                        if px < x {
                            let i0 = choose|i: int|
                                0 <= i < pre.len() && (#[trigger] pre[i]).x == px && pre[i].y == y;
                            assert(fragments@[i0] == pre[i0]);
                        } else {
                            assert(fragments@[pre.len() as int].x == px);
                        }
                    }
                    assert(frag == frag_at_s(*v1, *v2, *v3, intensity, x as int, y as int));
                    assert(cell_s(*v1, *v2, *v3, intensity, x as int, y as int) =~= seq![frag]);
                    lemma_raster_row_snoc(
                        *v1,
                        *v2,
                        *v3,
                        intensity,
                        y as int,
                        min_x as int,
                        x as int,
                    );
                    assert(fragments@ =~= pre + seq![frag]);
                    assert(pre + seq![frag] =~= raster_rows_s(*v1, *v2, *v3, intensity, min_y as int, y - 1, min_x as int, max_x as int) + raster_row_s(
                        *v1,
                        *v2,
                        *v3,
                        intensity,
                        y as int,
                        min_x as int,
                        x as int,
                    ));
                }
            } else {
                proof {
                    assert(!inside_s(a, b, c, x as int, y as int));
                    lemma_raster_row_snoc(
                        *v1,
                        *v2,
                        *v3,
                        intensity,
                        y as int,
                        min_x as int,
                        x as int,
                    );
                    assert(cell_s(*v1, *v2, *v3, intensity, x as int, y as int) =~= Seq::<
                        Fragment,
                    >::empty());
                    assert(raster_row_s(
                        *v1,
                        *v2,
                        *v3,
                        intensity,
                        y as int,
                        min_x as int,
                        x as int,
                    ) =~= raster_row_s(*v1, *v2, *v3, intensity, y as int, min_x as int, x - 1));
                }
            }
            x = x + 1;
        }
        proof {
            lemma_raster_rows_snoc(
                *v1,
                *v2,
                *v3,
                intensity,
                min_y as int,
                y as int,
                min_x as int,
                max_x as int,
            );
        }
        y = y + 1;
    }
    fragments
}

/// Wireframe rasterization: the three sides of the triangle as line
/// fragments, in order.
pub fn _triangle(v1: &Vertex, v2: &Vertex, v3: &Vertex) -> (fragments: Vec<Fragment>)
    requires
        vertex_wf(*v1),
        vertex_wf(*v2),
        vertex_wf(*v3),
    ensures
        fragments@.len() == crate::line::line_steps_s(*v1, *v2) + crate::line::line_steps_s(
            *v2,
            *v3,
        ) + crate::line::line_steps_s(*v3, *v1) + 3,
        forall|k: int|
            0 <= k <= crate::line::line_steps_s(*v1, *v2) ==> #[trigger] fragments@[k]
                == crate::line::line_frag_s(*v1, *v2, k),
        forall|k: int|
            0 <= k <= crate::line::line_steps_s(*v2, *v3) ==> #[trigger] fragments@[crate::line::line_steps_s(
                *v1,
                *v2,
            ) + 1 + k] == crate::line::line_frag_s(*v2, *v3, k),
        forall|k: int|
            0 <= k <= crate::line::line_steps_s(*v3, *v1) ==> #[trigger] fragments@[crate::line::line_steps_s(
                *v1,
                *v2,
            ) + crate::line::line_steps_s(*v2, *v3) + 2 + k] == crate::line::line_frag_s(
                *v3,
                *v1,
                k,
            ),
{
    let mut fragments = crate::line::line(v1, v2);
    let mut side2 = crate::line::line(v2, v3);
    let mut side3 = crate::line::line(v3, v1);
    fragments.append(&mut side2);
    fragments.append(&mut side3);
    fragments
}

/// Rasterize with the default intensity: the same fragments as a call
/// without uniforms.
pub fn triangle(v1: &Vertex, v2: &Vertex, v3: &Vertex) -> (fragments: Vec<Fragment>)
    requires
        vertex_wf(*v1),
        vertex_wf(*v2),
        vertex_wf(*v3),
    ensures
        ({
            let a = v1.transformed_position;
            let b = v2.transformed_position;
            let c = v3.transformed_position;
            &&& fragments@ == raster_core_s(*v1, *v2, *v3, 500)
            &&& (oversized_s(a, b, c) ==> fragments@.len() == 0)
            &&& (ef_s(a, b, c) == 0 ==> fragments@.len() == 0)
            &&& forall|i: int|
                0 <= i < fragments@.len() ==> {
                    let f = #[trigger] fragments@[i];
                    &&& inside_s(a, b, c, f.x as int, f.y as int)
                    &&& f == frag_at_s(*v1, *v2, *v3, 500, f.x as int, f.y as int)
                }
            &&& forall|px: int, py: int|
                bbox_min_x_s(a, b, c) <= px <= bbox_max_x_s(a, b, c) && bbox_min_y_s(a, b, c) <= py
                    <= bbox_max_y_s(a, b, c) && #[trigger] inside_s(a, b, c, px, py)
                    && !oversized_s(a, b, c) ==> exists|i: int|
                    0 <= i < fragments@.len() && (#[trigger] fragments@[i]).x == px && fragments@[
                        i].y == py
        }),
{
    triangle_with_uniforms(v1, v2, v3, None)
}

/// The normalized barycentric weights of a point, each clamped into a
/// generous window; exact for every point of a non-degenerate triangle.
pub open spec fn barycentric_s(p: Vec3, a: Vec3, b: Vec3, c: Vec3, area: int) -> (i64, i64, i64) {
    (
        clamp_s(tdiv(ef_s(b, c, p) * 1000, area), -1_000_000_000, 1_000_000_000) as i64,
        clamp_s(tdiv(ef_s(c, a, p) * 1000, area), -1_000_000_000, 1_000_000_000) as i64,
        clamp_s(tdiv(ef_s(a, b, p) * 1000, area), -1_000_000_000, 1_000_000_000) as i64,
    )
}

pub fn barycentric_coordinates(p: &Vec3, a: &Vec3, b: &Vec3, c: &Vec3, area: i64) -> (r: (
    i64,
    i64,
    i64,
))
    requires
        area != 0,
        v3_bounded(*p, POS_LIM as int),
        v3_bounded(*a, POS_LIM as int),
        v3_bounded(*b, POS_LIM as int),
        v3_bounded(*c, POS_LIM as int),
    ensures
        (r.0, r.1, r.2) == barycentric_s(*p, *a, *b, *c, area as int),
{
    let e1 = edge_function(b, c, p);
    let e2 = edge_function(c, a, p);
    let e3 = edge_function(a, b, p);
    (bary_div(e1, area), bary_div(e2, area), bary_div(e3, area))
}

fn bary_div(e: i64, area: i64) -> (r: i64)
    requires
        area != 0,
    ensures
        r == clamp_s(tdiv(e as int * 1000, area as int), -1_000_000_000, 1_000_000_000),
        -1_000_000_000 <= r <= 1_000_000_000,
{
    let w: i128 = tdiv_i128((e as i128) * 1000, area as i128);
    let cw: i128 = if w < -1_000_000_000i128 {
        -1_000_000_000i128
    } else if w > 1_000_000_000i128 {
        1_000_000_000i128
    } else {
        w
    };
    cw as i64
}

} // verus!
