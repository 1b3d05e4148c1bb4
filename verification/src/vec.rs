//! Fixed-point three- and four-component vectors.
//!
//! Components are fixed-point scalars (see `fixed`). Products are widened to
//! 128 bits internally, so the contracts only ask the caller for the bounds
//! under which the *results* fit the scalar type.

use crate::fixed::{
    clamp_i64, clamp_s, fx_div, fx_div_s, fx_mul, fx_mul_s, isqrt_s, isqrt_u128, lemma_fx_mul_le,
    lemma_isqrt_s_props, lemma_tdiv_bound, tdiv, tdiv_i128,
};
use vstd::prelude::*;

verus! {

/// Largest component magnitude accepted by the length and normalize
/// operations; chosen so the sum of three squares fits 128 bits and the
/// scaled quotients fit the scalar type.
pub const V3_NORM_LIM: i64 = 9_000_000_000_000_000;

#[derive(Clone, Copy, PartialEq, Eq, Structural, Debug)]
pub struct Vec2 {
    pub x: i64,
    pub y: i64,
}

#[derive(Clone, Copy, PartialEq, Eq, Structural, Debug)]
pub struct Vec3 {
    pub x: i64,
    pub y: i64,
    pub z: i64,
}

#[derive(Clone, Copy, PartialEq, Eq, Structural, Debug)]
pub struct Vec4 {
    pub x: i64,
    pub y: i64,
    pub z: i64,
    pub w: i64,
}

pub open spec fn v3_bounded(v: Vec3, b: int) -> bool {
    &&& -b <= v.x <= b
    &&& -b <= v.y <= b
    &&& -b <= v.z <= b
}

pub open spec fn v4_bounded(v: Vec4, b: int) -> bool {
    &&& -b <= v.x <= b
    &&& -b <= v.y <= b
    &&& -b <= v.z <= b
    &&& -b <= v.w <= b
}

pub fn v3(x: i64, y: i64, z: i64) -> (r: Vec3)
    ensures
        r == (Vec3 { x, y, z }),
{
    Vec3 { x, y, z }
}

pub fn v4(x: i64, y: i64, z: i64, w: i64) -> (r: Vec4)
    ensures
        r == (Vec4 { x, y, z, w }),
{
    Vec4 { x, y, z, w }
}

pub open spec fn v3_add_s(a: Vec3, b: Vec3) -> Vec3 {
    Vec3 { x: (a.x + b.x) as i64, y: (a.y + b.y) as i64, z: (a.z + b.z) as i64 }
}

pub fn v3_add(a: Vec3, b: Vec3) -> (r: Vec3)
    requires
        v3_bounded(a, 4_000_000_000_000_000_000),
        v3_bounded(b, 4_000_000_000_000_000_000),
    ensures
        r == v3_add_s(a, b),
        r.x == a.x + b.x,
        r.y == a.y + b.y,
        r.z == a.z + b.z,
{
    Vec3 { x: a.x + b.x, y: a.y + b.y, z: a.z + b.z }
}

pub open spec fn v3_sub_s(a: Vec3, b: Vec3) -> Vec3 {
    Vec3 { x: (a.x - b.x) as i64, y: (a.y - b.y) as i64, z: (a.z - b.z) as i64 }
}

pub fn v3_sub(a: Vec3, b: Vec3) -> (r: Vec3)
    requires
        v3_bounded(a, 4_000_000_000_000_000_000),
        v3_bounded(b, 4_000_000_000_000_000_000),
    ensures
        r == v3_sub_s(a, b),
        r.x == a.x - b.x,
        r.y == a.y - b.y,
        r.z == a.z - b.z,
{
    Vec3 { x: a.x - b.x, y: a.y - b.y, z: a.z - b.z }
}

pub open spec fn v3_scale_s(v: Vec3, s: int) -> Vec3 {
    Vec3 {
        x: fx_mul_s(v.x as int, s) as i64,
        y: fx_mul_s(v.y as int, s) as i64,
        z: fx_mul_s(v.z as int, s) as i64,
    }
}

/// Componentwise fixed-point scaling.
pub fn v3_scale(v: Vec3, s: i64) -> (r: Vec3)
    requires
        v3_bounded(v, 3_000_000_000),
        -3_000_000_000 <= s <= 3_000_000_000,
    ensures
        r == v3_scale_s(v, s as int),
        v3_bounded(r, 9_000_000_000_000_000),
{
    Vec3 { x: fx_mul(v.x, s), y: fx_mul(v.y, s), z: fx_mul(v.z, s) }
}

pub open spec fn v3_clamp_s(v: Vec3, lim: int) -> Vec3 {
    Vec3 {
        x: clamp_s(v.x as int, -lim, lim) as i64,
        y: clamp_s(v.y as int, -lim, lim) as i64,
        z: clamp_s(v.z as int, -lim, lim) as i64,
    }
}

pub fn v3_clamp(v: Vec3, lim: i64) -> (r: Vec3)
    requires
        0 <= lim,
    ensures
        r == v3_clamp_s(v, lim as int),
        v3_bounded(r, lim as int),
{
    Vec3 {
        x: clamp_i64(v.x, -lim, lim),
        y: clamp_i64(v.y, -lim, lim),
        z: clamp_i64(v.z, -lim, lim),
    }
}

pub open spec fn v3_dot_s(a: Vec3, b: Vec3) -> int {
    tdiv(a.x * b.x + a.y * b.y + a.z * b.z, 1000)
}

/// Fixed-point dot product; one scale-down after the exact wide sum.
pub fn v3_dot(a: Vec3, b: Vec3) -> (r: i64)
    requires
        v3_bounded(a, 3_000_000_000),
        v3_bounded(b, 3_000_000_000),
    ensures
        r == v3_dot_s(a, b),
        -27_000_000_000_000_000 <= r <= 27_000_000_000_000_000,
{
    proof {
        lemma_fx_mul_le(a.x as int, b.x as int, 3_000_000_000, 3_000_000_000);
        lemma_fx_mul_le(a.y as int, b.y as int, 3_000_000_000, 3_000_000_000);
        lemma_fx_mul_le(a.z as int, b.z as int, 3_000_000_000, 3_000_000_000);
        lemma_tdiv_bound(
            a.x as int * b.x as int + a.y as int * b.y as int + a.z as int * b.z as int,
            1000,
            27_000_000_000_000_000,
        );
    }
    let s: i128 = (a.x as i128) * (b.x as i128) + (a.y as i128) * (b.y as i128) + (a.z as i128)
        * (b.z as i128);
    tdiv_i128(s, 1000) as i64
}

pub open spec fn v3_cross_s(a: Vec3, b: Vec3) -> Vec3 {
    Vec3 {
        x: tdiv(a.y * b.z - a.z * b.y, 1000) as i64,
        y: tdiv(a.z * b.x - a.x * b.z, 1000) as i64,
        z: tdiv(a.x * b.y - a.y * b.x, 1000) as i64,
    }
}

/// Fixed-point cross product.
pub fn v3_cross(a: Vec3, b: Vec3) -> (r: Vec3)
    requires
        v3_bounded(a, 3_000_000_000),
        v3_bounded(b, 3_000_000_000),
    ensures
        r == v3_cross_s(a, b),
        v3_bounded(r, 18_000_000_000_000_000),
{
    proof {
        lemma_fx_mul_le(a.y as int, b.z as int, 3_000_000_000, 3_000_000_000);
        lemma_fx_mul_le(a.z as int, b.y as int, 3_000_000_000, 3_000_000_000);
        lemma_fx_mul_le(a.z as int, b.x as int, 3_000_000_000, 3_000_000_000);
        lemma_fx_mul_le(a.x as int, b.z as int, 3_000_000_000, 3_000_000_000);
        lemma_fx_mul_le(a.x as int, b.y as int, 3_000_000_000, 3_000_000_000);
        lemma_fx_mul_le(a.y as int, b.x as int, 3_000_000_000, 3_000_000_000);
        lemma_tdiv_bound(
            a.y as int * b.z as int - a.z as int * b.y as int,
            1000,
            18_000_000_000_000_000,
        );
        lemma_tdiv_bound(
            a.z as int * b.x as int - a.x as int * b.z as int,
            1000,
            18_000_000_000_000_000,
        );
        lemma_tdiv_bound(
            a.x as int * b.y as int - a.y as int * b.x as int,
            1000,
            18_000_000_000_000_000,
        );
    }
    let cx: i128 = (a.y as i128) * (b.z as i128) - (a.z as i128) * (b.y as i128);
    let cy: i128 = (a.z as i128) * (b.x as i128) - (a.x as i128) * (b.z as i128);
    let cz: i128 = (a.x as i128) * (b.y as i128) - (a.y as i128) * (b.x as i128);
    Vec3 {
        x: tdiv_i128(cx, 1000) as i64,
        y: tdiv_i128(cy, 1000) as i64,
        z: tdiv_i128(cz, 1000) as i64,
    }
}

/// A componentwise bound on the dot product from bounds on the operands.
pub proof fn lemma_v3_dot_s_bound(a: Vec3, b: Vec3, ba: int, bb: int)
    requires
        v3_bounded(a, ba),
        v3_bounded(b, bb),
        ba >= 0,
        bb >= 0,
    ensures
        -(3 * (ba * bb) / 1000 + 1) <= v3_dot_s(a, b) <= 3 * (ba * bb) / 1000 + 1,
{
    lemma_fx_mul_le(a.x as int, b.x as int, ba, bb);
    lemma_fx_mul_le(a.y as int, b.y as int, ba, bb);
    lemma_fx_mul_le(a.z as int, b.z as int, ba, bb);
    crate::fixed::lemma_tdiv_bound_plus(
        a.x * b.x + a.y * b.y + a.z * b.z,
        3 * (ba * bb),
    );
}

/// A componentwise bound on the cross product from bounds on the operands.
pub proof fn lemma_v3_cross_s_bound(a: Vec3, b: Vec3, ba: int, bb: int)
    requires
        v3_bounded(a, ba),
        v3_bounded(b, bb),
        ba >= 0,
        bb >= 0,
    ensures
        v3_bounded(v3_cross_s(a, b), 2 * (ba * bb) / 1000 + 1),
{
    lemma_fx_mul_le(a.y as int, b.z as int, ba, bb);
    lemma_fx_mul_le(a.z as int, b.y as int, ba, bb);
    lemma_fx_mul_le(a.z as int, b.x as int, ba, bb);
    lemma_fx_mul_le(a.x as int, b.z as int, ba, bb);
    lemma_fx_mul_le(a.x as int, b.y as int, ba, bb);
    lemma_fx_mul_le(a.y as int, b.x as int, ba, bb);
    crate::fixed::lemma_tdiv_bound_plus(a.y * b.z - a.z * b.y, 2 * (ba * bb));
    crate::fixed::lemma_tdiv_bound_plus(a.z * b.x - a.x * b.z, 2 * (ba * bb));
    crate::fixed::lemma_tdiv_bound_plus(a.x * b.y - a.y * b.x, 2 * (ba * bb));
}

/// The exact floor of the euclidean length of the raw component vector,
/// which is the fixed-point encoding of the modelled length.
pub open spec fn v3_len_s(v: Vec3) -> int {
    isqrt_s(v.x * v.x + v.y * v.y + v.z * v.z)
}

pub fn v3_len(v: Vec3) -> (r: i64)
    requires
        v3_bounded(v, V3_NORM_LIM as int),
    ensures
        r == v3_len_s(v),
        0 <= r <= 16_000_000_000_000_000,
        r == 0 <==> v.x == 0 && v.y == 0 && v.z == 0,
{
    proof {
        assert(0 <= (v.x as int) * (v.x as int) <= 81_000_000_000_000_000_000_000_000_000_000int)
            by (nonlinear_arith)
            requires
                -9_000_000_000_000_000 <= v.x <= 9_000_000_000_000_000,
        ;
        assert(0 <= (v.y as int) * (v.y as int) <= 81_000_000_000_000_000_000_000_000_000_000int)
            by (nonlinear_arith)
            requires
                -9_000_000_000_000_000 <= v.y <= 9_000_000_000_000_000,
        ;
        assert(0 <= (v.z as int) * (v.z as int) <= 81_000_000_000_000_000_000_000_000_000_000int)
            by (nonlinear_arith)
            requires
                -9_000_000_000_000_000 <= v.z <= 9_000_000_000_000_000,
        ;
    }
    let sx: i128 = (v.x as i128) * (v.x as i128);
    let sy: i128 = (v.y as i128) * (v.y as i128);
    let sz: i128 = (v.z as i128) * (v.z as i128);
    let n: u128 = (sx + sy + sz) as u128;
    let r64: u64 = isqrt_u128(n);
    proof {
        let nn = n as int;
        lemma_isqrt_s_props(nn);
        let sq = isqrt_s(nn);
        assert(sq <= 16_000_000_000_000_000) by (nonlinear_arith)
            requires
                sq >= 0,
                sq * sq <= nn,
                nn <= 243_000_000_000_000_000_000_000_000_000_000int,
        ;
        if v.x == 0 && v.y == 0 && v.z == 0 {
            assert(nn == 0) by (nonlinear_arith)
                requires
                    nn == (v.x as int) * (v.x as int) + (v.y as int) * (v.y as int) + (v.z as int)
                        * (v.z as int),
                    v.x == 0,
                    v.y == 0,
                    v.z == 0,
            ;
        } else {
            assert(nn >= 1) by (nonlinear_arith)
                requires
                    nn == (v.x as int) * (v.x as int) + (v.y as int) * (v.y as int) + (v.z as int)
                        * (v.z as int),
                    !(v.x == 0 && v.y == 0 && v.z == 0),
            ;
            if sq == 0 {
                assert(nn < (sq + 1) * (sq + 1));
                assert(nn < 1) by (nonlinear_arith)
                    requires
                        nn < (sq + 1) * (sq + 1),
                        sq == 0,
                ;
            }
        }
    }
    r64 as i64
}

/// The normalized direction: each component divided by the length and
/// clamped into one unit, the zero vector staying zero.
pub open spec fn v3_norm_s(v: Vec3) -> Vec3 {
    let l = v3_len_s(v);
    if l == 0 {
        Vec3 { x: 0, y: 0, z: 0 }
    } else {
        Vec3 {
            x: clamp_s(fx_div_s(v.x as int, l), -1000, 1000) as i64,
            y: clamp_s(fx_div_s(v.y as int, l), -1000, 1000) as i64,
            z: clamp_s(fx_div_s(v.z as int, l), -1000, 1000) as i64,
        }
    }
}

pub fn v3_norm(v: Vec3) -> (r: Vec3)
    requires
        v3_bounded(v, V3_NORM_LIM as int),
    ensures
        r == v3_norm_s(v),
        v3_bounded(r, 1000),
{
    let l = v3_len(v);
    if l == 0 {
        Vec3 { x: 0, y: 0, z: 0 }
    } else {
        Vec3 {
            x: clamp_i64(fx_div(v.x, l), -1000, 1000),
            y: clamp_i64(fx_div(v.y, l), -1000, 1000),
            z: clamp_i64(fx_div(v.z, l), -1000, 1000),
        }
    }
}

} // verus!
