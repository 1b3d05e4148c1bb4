//! Fixed-point 4x4 and 3x3 matrices, row-major.
//!
//! A matrix-vector or matrix-matrix product accumulates the exact wide sum,
//! scales it down once, and clamps the result into the published bound, so
//! the operations compose without further side conditions.

use crate::fixed::{abs_s, clamp_s, lemma_fx_mul_le, lemma_tdiv_bound_plus, tdiv, tdiv_i128};
use crate::vec::{v4_bounded, Vec3, Vec4};
use vstd::prelude::*;

verus! {

/// Largest magnitude a matrix entry is allowed to reach.
pub const MAT_LIM: i64 = 100_000_000_000_000;

#[derive(Clone, Copy, PartialEq, Eq, Structural, Debug)]
pub struct Mat4 {
    pub m00: i64,
    pub m01: i64,
    pub m02: i64,
    pub m03: i64,
    pub m10: i64,
    pub m11: i64,
    pub m12: i64,
    pub m13: i64,
    pub m20: i64,
    pub m21: i64,
    pub m22: i64,
    pub m23: i64,
    pub m30: i64,
    pub m31: i64,
    pub m32: i64,
    pub m33: i64,
}

#[derive(Clone, Copy, PartialEq, Eq, Structural, Debug)]
pub struct Mat3 {
    pub m00: i64,
    pub m01: i64,
    pub m02: i64,
    pub m10: i64,
    pub m11: i64,
    pub m12: i64,
    pub m20: i64,
    pub m21: i64,
    pub m22: i64,
}

pub open spec fn mat4_bounded(m: Mat4, b: int) -> bool {
    &&& -b <= m.m00 <= b
    &&& -b <= m.m01 <= b
    &&& -b <= m.m02 <= b
    &&& -b <= m.m03 <= b
    &&& -b <= m.m10 <= b
    &&& -b <= m.m11 <= b
    &&& -b <= m.m12 <= b
    &&& -b <= m.m13 <= b
    &&& -b <= m.m20 <= b
    &&& -b <= m.m21 <= b
    &&& -b <= m.m22 <= b
    &&& -b <= m.m23 <= b
    &&& -b <= m.m30 <= b
    &&& -b <= m.m31 <= b
    &&& -b <= m.m32 <= b
    &&& -b <= m.m33 <= b
}

pub open spec fn mat3_bounded(m: Mat3, b: int) -> bool {
    &&& -b <= m.m00 <= b
    &&& -b <= m.m01 <= b
    &&& -b <= m.m02 <= b
    &&& -b <= m.m10 <= b
    &&& -b <= m.m11 <= b
    &&& -b <= m.m12 <= b
    &&& -b <= m.m20 <= b
    &&& -b <= m.m21 <= b
    &&& -b <= m.m22 <= b
}

pub open spec fn mat4_identity_s() -> Mat4 {
    Mat4 {
        m00: 1000,
        m01: 0,
        m02: 0,
        m03: 0,
        m10: 0,
        m11: 1000,
        m12: 0,
        m13: 0,
        m20: 0,
        m21: 0,
        m22: 1000,
        m23: 0,
        m30: 0,
        m31: 0,
        m32: 0,
        m33: 1000,
    }
}

pub fn mat4_identity() -> (r: Mat4)
    ensures
        r == mat4_identity_s(),
{
    Mat4 {
        m00: 1000,
        m01: 0,
        m02: 0,
        m03: 0,
        m10: 0,
        m11: 1000,
        m12: 0,
        m13: 0,
        m20: 0,
        m21: 0,
        m22: 1000,
        m23: 0,
        m30: 0,
        m31: 0,
        m32: 0,
        m33: 1000,
    }
}

pub open spec fn mat3_identity_s() -> Mat3 {
    Mat3 { m00: 1000, m01: 0, m02: 0, m10: 0, m11: 1000, m12: 0, m20: 0, m21: 0, m22: 1000 }
}

/// One row of a matrix-vector product: exact wide sum, one scale-down,
/// one clamp into the coordinate bound.
pub open spec fn row4_s(r0: int, r1: int, r2: int, r3: int, v: Vec4) -> int {
    clamp_s(tdiv(r0 * v.x + r1 * v.y + r2 * v.z + r3 * v.w, 1000), -2_000_000_000, 2_000_000_000)
}

fn row4(r0: i64, r1: i64, r2: i64, r3: i64, v: Vec4) -> (r: i64)
    requires
        -100_000_000_000_000 <= r0 <= 100_000_000_000_000,
        -100_000_000_000_000 <= r1 <= 100_000_000_000_000,
        -100_000_000_000_000 <= r2 <= 100_000_000_000_000,
        -100_000_000_000_000 <= r3 <= 100_000_000_000_000,
        v4_bounded(v, 2_000_000_000),
    ensures
        r == row4_s(r0 as int, r1 as int, r2 as int, r3 as int, v),
        -2_000_000_000 <= r <= 2_000_000_000,
{
    proof {
        lemma_fx_mul_le(r0 as int, v.x as int, 100_000_000_000_000, 2_000_000_000);
        lemma_fx_mul_le(r1 as int, v.y as int, 100_000_000_000_000, 2_000_000_000);
        lemma_fx_mul_le(r2 as int, v.z as int, 100_000_000_000_000, 2_000_000_000);
        lemma_fx_mul_le(r3 as int, v.w as int, 100_000_000_000_000, 2_000_000_000);
    }
    let s: i128 = (r0 as i128) * (v.x as i128) + (r1 as i128) * (v.y as i128) + (r2 as i128) * (
    v.z as i128) + (r3 as i128) * (v.w as i128);
    let q: i128 = tdiv_i128(s, 1000);
    let c: i128 = if q < -2_000_000_000i128 {
        -2_000_000_000i128
    } else if q > 2_000_000_000i128 {
        2_000_000_000i128
    } else {
        q
    };
    c as i64
}

pub open spec fn mv4_s(m: Mat4, v: Vec4) -> Vec4 {
    Vec4 {
        x: row4_s(m.m00 as int, m.m01 as int, m.m02 as int, m.m03 as int, v) as i64,
        y: row4_s(m.m10 as int, m.m11 as int, m.m12 as int, m.m13 as int, v) as i64,
        z: row4_s(m.m20 as int, m.m21 as int, m.m22 as int, m.m23 as int, v) as i64,
        w: row4_s(m.m30 as int, m.m31 as int, m.m32 as int, m.m33 as int, v) as i64,
    }
}

/// Matrix-vector product in homogeneous coordinates.
pub fn mv4(m: &Mat4, v: Vec4) -> (r: Vec4)
    requires
        mat4_bounded(*m, MAT_LIM as int),
        v4_bounded(v, 2_000_000_000),
    ensures
        r == mv4_s(*m, v),
        v4_bounded(r, 2_000_000_000),
{
    Vec4 {
        x: row4(m.m00, m.m01, m.m02, m.m03, v),
        y: row4(m.m10, m.m11, m.m12, m.m13, v),
        z: row4(m.m20, m.m21, m.m22, m.m23, v),
        w: row4(m.m30, m.m31, m.m32, m.m33, v),
    }
}

/// One entry of a matrix-matrix product, clamped into the entry bound.
pub open spec fn entry4_s(a0: int, a1: int, a2: int, a3: int, b0: int, b1: int, b2: int, b3: int) -> int {
    clamp_s(
        tdiv(a0 * b0 + a1 * b1 + a2 * b2 + a3 * b3, 1000),
        -100_000_000_000_000,
        100_000_000_000_000,
    )
}

fn entry4(a0: i64, a1: i64, a2: i64, a3: i64, b0: i64, b1: i64, b2: i64, b3: i64) -> (r: i64)
    requires
        -100_000_000_000_000 <= a0 <= 100_000_000_000_000,
        -100_000_000_000_000 <= a1 <= 100_000_000_000_000,
        -100_000_000_000_000 <= a2 <= 100_000_000_000_000,
        -100_000_000_000_000 <= a3 <= 100_000_000_000_000,
        -100_000_000_000_000 <= b0 <= 100_000_000_000_000,
        -100_000_000_000_000 <= b1 <= 100_000_000_000_000,
        -100_000_000_000_000 <= b2 <= 100_000_000_000_000,
        -100_000_000_000_000 <= b3 <= 100_000_000_000_000,
    ensures
        r == entry4_s(
            a0 as int,
            a1 as int,
            a2 as int,
            a3 as int,
            b0 as int,
            b1 as int,
            b2 as int,
            b3 as int,
        ),
        -100_000_000_000_000 <= r <= 100_000_000_000_000,
{
    proof {
        lemma_fx_mul_le(a0 as int, b0 as int, 100_000_000_000_000, 100_000_000_000_000);
        lemma_fx_mul_le(a1 as int, b1 as int, 100_000_000_000_000, 100_000_000_000_000);
        lemma_fx_mul_le(a2 as int, b2 as int, 100_000_000_000_000, 100_000_000_000_000);
        lemma_fx_mul_le(a3 as int, b3 as int, 100_000_000_000_000, 100_000_000_000_000);
    }
    let s: i128 = (a0 as i128) * (b0 as i128) + (a1 as i128) * (b1 as i128) + (a2 as i128) * (
    b2 as i128) + (a3 as i128) * (b3 as i128);
    let q: i128 = tdiv_i128(s, 1000);
    let c: i128 = if q < -100_000_000_000_000i128 {
        -100_000_000_000_000i128
    } else if q > 100_000_000_000_000i128 {
        100_000_000_000_000i128
    } else {
        q
    };
    c as i64
}

pub open spec fn mm4_s(a: Mat4, b: Mat4) -> Mat4 {
    Mat4 {
        m00: entry4_s(
            a.m00 as int,
            a.m01 as int,
            a.m02 as int,
            a.m03 as int,
            b.m00 as int,
            b.m10 as int,
            b.m20 as int,
            b.m30 as int,
        ) as i64,
        m01: entry4_s(
            a.m00 as int,
            a.m01 as int,
            a.m02 as int,
            a.m03 as int,
            b.m01 as int,
            b.m11 as int,
            b.m21 as int,
            b.m31 as int,
        ) as i64,
        m02: entry4_s(
            a.m00 as int,
            a.m01 as int,
            a.m02 as int,
            a.m03 as int,
            b.m02 as int,
            b.m12 as int,
            b.m22 as int,
            b.m32 as int,
        ) as i64,
        m03: entry4_s(
            a.m00 as int,
            a.m01 as int,
            a.m02 as int,
            a.m03 as int,
            b.m03 as int,
            b.m13 as int,
            b.m23 as int,
            b.m33 as int,
        ) as i64,
        m10: entry4_s(
            a.m10 as int,
            a.m11 as int,
            a.m12 as int,
            a.m13 as int,
            b.m00 as int,
            b.m10 as int,
            b.m20 as int,
            b.m30 as int,
        ) as i64,
        m11: entry4_s(
            a.m10 as int,
            a.m11 as int,
            a.m12 as int,
            a.m13 as int,
            b.m01 as int,
            b.m11 as int,
            b.m21 as int,
            b.m31 as int,
        ) as i64,
        m12: entry4_s(
            a.m10 as int,
            a.m11 as int,
            a.m12 as int,
            a.m13 as int,
            b.m02 as int,
            b.m12 as int,
            b.m22 as int,
            b.m32 as int,
        ) as i64,
        m13: entry4_s(
            a.m10 as int,
            a.m11 as int,
            a.m12 as int,
            a.m13 as int,
            b.m03 as int,
            b.m13 as int,
            b.m23 as int,
            b.m33 as int,
        ) as i64,
        m20: entry4_s(
            a.m20 as int,
            a.m21 as int,
            a.m22 as int,
            a.m23 as int,
            b.m00 as int,
            b.m10 as int,
            b.m20 as int,
            b.m30 as int,
        ) as i64,
        m21: entry4_s(
            a.m20 as int,
            a.m21 as int,
            a.m22 as int,
            a.m23 as int,
            b.m01 as int,
            b.m11 as int,
            b.m21 as int,
            b.m31 as int,
        ) as i64,
        m22: entry4_s(
            a.m20 as int,
            a.m21 as int,
            a.m22 as int,
            a.m23 as int,
            b.m02 as int,
            b.m12 as int,
            b.m22 as int,
            b.m32 as int,
        ) as i64,
        m23: entry4_s(
            a.m20 as int,
            a.m21 as int,
            a.m22 as int,
            a.m23 as int,
            b.m03 as int,
            b.m13 as int,
            b.m23 as int,
            b.m33 as int,
        ) as i64,
        m30: entry4_s(
            a.m30 as int,
            a.m31 as int,
            a.m32 as int,
            a.m33 as int,
            b.m00 as int,
            b.m10 as int,
            b.m20 as int,
            b.m30 as int,
        ) as i64,
        m31: entry4_s(
            a.m30 as int,
            a.m31 as int,
            a.m32 as int,
            a.m33 as int,
            b.m01 as int,
            b.m11 as int,
            b.m21 as int,
            b.m31 as int,
        ) as i64,
        m32: entry4_s(
            a.m30 as int,
            a.m31 as int,
            a.m32 as int,
            a.m33 as int,
            b.m02 as int,
            b.m12 as int,
            b.m22 as int,
            b.m32 as int,
        ) as i64,
        m33: entry4_s(
            a.m30 as int,
            a.m31 as int,
            a.m32 as int,
            a.m33 as int,
            b.m03 as int,
            b.m13 as int,
            b.m23 as int,
            b.m33 as int,
        ) as i64,
    }
}

/// Matrix-matrix product.
pub fn mm4(a: &Mat4, b: &Mat4) -> (r: Mat4)
    requires
        mat4_bounded(*a, MAT_LIM as int),
        mat4_bounded(*b, MAT_LIM as int),
    ensures
        r == mm4_s(*a, *b),
        mat4_bounded(r, MAT_LIM as int),
{
    Mat4 {
        m00: entry4(a.m00, a.m01, a.m02, a.m03, b.m00, b.m10, b.m20, b.m30),
        m01: entry4(a.m00, a.m01, a.m02, a.m03, b.m01, b.m11, b.m21, b.m31),
        m02: entry4(a.m00, a.m01, a.m02, a.m03, b.m02, b.m12, b.m22, b.m32),
        m03: entry4(a.m00, a.m01, a.m02, a.m03, b.m03, b.m13, b.m23, b.m33),
        m10: entry4(a.m10, a.m11, a.m12, a.m13, b.m00, b.m10, b.m20, b.m30),
        m11: entry4(a.m10, a.m11, a.m12, a.m13, b.m01, b.m11, b.m21, b.m31),
        m12: entry4(a.m10, a.m11, a.m12, a.m13, b.m02, b.m12, b.m22, b.m32),
        m13: entry4(a.m10, a.m11, a.m12, a.m13, b.m03, b.m13, b.m23, b.m33),
        m20: entry4(a.m20, a.m21, a.m22, a.m23, b.m00, b.m10, b.m20, b.m30),
        m21: entry4(a.m20, a.m21, a.m22, a.m23, b.m01, b.m11, b.m21, b.m31),
        m22: entry4(a.m20, a.m21, a.m22, a.m23, b.m02, b.m12, b.m22, b.m32),
        m23: entry4(a.m20, a.m21, a.m22, a.m23, b.m03, b.m13, b.m23, b.m33),
        m30: entry4(a.m30, a.m31, a.m32, a.m33, b.m00, b.m10, b.m20, b.m30),
        m31: entry4(a.m30, a.m31, a.m32, a.m33, b.m01, b.m11, b.m21, b.m31),
        m32: entry4(a.m30, a.m31, a.m32, a.m33, b.m02, b.m12, b.m22, b.m32),
        m33: entry4(a.m30, a.m31, a.m32, a.m33, b.m03, b.m13, b.m23, b.m33),
    }
}

/// The upper-left 3x3 block.
pub open spec fn mat3_of_mat4_s(m: Mat4) -> Mat3 {
    Mat3 {
        m00: m.m00,
        m01: m.m01,
        m02: m.m02,
        m10: m.m10,
        m11: m.m11,
        m12: m.m12,
        m20: m.m20,
        m21: m.m21,
        m22: m.m22,
    }
}

pub fn mat3_of_mat4(m: &Mat4) -> (r: Mat3)
    ensures
        r == mat3_of_mat4_s(*m),
{
    Mat3 {
        m00: m.m00,
        m01: m.m01,
        m02: m.m02,
        m10: m.m10,
        m11: m.m11,
        m12: m.m12,
        m20: m.m20,
        m21: m.m21,
        m22: m.m22,
    }
}

// Signed cofactors of a 3x3 block, in units of one millionth (two scalars
// multiplied without a scale-down).
pub open spec fn c00_s(m: Mat3) -> int {
    m.m11 * m.m22 - m.m12 * m.m21
}

pub open spec fn c01_s(m: Mat3) -> int {
    -(m.m10 * m.m22 - m.m12 * m.m20)
}

pub open spec fn c02_s(m: Mat3) -> int {
    m.m10 * m.m21 - m.m11 * m.m20
}

pub open spec fn c10_s(m: Mat3) -> int {
    -(m.m01 * m.m22 - m.m02 * m.m21)
}

pub open spec fn c11_s(m: Mat3) -> int {
    m.m00 * m.m22 - m.m02 * m.m20
}

pub open spec fn c12_s(m: Mat3) -> int {
    -(m.m00 * m.m21 - m.m01 * m.m20)
}

pub open spec fn c20_s(m: Mat3) -> int {
    m.m01 * m.m12 - m.m02 * m.m11
}

pub open spec fn c21_s(m: Mat3) -> int {
    -(m.m00 * m.m12 - m.m02 * m.m10)
}

pub open spec fn c22_s(m: Mat3) -> int {
    m.m00 * m.m11 - m.m01 * m.m10
}

/// Determinant of a 3x3 block, in units of one billionth (three scalars
/// multiplied without intermediate scale-down).
pub open spec fn det3_raw_s(m: Mat3) -> int {
    m.m00 * c00_s(m) + m.m01 * c01_s(m) + m.m02 * c02_s(m)
}

/// One entry of the inverse transpose: the matching cofactor over the
/// determinant, rescaled to a fixed-point scalar and clamped.
pub open spec fn inv_entry_s(c: int, d: int) -> int {
    clamp_s(tdiv(c * 1000000, d), -2_000_000_000, 2_000_000_000)
}

/// The transformation for normals: the inverse of the transpose, falling
/// back to the identity when the block is singular.
pub open spec fn normal_mat_s(m: Mat3) -> Mat3 {
    let d = det3_raw_s(m);
    if d == 0 {
        mat3_identity_s()
    } else {
        Mat3 {
            m00: inv_entry_s(c00_s(m), d) as i64,
            m01: inv_entry_s(c01_s(m), d) as i64,
            m02: inv_entry_s(c02_s(m), d) as i64,
            m10: inv_entry_s(c10_s(m), d) as i64,
            m11: inv_entry_s(c11_s(m), d) as i64,
            m12: inv_entry_s(c12_s(m), d) as i64,
            m20: inv_entry_s(c20_s(m), d) as i64,
            m21: inv_entry_s(c21_s(m), d) as i64,
            m22: inv_entry_s(c22_s(m), d) as i64,
        }
    }
}

/// A two-by-two minor `a * d - b * c` on wide integers.
fn minor2(a: i64, d: i64, b: i64, c: i64) -> (r: i128)
    requires
        -2_000_000_000 <= a <= 2_000_000_000,
        -2_000_000_000 <= b <= 2_000_000_000,
        -2_000_000_000 <= c <= 2_000_000_000,
        -2_000_000_000 <= d <= 2_000_000_000,
    ensures
        r == (a as int) * (d as int) - (b as int) * (c as int),
        -8_000_000_000_000_000_000 <= r <= 8_000_000_000_000_000_000,
{
    proof {
        lemma_fx_mul_le(a as int, d as int, 2_000_000_000, 2_000_000_000);
        lemma_fx_mul_le(b as int, c as int, 2_000_000_000, 2_000_000_000);
    }
    (a as i128) * (d as i128) - (b as i128) * (c as i128)
}

fn inv_entry(c: i128, d: i128) -> (r: i64)
    requires
        d != 0,
        -8_000_000_000_000_000_000 <= c <= 8_000_000_000_000_000_000,
        -170141183460469231731687303715884105727 <= d,
    ensures
        r == inv_entry_s(c as int, d as int),
        -2_000_000_000 <= r <= 2_000_000_000,
{
    let q: i128 = tdiv_i128(c * 1000000, d);
    let w: i128 = if q < -2_000_000_000i128 {
        -2_000_000_000i128
    } else if q > 2_000_000_000i128 {
        2_000_000_000i128
    } else {
        q
    };
    w as i64
}

/// Normal-transformation matrix: transpose the block, invert it, fall back
/// to the identity when it has no inverse.
pub fn mat3_normal(m: &Mat3) -> (r: Mat3)
    requires
        mat3_bounded(*m, 2_000_000_000),
    ensures
        r == normal_mat_s(*m),
        mat3_bounded(r, 2_000_000_000),
{
    let c00 = minor2(m.m11, m.m22, m.m12, m.m21);
    let c01 = -minor2(m.m10, m.m22, m.m12, m.m20);
    let c02 = minor2(m.m10, m.m21, m.m11, m.m20);
    let c10 = -minor2(m.m01, m.m22, m.m02, m.m21);
    let c11 = minor2(m.m00, m.m22, m.m02, m.m20);
    let c12 = -minor2(m.m00, m.m21, m.m01, m.m20);
    let c20 = minor2(m.m01, m.m12, m.m02, m.m11);
    let c21 = -minor2(m.m00, m.m12, m.m02, m.m10);
    let c22 = minor2(m.m00, m.m11, m.m01, m.m10);
    proof {
        lemma_fx_mul_le(m.m00 as int, c00 as int, 2_000_000_000, 8_000_000_000_000_000_000);
        lemma_fx_mul_le(m.m01 as int, c01 as int, 2_000_000_000, 8_000_000_000_000_000_000);
        lemma_fx_mul_le(m.m02 as int, c02 as int, 2_000_000_000, 8_000_000_000_000_000_000);
    }
    let d: i128 = (m.m00 as i128) * c00 + (m.m01 as i128) * c01 + (m.m02 as i128) * c02;
    if d == 0 {
        Mat3 { m00: 1000, m01: 0, m02: 0, m10: 0, m11: 1000, m12: 0, m20: 0, m21: 0, m22: 1000 }
    } else {
        Mat3 {
            m00: inv_entry(c00, d),
            m01: inv_entry(c01, d),
            m02: inv_entry(c02, d),
            m10: inv_entry(c10, d),
            m11: inv_entry(c11, d),
            m12: inv_entry(c12, d),
            m20: inv_entry(c20, d),
            m21: inv_entry(c21, d),
            m22: inv_entry(c22, d),
        }
    }
}

/// One row of a 3x3 matrix applied to a vector.
pub open spec fn row3_s(r0: int, r1: int, r2: int, v: Vec3) -> int {
    clamp_s(tdiv(r0 * v.x + r1 * v.y + r2 * v.z, 1000), -2_000_000_000, 2_000_000_000)
}

fn row3(r0: i64, r1: i64, r2: i64, v: Vec3) -> (r: i64)
    requires
        -2_000_000_000 <= r0 <= 2_000_000_000,
        -2_000_000_000 <= r1 <= 2_000_000_000,
        -2_000_000_000 <= r2 <= 2_000_000_000,
        crate::vec::v3_bounded(v, 2_000_000_000),
    ensures
        r == row3_s(r0 as int, r1 as int, r2 as int, v),
        -2_000_000_000 <= r <= 2_000_000_000,
{
    proof {
        lemma_fx_mul_le(r0 as int, v.x as int, 2_000_000_000, 2_000_000_000);
        lemma_fx_mul_le(r1 as int, v.y as int, 2_000_000_000, 2_000_000_000);
        lemma_fx_mul_le(r2 as int, v.z as int, 2_000_000_000, 2_000_000_000);
    }
    let s: i128 = (r0 as i128) * (v.x as i128) + (r1 as i128) * (v.y as i128) + (r2 as i128) * (
    v.z as i128);
    let q: i128 = tdiv_i128(s, 1000);
    let c: i128 = if q < -2_000_000_000i128 {
        -2_000_000_000i128
    } else if q > 2_000_000_000i128 {
        2_000_000_000i128
    } else {
        q
    };
    c as i64
}

pub open spec fn m3v3_s(m: Mat3, v: Vec3) -> Vec3 {
    Vec3 {
        x: row3_s(m.m00 as int, m.m01 as int, m.m02 as int, v) as i64,
        y: row3_s(m.m10 as int, m.m11 as int, m.m12 as int, v) as i64,
        z: row3_s(m.m20 as int, m.m21 as int, m.m22 as int, v) as i64,
    }
}

/// 3x3 matrix applied to a vector.
pub fn m3v3(m: &Mat3, v: Vec3) -> (r: Vec3)
    requires
        mat3_bounded(*m, 2_000_000_000),
        crate::vec::v3_bounded(v, 2_000_000_000),
    ensures
        r == m3v3_s(*m, v),
        crate::vec::v3_bounded(r, 2_000_000_000),
{
    Vec3 {
        x: row3(m.m00, m.m01, m.m02, v),
        y: row3(m.m10, m.m11, m.m12, v),
        z: row3(m.m20, m.m21, m.m22, v),
    }
}

/// Bound on one product entry when all eight operands share two bounds.
proof fn lemma_entry4_s_bound4(
    a0: int,
    a1: int,
    a2: int,
    a3: int,
    b0: int,
    b1: int,
    b2: int,
    b3: int,
    ba: int,
    bb: int,
)
    requires
        -ba <= a0 <= ba,
        -ba <= a1 <= ba,
        -ba <= a2 <= ba,
        -ba <= a3 <= ba,
        -bb <= b0 <= bb,
        -bb <= b1 <= bb,
        -bb <= b2 <= bb,
        -bb <= b3 <= bb,
        ba >= 0,
        bb >= 0,
    ensures
        -(4 * (ba * bb) / 1000 + 1) <= entry4_s(a0, a1, a2, a3, b0, b1, b2, b3) <= 4 * (ba * bb)
            / 1000 + 1,
{
    lemma_fx_mul_le(a0, b0, ba, bb);
    lemma_fx_mul_le(a1, b1, ba, bb);
    lemma_fx_mul_le(a2, b2, ba, bb);
    lemma_fx_mul_le(a3, b3, ba, bb);
    lemma_tdiv_bound_plus(a0 * b0 + a1 * b1 + a2 * b2 + a3 * b3, 4 * (ba * bb));
}

/// Componentwise bound on a matrix product from bounds on the factors.
#[verifier::rlimit(100)]
pub proof fn lemma_mm4_s_bound(a: Mat4, b: Mat4, ba: int, bb: int)
    requires
        mat4_bounded(a, ba),
        mat4_bounded(b, bb),
        ba >= 0,
        bb >= 0,
    ensures
        mat4_bounded(mm4_s(a, b), 4 * (ba * bb) / 1000 + 1),
{
    lemma_entry4_s_bound4(a.m00 as int, a.m01 as int, a.m02 as int, a.m03 as int, b.m00 as int, b.m10 as int, b.m20 as int, b.m30 as int, ba, bb);
    lemma_entry4_s_bound4(a.m00 as int, a.m01 as int, a.m02 as int, a.m03 as int, b.m01 as int, b.m11 as int, b.m21 as int, b.m31 as int, ba, bb);
    lemma_entry4_s_bound4(a.m00 as int, a.m01 as int, a.m02 as int, a.m03 as int, b.m02 as int, b.m12 as int, b.m22 as int, b.m32 as int, ba, bb);
    lemma_entry4_s_bound4(a.m00 as int, a.m01 as int, a.m02 as int, a.m03 as int, b.m03 as int, b.m13 as int, b.m23 as int, b.m33 as int, ba, bb);
    lemma_entry4_s_bound4(a.m10 as int, a.m11 as int, a.m12 as int, a.m13 as int, b.m00 as int, b.m10 as int, b.m20 as int, b.m30 as int, ba, bb);
    lemma_entry4_s_bound4(a.m10 as int, a.m11 as int, a.m12 as int, a.m13 as int, b.m01 as int, b.m11 as int, b.m21 as int, b.m31 as int, ba, bb);
    lemma_entry4_s_bound4(a.m10 as int, a.m11 as int, a.m12 as int, a.m13 as int, b.m02 as int, b.m12 as int, b.m22 as int, b.m32 as int, ba, bb);
    lemma_entry4_s_bound4(a.m10 as int, a.m11 as int, a.m12 as int, a.m13 as int, b.m03 as int, b.m13 as int, b.m23 as int, b.m33 as int, ba, bb);
    lemma_entry4_s_bound4(a.m20 as int, a.m21 as int, a.m22 as int, a.m23 as int, b.m00 as int, b.m10 as int, b.m20 as int, b.m30 as int, ba, bb);
    lemma_entry4_s_bound4(a.m20 as int, a.m21 as int, a.m22 as int, a.m23 as int, b.m01 as int, b.m11 as int, b.m21 as int, b.m31 as int, ba, bb);
    lemma_entry4_s_bound4(a.m20 as int, a.m21 as int, a.m22 as int, a.m23 as int, b.m02 as int, b.m12 as int, b.m22 as int, b.m32 as int, ba, bb);
    lemma_entry4_s_bound4(a.m20 as int, a.m21 as int, a.m22 as int, a.m23 as int, b.m03 as int, b.m13 as int, b.m23 as int, b.m33 as int, ba, bb);
    lemma_entry4_s_bound4(a.m30 as int, a.m31 as int, a.m32 as int, a.m33 as int, b.m00 as int, b.m10 as int, b.m20 as int, b.m30 as int, ba, bb);
    lemma_entry4_s_bound4(a.m30 as int, a.m31 as int, a.m32 as int, a.m33 as int, b.m01 as int, b.m11 as int, b.m21 as int, b.m31 as int, ba, bb);
    lemma_entry4_s_bound4(a.m30 as int, a.m31 as int, a.m32 as int, a.m33 as int, b.m02 as int, b.m12 as int, b.m22 as int, b.m32 as int, ba, bb);
    lemma_entry4_s_bound4(a.m30 as int, a.m31 as int, a.m32 as int, a.m33 as int, b.m03 as int, b.m13 as int, b.m23 as int, b.m33 as int, ba, bb);
}

/// Bound on one product entry from bounds on the four products it sums.
pub proof fn lemma_entry4_bound_pairs(
    a0: int,
    b0: int,
    m0: int,
    a1: int,
    b1: int,
    m1: int,
    a2: int,
    b2: int,
    m2: int,
    a3: int,
    b3: int,
    m3: int,
)
    requires
        -m0 <= a0 * b0 <= m0,
        -m1 <= a1 * b1 <= m1,
        -m2 <= a2 * b2 <= m2,
        -m3 <= a3 * b3 <= m3,
        m0 >= 0,
        m1 >= 0,
        m2 >= 0,
        m3 >= 0,
    ensures
        abs_s(entry4_s(a0, a1, a2, a3, b0, b1, b2, b3)) <= (m0 + m1 + m2 + m3) / 1000 + 1,
{
    lemma_tdiv_bound_plus(a0 * b0 + a1 * b1 + a2 * b2 + a3 * b3, m0 + m1 + m2 + m3);
}

/// A product of two affine matrices (bottom row 0,0,0,1) is affine.
pub proof fn lemma_mm4_s_affine_row(a: Mat4, b: Mat4)
    requires
        a.m30 == 0,
        a.m31 == 0,
        a.m32 == 0,
        a.m33 == 1000,
        b.m30 == 0,
        b.m31 == 0,
        b.m32 == 0,
        b.m33 == 1000,
    ensures
        mm4_s(a, b).m30 == 0,
        mm4_s(a, b).m31 == 0,
        mm4_s(a, b).m32 == 0,
        mm4_s(a, b).m33 == 1000,
{
    vstd::arithmetic::div_mod::lemma_div_of0(1000);
    vstd::arithmetic::div_mod::lemma_div_multiples_vanish(1000, 1000);
}

} // verus!
