//! The per-draw-call uniform bundle and the construction of the model,
//! projection and viewport matrices.

use crate::fixed::{
    clamp_i64, clamp_s, div_trunc, fx_cos, fx_cos_s, fx_div, fx_div_s, fx_sin, fx_sin_s,
    lemma_bhask_pos, lemma_fx_mul_le, lemma_tdiv_bound, tdiv, FX_LIM, POS_LIM,
};
use crate::mat::{
    lemma_entry4_bound_pairs, lemma_mm4_s_bound, mat3_bounded, mat3_of_mat4_s, mat4_bounded, mm4,
    mm4_s, Mat4, MAT_LIM,
};
use crate::vec::{v3_bounded, Vec3};
use vstd::prelude::*;

verus! {

/// The procedural material a draw call is shaded with.
#[derive(Clone, Copy, PartialEq, Eq, Structural, Debug)]
pub enum ShaderType {
    Skybox,
    Star,
    RockyPlanet,
    GasGiant,
    Spaceship,
    Orbit,
}

/// Largest magnitude accepted for the animation clock.
pub const TIME_LIM: i64 = 1_000_000_000_000_000;

/// Largest scale accepted for a model transform.
pub const SCALE_LIM: i64 = 100_000_000;

/// The immutable per-draw-call bundle.
#[derive(Clone, Copy, PartialEq, Eq, Structural, Debug)]
pub struct Uniforms {
    pub model_matrix: Mat4,
    pub view_matrix: Mat4,
    pub projection_matrix: Mat4,
    pub viewport_matrix: Mat4,
    pub light_position: Vec3,
    pub is_light_source: bool,
    pub shader_type: ShaderType,
    pub time: i64,
}

/// The bounds the pipeline needs of a uniform bundle: matrix entries inside
/// the entry limit, the model's linear block inside the coordinate limit so
/// its inverse stays representable.
pub open spec fn uniforms_wf(u: Uniforms) -> bool {
    &&& mat4_bounded(u.model_matrix, MAT_LIM as int)
    &&& mat4_bounded(u.view_matrix, MAT_LIM as int)
    &&& mat4_bounded(u.projection_matrix, MAT_LIM as int)
    &&& mat4_bounded(u.viewport_matrix, MAT_LIM as int)
    &&& mat3_bounded(mat3_of_mat4_s(u.model_matrix), FX_LIM as int)
    &&& v3_bounded(u.light_position, POS_LIM as int)
    &&& -TIME_LIM <= u.time <= TIME_LIM
}

/// The viewport matrix: scales normalized device coordinates to the pixel
/// rectangle, flipping the vertical axis.
pub open spec fn viewport_matrix_s(width: int, height: int) -> Mat4 {
    Mat4 {
        m00: tdiv(width, 2) as i64,
        m01: 0,
        m02: 0,
        m03: tdiv(width, 2) as i64,
        m10: 0,
        m11: (-tdiv(height, 2)) as i64,
        m12: 0,
        m13: tdiv(height, 2) as i64,
        m20: 0,
        m21: 0,
        m22: 1000,
        m23: 0,
        m30: 0,
        m31: 0,
        m32: 0,
        m33: 1000,
    }
}

pub fn create_viewport_matrix(width: i64, height: i64) -> (m: Mat4)
    requires
        0 <= width <= 10_000_000,
        0 <= height <= 10_000_000,
    ensures
        m == viewport_matrix_s(width as int, height as int),
        mat4_bounded(m, MAT_LIM as int),
{
    let w2 = width / 2;
    let h2 = height / 2;
    Mat4 {
        m00: w2,
        m01: 0,
        m02: 0,
        m03: w2,
        m10: 0,
        m11: -h2,
        m12: 0,
        m13: h2,
        m20: 0,
        m21: 0,
        m22: 1000,
        m23: 0,
        m30: 0,
        m31: 0,
        m32: 0,
        m33: 1000,
    }
}

/// The perspective projection: cotangent of half the vertical field of
/// view, over the aspect ratio for the horizontal axis, with the usual
/// depth mapping of a right-handed clip space.
pub open spec fn projection_matrix_s(fov_y: int, aspect: int, near: int, far: int) -> Mat4 {
    let h = tdiv(fov_y, 2);
    let f = fx_div_s(fx_cos_s(h), fx_sin_s(h));
    Mat4 {
        m00: fx_div_s(f, aspect) as i64,
        m01: 0,
        m02: 0,
        m03: 0,
        m10: 0,
        m11: f as i64,
        m12: 0,
        m13: 0,
        m20: 0,
        m21: 0,
        m22: (-fx_div_s(far + near, far - near)) as i64,
        m23: clamp_s(-tdiv(2 * (far * near), far - near), -MAT_LIM as int, MAT_LIM as int) as i64,
        m30: 0,
        m31: 0,
        m32: -1000i64,
        m33: 0,
    }
}

pub fn create_projection_matrix(fov_y: i64, aspect: i64, near: i64, far: i64) -> (m: Mat4)
    requires
        2 <= fov_y <= 3141,
        1 <= aspect <= 1_000_000,
        1 <= near < far,
        far <= 10_000_000,
    ensures
        m == projection_matrix_s(fov_y as int, aspect as int, near as int, far as int),
        mat4_bounded(m, MAT_LIM as int),
{
    let h = fov_y / 2;
    let sh = fx_sin(h);
    let ch = fx_cos(h);
    proof {
        assert(1 <= h <= 1570);
        vstd::arithmetic::div_mod::lemma_small_mod(h as nat, 6283nat);
        lemma_bhask_pos(h as int);
        assert(sh >= 1);
        assert(-(1_000_000 * (sh as int)) <= (ch as int) * 1000 <= 1_000_000 * (sh as int))
            by (nonlinear_arith)
            requires
                1 <= sh,
                -1000 <= ch <= 1000,
        ;
        lemma_tdiv_bound((ch as int) * 1000, sh as int, 1_000_000);
    }
    let f = fx_div(ch, sh);
    proof {
        assert(-(1_000_000_000 * (aspect as int)) <= (f as int) * 1000 <= 1_000_000_000 * (
        aspect as int)) by (nonlinear_arith)
            requires
                1 <= aspect,
                -1_000_000 <= f <= 1_000_000,
        ;
        lemma_tdiv_bound((f as int) * 1000, aspect as int, 1_000_000_000);
        assert(-(20_000_000_000 * ((far as int) - (near as int))) <= ((far as int) + (
        near as int)) * 1000 <= 20_000_000_000 * ((far as int) - (near as int)))
            by (nonlinear_arith)
            requires
                1 <= near < far <= 10_000_000,
        ;
        lemma_tdiv_bound(
            ((far as int) + (near as int)) * 1000,
            (far as int) - (near as int),
            20_000_000_000,
        );
        assert(0 <= (far as int) * (near as int) <= 100_000_000_000_000) by (nonlinear_arith)
            requires
                1 <= near < far <= 10_000_000,
        ;
    }
    let m22v = -fx_div(far + near, far - near);
    let fn2: i64 = 2 * (far * near);
    let m23raw: i64 = div_trunc(fn2, far - near);
    let m23v = clamp_i64(-m23raw, -MAT_LIM, MAT_LIM);
    Mat4 {
        m00: fx_div(f, aspect),
        m01: 0,
        m02: 0,
        m03: 0,
        m10: 0,
        m11: f,
        m12: 0,
        m13: 0,
        m20: 0,
        m21: 0,
        m22: m22v,
        m23: m23v,
        m30: 0,
        m31: 0,
        m32: -1000,
        m33: 0,
    }
}

pub open spec fn rot_x_s(r: int) -> Mat4 {
    Mat4 {
        m00: 1000,
        m01: 0,
        m02: 0,
        m03: 0,
        m10: 0,
        m11: fx_cos_s(r) as i64,
        m12: (-fx_sin_s(r)) as i64,
        m13: 0,
        m20: 0,
        m21: fx_sin_s(r) as i64,
        m22: fx_cos_s(r) as i64,
        m23: 0,
        m30: 0,
        m31: 0,
        m32: 0,
        m33: 1000,
    }
}

pub open spec fn rot_y_s(r: int) -> Mat4 {
    Mat4 {
        m00: fx_cos_s(r) as i64,
        m01: 0,
        m02: fx_sin_s(r) as i64,
        m03: 0,
        m10: 0,
        m11: 1000,
        m12: 0,
        m13: 0,
        m20: (-fx_sin_s(r)) as i64,
        m21: 0,
        m22: fx_cos_s(r) as i64,
        m23: 0,
        m30: 0,
        m31: 0,
        m32: 0,
        m33: 1000,
    }
}

pub open spec fn rot_z_s(r: int) -> Mat4 {
    Mat4 {
        m00: fx_cos_s(r) as i64,
        m01: (-fx_sin_s(r)) as i64,
        m02: 0,
        m03: 0,
        m10: fx_sin_s(r) as i64,
        m11: fx_cos_s(r) as i64,
        m12: 0,
        m13: 0,
        m20: 0,
        m21: 0,
        m22: 1000,
        m23: 0,
        m30: 0,
        m31: 0,
        m32: 0,
        m33: 1000,
    }
}

pub open spec fn translate_scale_s(t: Vec3, scale: int) -> Mat4 {
    Mat4 {
        m00: scale as i64,
        m01: 0,
        m02: 0,
        m03: t.x,
        m10: 0,
        m11: scale as i64,
        m12: 0,
        m13: t.y,
        m20: 0,
        m21: 0,
        m22: scale as i64,
        m23: t.z,
        m30: 0,
        m31: 0,
        m32: 0,
        m33: 1000,
    }
}

/// The model matrix: uniform scale and translation applied after the
/// rotations about x, then y, then z.
pub open spec fn model_matrix_s(translation: Vec3, scale: int, rotation: Vec3) -> Mat4 {
    let r = mm4_s(
        mm4_s(rot_z_s(rotation.z as int), rot_y_s(rotation.y as int)),
        rot_x_s(rotation.x as int),
    );
    mm4_s(translate_scale_s(translation, scale), r)
}

#[verifier::rlimit(80)]
pub fn create_model_matrix(translation: Vec3, scale: i64, rotation: Vec3) -> (m: Mat4)
    requires
        v3_bounded(translation, POS_LIM as int),
        0 <= scale <= SCALE_LIM,
        v3_bounded(rotation, TIME_LIM as int),
    ensures
        m == model_matrix_s(translation, scale as int, rotation),
        mat4_bounded(m, MAT_LIM as int),
        mat3_bounded(mat3_of_mat4_s(m), FX_LIM as int),
{
    let sx = fx_sin(rotation.x);
    let cx = fx_cos(rotation.x);
    let sy = fx_sin(rotation.y);
    let cy = fx_cos(rotation.y);
    let sz = fx_sin(rotation.z);
    let cz = fx_cos(rotation.z);
    let rx = Mat4 {
        m00: 1000,
        m01: 0,
        m02: 0,
        m03: 0,
        m10: 0,
        m11: cx,
        m12: -sx,
        m13: 0,
        m20: 0,
        m21: sx,
        m22: cx,
        m23: 0,
        m30: 0,
        m31: 0,
        m32: 0,
        m33: 1000,
    };
    let ry = Mat4 {
        m00: cy,
        m01: 0,
        m02: sy,
        m03: 0,
        m10: 0,
        m11: 1000,
        m12: 0,
        m13: 0,
        m20: -sy,
        m21: 0,
        m22: cy,
        m23: 0,
        m30: 0,
        m31: 0,
        m32: 0,
        m33: 1000,
    };
    let rz = Mat4 {
        m00: cz,
        m01: -sz,
        m02: 0,
        m03: 0,
        m10: sz,
        m11: cz,
        m12: 0,
        m13: 0,
        m20: 0,
        m21: 0,
        m22: 1000,
        m23: 0,
        m30: 0,
        m31: 0,
        m32: 0,
        m33: 1000,
    };
    let rzy = mm4(&rz, &ry);
    proof {
        lemma_mm4_s_bound(rz, ry, 1000, 1000);
    }
    let r = mm4(&rzy, &rx);
    proof {
        lemma_mm4_s_bound(rzy, rx, 4001, 1000);
    }
    let t_mat = Mat4 {
        m00: scale,
        m01: 0,
        m02: 0,
        m03: translation.x,
        m10: 0,
        m11: scale,
        m12: 0,
        m13: translation.y,
        m20: 0,
        m21: 0,
        m22: scale,
        m23: translation.z,
        m30: 0,
        m31: 0,
        m32: 0,
        m33: 1000,
    };
    let m = mm4(&t_mat, &r);
    proof {
        crate::mat::lemma_mm4_s_affine_row(rz, ry);
        crate::mat::lemma_mm4_s_affine_row(rzy, rx);
        assert(r.m30 == 0 && r.m31 == 0 && r.m32 == 0);
        lemma_fx_mul_le(scale as int, r.m00 as int, SCALE_LIM as int, 16005);
        lemma_fx_mul_le(scale as int, r.m01 as int, SCALE_LIM as int, 16005);
        lemma_fx_mul_le(scale as int, r.m02 as int, SCALE_LIM as int, 16005);
        lemma_fx_mul_le(scale as int, r.m10 as int, SCALE_LIM as int, 16005);
        lemma_fx_mul_le(scale as int, r.m11 as int, SCALE_LIM as int, 16005);
        lemma_fx_mul_le(scale as int, r.m12 as int, SCALE_LIM as int, 16005);
        lemma_fx_mul_le(scale as int, r.m20 as int, SCALE_LIM as int, 16005);
        lemma_fx_mul_le(scale as int, r.m21 as int, SCALE_LIM as int, 16005);
        lemma_fx_mul_le(scale as int, r.m22 as int, SCALE_LIM as int, 16005);
        lemma_entry4_bound_pairs(
            scale as int, r.m00 as int, 1_600_500_000_000,
            0, r.m10 as int, 0,
            0, r.m20 as int, 0,
            translation.x as int, 0, 0,
        );
        lemma_entry4_bound_pairs(
            scale as int, r.m01 as int, 1_600_500_000_000,
            0, r.m11 as int, 0,
            0, r.m21 as int, 0,
            translation.x as int, 0, 0,
        );
        lemma_entry4_bound_pairs(
            scale as int, r.m02 as int, 1_600_500_000_000,
            0, r.m12 as int, 0,
            0, r.m22 as int, 0,
            translation.x as int, 0, 0,
        );
        lemma_entry4_bound_pairs(
            0, r.m00 as int, 0,
            scale as int, r.m10 as int, 1_600_500_000_000,
            0, r.m20 as int, 0,
            translation.y as int, 0, 0,
        );
        lemma_entry4_bound_pairs(
            0, r.m01 as int, 0,
            scale as int, r.m11 as int, 1_600_500_000_000,
            0, r.m21 as int, 0,
            translation.y as int, 0, 0,
        );
        lemma_entry4_bound_pairs(
            0, r.m02 as int, 0,
            scale as int, r.m12 as int, 1_600_500_000_000,
            0, r.m22 as int, 0,
            translation.y as int, 0, 0,
        );
        lemma_entry4_bound_pairs(
            0, r.m00 as int, 0,
            0, r.m10 as int, 0,
            scale as int, r.m20 as int, 1_600_500_000_000,
            translation.z as int, 0, 0,
        );
        lemma_entry4_bound_pairs(
            0, r.m01 as int, 0,
            0, r.m11 as int, 0,
            scale as int, r.m21 as int, 1_600_500_000_000,
            translation.z as int, 0, 0,
        );
        lemma_entry4_bound_pairs(
            0, r.m02 as int, 0,
            0, r.m12 as int, 0,
            scale as int, r.m22 as int, 1_600_500_000_000,
            translation.z as int, 0, 0,
        );
    }
    m
}

} // verus!
