//! The vertex stage and the procedural material shaders.
//!
//! Every shader is a pure function of object-space position, transformed
//! normal and time, built from layered trigonometric noise; each exec
//! function returns exactly the value of its spec mirror, and the channel
//! narrowing saturates into one byte.

use crate::color::{chan, chan_s, Color};
use crate::fixed::{
    clamp_i64, clamp_s, emod, fx_cos, fx_cos_s, fx_div, fx_div_s, fx_mul, fx_mul_s, fx_sin,
    fx_sin_s, lemma_fx_mul_le, lemma_fx_mul_unit, max_i64, max_s, min_i64, min_s, tdiv, tdiv_i128,
    FX_LIM, POS_LIM,
};
use crate::mat::{m3v3, m3v3_s, mat3_normal, mat3_of_mat4, mat3_of_mat4_s, normal_mat_s};
use crate::uniforms::{uniforms_wf, ShaderType, Uniforms, TIME_LIM};
use crate::vec::{
    lemma_v3_dot_s_bound, v3_bounded, v3_clamp, v3_clamp_s, v3_dot, v3_dot_s, v3_len, v3_len_s,
    v3_norm, v3_norm_s, v3_sub, v3_sub_s, Vec3, Vec4,
};
use crate::vertex::{vertex_wf, Vertex};
use vstd::arithmetic::div_mod::{
    lemma_div_is_ordered, lemma_div_multiples_vanish, lemma_div_pos_is_pos,
};
use vstd::prelude::*;

verus! {

/// The starfield: position hashed through a sine into a noise value; rare
/// high noise renders as a twinkling star, the rest as tinted space.
pub open spec fn skybox_shader_s(pos: Vec3, time: int) -> Color {
    let arg = fx_mul_s(pos.x as int, 12990) + fx_mul_s(pos.y as int, 78233) + fx_mul_s(
        pos.z as int,
        43758,
    );
    let seed = fx_mul_s(fx_sin_s(arg), 43758545);
    let noise = seed % 1000;
    let twinkle = max_s(fx_mul_s(fx_sin_s(2 * time + 10 * noise), 500) + 500, 0);
    if noise > 995 {
        let ratio = tdiv((noise - 995) * 1000, 5);
        let star_intensity = fx_mul_s(ratio, twinkle);
        let brightness = tdiv(star_intensity * 255, 1000);
        Color {
            r: chan_s(brightness) as u8,
            g: chan_s(brightness) as u8,
            b: chan_s(brightness - 50) as u8,
        }
    } else {
        Color {
            r: chan_s(tdiv(noise * 10, 1000)) as u8,
            g: chan_s(tdiv(noise * 15, 1000)) as u8,
            b: chan_s(tdiv(noise * 25, 1000) + 30) as u8,
        }
    }
}

pub fn skybox_shader(pos: Vec3, time: i64) -> (c: Color)
    requires
        v3_bounded(pos, POS_LIM as int),
        -TIME_LIM <= time <= TIME_LIM,
    ensures
        c == skybox_shader_s(pos, time as int),
{
    proof {
        lemma_fx_mul_le(pos.x as int, 12990, POS_LIM as int, 12990);
        lemma_fx_mul_le(pos.y as int, 78233, POS_LIM as int, 78233);
        lemma_fx_mul_le(pos.z as int, 43758, POS_LIM as int, 43758);
    }
    let arg = fx_mul(pos.x, 12990) + fx_mul(pos.y, 78233) + fx_mul(pos.z, 43758);
    let sv = fx_sin(arg);
    proof {
        lemma_fx_mul_unit(43758545, sv as int);
    }
    let seed = fx_mul(sv, 43758545);
    let noise = emod(seed, 1000);
    let tw_sin = fx_sin(2 * time + 10 * noise);
    proof {
        lemma_fx_mul_unit(500, tw_sin as int);
    }
    let twinkle = max_i64(fx_mul(tw_sin, 500) + 500, 0);
    if noise > 995 {
        let ratio = ((noise - 995) * 1000) / 5;
        proof {
            lemma_fx_mul_le(ratio as int, twinkle as int, 800, 1000);
        }
        let star_intensity = fx_mul(ratio, twinkle);
        let brightness = (star_intensity * 255) / 1000;
        Color { r: chan(brightness), g: chan(brightness), b: chan(brightness - 50) }
    } else {
        Color {
            r: chan((noise * 10) / 1000),
            g: chan((noise * 15) / 1000),
            b: chan((noise * 25) / 1000 + 30),
        }
    }
}

/// The sun: a radial temperature gradient with a slow global pulse and
/// additive flare noise, banded into white, orange and red zones.
pub open spec fn star_shader_s(pos: Vec3, time: int) -> Color {
    let nd = min_s(tdiv(v3_len_s(pos), 10), 1000);
    let pulse = fx_mul_s(fx_sin_s(3 * time), 150) + 850;
    let temp = fx_mul_s(1000 - nd, pulse);
    let flare = fx_mul_s(
        fx_mul_s(fx_sin_s(tdiv(pos.x as int, 10) + time), fx_cos_s(tdiv(pos.y as int, 10) + time))
            + fx_sin_s(tdiv(pos.z as int, 10)),
        200,
    );
    let fi = clamp_s(temp + flare, 0, 1000);
    if fi > 800 {
        Color { r: 255, g: 255, b: chan_s(tdiv(200 * fi, 1000)) as u8 }
    } else if fi > 500 {
        Color {
            r: 255,
            g: chan_s(tdiv(200 * fi, 1000)) as u8,
            b: chan_s(tdiv(100 * fi, 1000)) as u8,
        }
    } else {
        Color {
            r: chan_s(tdiv(255 * fi, 1000)) as u8,
            g: chan_s(tdiv(150 * fi, 1000)) as u8,
            b: 50,
        }
    }
}

pub fn star_shader(pos: Vec3, time: i64) -> (c: Color)
    requires
        v3_bounded(pos, POS_LIM as int),
        -TIME_LIM <= time <= TIME_LIM,
    ensures
        c == star_shader_s(pos, time as int),
{
    let nd = min_i64(v3_len(pos) / 10, 1000);
    let p_sin = fx_sin(3 * time);
    proof {
        lemma_fx_mul_unit(150, p_sin as int);
    }
    let pulse = fx_mul(p_sin, 150) + 850;
    proof {
        lemma_fx_mul_unit(1000 - nd as int, pulse as int);
        lemma_fx_mul_unit(pulse as int, 1000 - nd as int);
    }
    let temp = fx_mul(1000 - nd, pulse);
    let f_sin = fx_sin(pos.x / 10 + time);
    let f_cos = fx_cos(pos.y / 10 + time);
    let f_sin_z = fx_sin(pos.z / 10);
    proof {
        lemma_fx_mul_unit(f_sin as int, f_cos as int);
        lemma_fx_mul_le(fx_mul_s(f_sin as int, f_cos as int) + f_sin_z as int, 200, 2000, 200);
    }
    let flare = fx_mul(fx_mul(f_sin, f_cos) + f_sin_z, 200);
    let fi = clamp_i64(temp + flare, 0, 1000);
    if fi > 800 {
        Color { r: 255, g: 255, b: chan((200 * fi) / 1000) }
    } else if fi > 500 {
        Color { r: 255, g: chan((200 * fi) / 1000), b: chan((100 * fi) / 1000) }
    } else {
        Color { r: chan((255 * fi) / 1000), g: chan((150 * fi) / 1000), b: 50 }
    }
}

/// Rocky terrain: a trigonometric height field, a crater mask that darkens
/// where its pattern exceeds its threshold, a mineral-vein term and a
/// normal-derived roughness, banded into iron, highland and lowland tones.
pub open spec fn rocky_height_s(pos: Vec3) -> int {
    let terrain = fx_mul_s(fx_sin_s(tdiv(pos.x as int, 20)), fx_cos_s(tdiv(pos.y as int, 20)))
        + fx_sin_s(tdiv(3 * pos.z, 100));
    tdiv(terrain + 1000, 2)
}

pub open spec fn rocky_crater_factor_s(pos: Vec3) -> int {
    let crater_pattern = crate::fixed::abs_s(
        fx_mul_s(
            fx_mul_s(fx_sin_s(tdiv(pos.x as int, 5)), fx_cos_s(tdiv(3 * pos.y, 20))),
            fx_sin_s(tdiv(9 * pos.z, 50)),
        ),
    );
    if crater_pattern > 700 {
        300
    } else {
        1000
    }
}

pub open spec fn rocky_mineral_s(pos: Vec3) -> int {
    fx_mul_s(
        fx_sin_s(tdiv(4 * pos.x, 5) + tdiv(3 * pos.y, 5)) + fx_cos_s(tdiv(2 * pos.z, 5)),
        500,
    ) + 500
}

pub open spec fn rocky_roughness_s(normal: Vec3) -> int {
    tdiv(crate::fixed::abs_s(normal.x + normal.y + normal.z), 10) + 900
}

pub open spec fn rocky_base_s(pos: Vec3, normal: Vec3) -> int {
    fx_mul_s(fx_mul_s(rocky_height_s(pos), rocky_crater_factor_s(pos)), rocky_roughness_s(normal))
}

pub open spec fn rocky_planet_shader_s(pos: Vec3, normal: Vec3, time: int) -> Color {
    let height = rocky_height_s(pos);
    let mineral = rocky_mineral_s(pos);
    let base = rocky_base_s(pos, normal);
    if mineral > 700 && height > 600 {
        Color {
            r: chan_s(tdiv(180 * base, 1000)) as u8,
            g: chan_s(tdiv(100 * base, 1000)) as u8,
            b: chan_s(tdiv(80 * base, 1000)) as u8,
        }
    } else if height > 400 {
        Color {
            r: chan_s(tdiv(140 * base, 1000)) as u8,
            g: chan_s(tdiv(120 * base, 1000)) as u8,
            b: chan_s(tdiv(100 * base, 1000)) as u8,
        }
    } else {
        Color {
            r: chan_s(tdiv(90 * base, 1000)) as u8,
            g: chan_s(tdiv(80 * base, 1000)) as u8,
            b: chan_s(tdiv(70 * base, 1000)) as u8,
        }
    }
}

fn rocky_height(pos: Vec3) -> (r: i64)
    requires
        v3_bounded(pos, POS_LIM as int),
    ensures
        r == rocky_height_s(pos),
        -500 <= r <= 1500,
{
    let t_sin = fx_sin(pos.x / 20);
    let t_cos = fx_cos(pos.y / 20);
    let t_sin_z = fx_sin((3 * pos.z) / 100);
    proof {
        lemma_fx_mul_unit(t_sin as int, t_cos as int);
    }
    let terrain = fx_mul(t_sin, t_cos) + t_sin_z;
    (terrain + 1000) / 2
}

fn rocky_crater_factor(pos: Vec3) -> (r: i64)
    requires
        v3_bounded(pos, POS_LIM as int),
    ensures
        r == rocky_crater_factor_s(pos),
        r == 300 || r == 1000,
{
    let c_sin = fx_sin(pos.x / 5);
    let c_cos = fx_cos((3 * pos.y) / 20);
    let c_sin_z = fx_sin((9 * pos.z) / 50);
    proof {
        lemma_fx_mul_unit(c_sin as int, c_cos as int);
        lemma_fx_mul_unit(fx_mul_s(c_sin as int, c_cos as int), c_sin_z as int);
    }
    let crater_product = fx_mul(fx_mul(c_sin, c_cos), c_sin_z);
    let crater_pattern = if crater_product >= 0 {
        crater_product
    } else {
        -crater_product
    };
    if crater_pattern > 700 {
        300
    } else {
        1000
    }
}

fn rocky_mineral(pos: Vec3) -> (r: i64)
    requires
        v3_bounded(pos, POS_LIM as int),
    ensures
        r == rocky_mineral_s(pos),
{
    let m_sin = fx_sin((4 * pos.x) / 5 + (3 * pos.y) / 5);
    let m_cos = fx_cos((2 * pos.z) / 5);
    proof {
        lemma_fx_mul_le(m_sin as int + m_cos as int, 500, 2000, 500);
    }
    fx_mul(m_sin + m_cos, 500) + 500
}

fn rocky_base(pos: Vec3, normal: Vec3) -> (r: i64)
    requires
        v3_bounded(pos, POS_LIM as int),
        v3_bounded(normal, FX_LIM as int),
    ensures
        r == rocky_base_s(pos, normal),
        -900_001_500 <= r <= 900_001_500,
{
    let height = rocky_height(pos);
    let crater_factor = rocky_crater_factor(pos);
    let nsum = normal.x + normal.y + normal.z;
    let nabs = if nsum >= 0 {
        nsum
    } else {
        -nsum
    };
    proof {
        lemma_div_pos_is_pos(nabs as int, 10);
        lemma_div_is_ordered(nabs as int, 6_000_000_000, 10);
        lemma_div_multiples_vanish(600_000_000, 10);
    }
    let roughness = nabs / 10 + 900;
    proof {
        lemma_fx_mul_unit(height as int, crater_factor as int);
        lemma_fx_mul_le(
            fx_mul_s(height as int, crater_factor as int),
            roughness as int,
            1500,
            600_001_000,
        );
    }
    fx_mul(fx_mul(height, crater_factor), roughness)
}

pub fn rocky_planet_shader(pos: Vec3, normal: Vec3, time: i64) -> (c: Color)
    requires
        v3_bounded(pos, POS_LIM as int),
        v3_bounded(normal, FX_LIM as int),
        -TIME_LIM <= time <= TIME_LIM,
    ensures
        c == rocky_planet_shader_s(pos, normal, time as int),
{
    let height = rocky_height(pos);
    let mineral = rocky_mineral(pos);
    let base = rocky_base(pos, normal);
    if mineral > 700 && height > 600 {
        Color {
            r: chan((180 * base) / 1000),
            g: chan((100 * base) / 1000),
            b: chan((80 * base) / 1000),
        }
    } else if height > 400 {
        Color {
            r: chan((140 * base) / 1000),
            g: chan((120 * base) / 1000),
            b: chan((100 * base) / 1000),
        }
    } else {
        Color {
            r: chan((90 * base) / 1000),
            g: chan((80 * base) / 1000),
            b: chan((70 * base) / 1000),
        }
    }
}

/// The depth cue common to the opaque hull materials: the magnitude of the
/// transformed normal, scaled and capped at one.
pub open spec fn normal_factor_s(n: Vec3) -> int {
    min_s(fx_mul_s(v3_len_s(n), 800) + 200, 1000)
}

fn normal_factor(n: Vec3) -> (r: i64)
    requires
        v3_bounded(n, FX_LIM as int),
    ensures
        r == normal_factor_s(n),
        200 <= r <= 1000,
{
    let l = v3_len(n);
    if l >= 1000 {
        proof {
            lemma_div_multiples_vanish(800, 1000);
            lemma_div_is_ordered(800000, (l as int) * 800, 1000);
        }
        1000
    } else {
        proof {
            lemma_fx_mul_le(l as int, 800, 1000, 800);
            lemma_div_pos_is_pos((l as int) * 800, 1000);
        }
        fx_mul(l, 800) + 200
    }
}

/// A gas giant: latitude bands shifted by time, two-axis storm turbulence,
/// composition noise and the normal depth cue, banded into cream, belt
/// brown and storm red.
pub open spec fn gas_giant_shader_s(pos: Vec3, normal: Vec3, time: int) -> Color {
    let latitude = fx_mul_s(fx_sin_s(tdiv(pos.y as int, 50)), 500) + 500;
    let band_pattern = fx_mul_s(fx_sin_s(tdiv(pos.y as int, 10) + tdiv(time, 10)), 500) + 500;
    let storm_factor = fx_mul_s(
        fx_mul_s(
            fx_sin_s(tdiv(3 * pos.x, 100) + tdiv(time, 5)),
            fx_cos_s(tdiv(3 * pos.z, 100) + tdiv(3 * time, 20)),
        ) + 1000,
        500,
    );
    let composition = fx_mul_s(fx_sin_s(tdiv(pos.x + pos.z, 100)), 300) + 700;
    let depth_factor = normal_factor_s(normal);
    let band_intensity = fx_mul_s(
        fx_mul_s(latitude + fx_mul_s(band_pattern, 300), composition),
        depth_factor,
    );
    let storm_intensity = fx_mul_s(storm_factor, 400) + 600;
    let ff = fx_mul_s(band_intensity, storm_intensity);
    if band_pattern > 600 {
        Color {
            r: chan_s(tdiv(220 * ff, 1000)) as u8,
            g: chan_s(tdiv(200 * ff, 1000)) as u8,
            b: chan_s(tdiv(170 * ff, 1000)) as u8,
        }
    } else if band_pattern > 300 {
        Color {
            r: chan_s(tdiv(160 * ff, 1000)) as u8,
            g: chan_s(tdiv(120 * ff, 1000)) as u8,
            b: chan_s(tdiv(80 * ff, 1000)) as u8,
        }
    } else {
        Color {
            r: chan_s(tdiv(200 * ff, 1000)) as u8,
            g: chan_s(tdiv(140 * ff, 1000)) as u8,
            b: chan_s(tdiv(100 * ff, 1000)) as u8,
        }
    }
}

#[verifier::rlimit(60)]
pub fn gas_giant_shader(pos: Vec3, normal: Vec3, time: i64) -> (c: Color)
    requires
        v3_bounded(pos, POS_LIM as int),
        v3_bounded(normal, FX_LIM as int),
        -TIME_LIM <= time <= TIME_LIM,
    ensures
        c == gas_giant_shader_s(pos, normal, time as int),
{
    let lat_sin = fx_sin(pos.y / 50);
    proof {
        lemma_fx_mul_unit(500, lat_sin as int);
    }
    let latitude = fx_mul(lat_sin, 500) + 500;
    let band_sin = fx_sin(pos.y / 10 + time / 10);
    proof {
        lemma_fx_mul_unit(500, band_sin as int);
    }
    let band_pattern = fx_mul(band_sin, 500) + 500;
    let storm_x = fx_sin((3 * pos.x) / 100 + time / 5);
    let storm_z = fx_cos((3 * pos.z) / 100 + (3 * time) / 20);
    proof {
        lemma_fx_mul_unit(storm_x as int, storm_z as int);
        lemma_fx_mul_le(fx_mul_s(storm_x as int, storm_z as int) + 1000, 500, 2000, 500);
    }
    let storm_factor = fx_mul(fx_mul(storm_x, storm_z) + 1000, 500);
    let comp_sin = fx_sin((pos.x + pos.z) / 100);
    proof {
        lemma_fx_mul_unit(300, comp_sin as int);
    }
    let composition = fx_mul(comp_sin, 300) + 700;
    let depth_factor = normal_factor(normal);
    proof {
        lemma_fx_mul_unit(300, band_pattern as int);
        lemma_fx_mul_le(
            latitude as int + fx_mul_s(band_pattern as int, 300),
            composition as int,
            1300,
            1000,
        );
        lemma_fx_mul_unit(
            latitude as int + fx_mul_s(band_pattern as int, 300),
            composition as int,
        );
        lemma_fx_mul_unit(
            fx_mul_s(latitude as int + fx_mul_s(band_pattern as int, 300), composition as int),
            depth_factor as int,
        );
    }
    let band_intensity = fx_mul(fx_mul(latitude + fx_mul(band_pattern, 300), composition),
        depth_factor);
    proof {
        lemma_fx_mul_unit(400, storm_factor as int);
        lemma_fx_mul_unit(band_intensity as int, fx_mul_s(storm_factor as int, 400) + 600);
    }
    let storm_intensity = fx_mul(storm_factor, 400) + 600;
    let ff = fx_mul(band_intensity, storm_intensity);
    if band_pattern > 600 {
        Color { r: chan((220 * ff) / 1000), g: chan((200 * ff) / 1000), b: chan((170 * ff) / 1000) }
    } else if band_pattern > 300 {
        Color { r: chan((160 * ff) / 1000), g: chan((120 * ff) / 1000), b: chan((80 * ff) / 1000) }
    } else {
        Color { r: chan((200 * ff) / 1000), g: chan((140 * ff) / 1000), b: chan((100 * ff) / 1000) }
    }
}

/// The ship hull: metallic base, clamped panel seams, wear noise and an
/// engine glow pulsing on the aft section, in a silver-blue scheme.
pub open spec fn spaceship_shader_s(pos: Vec3, normal: Vec3, time: int) -> Color {
    let panel_x = min_s(fx_mul_s(fx_sin_s(2 * pos.x), 500) + 500, 900);
    let panel_z = min_s(fx_mul_s(fx_cos_s(2 * pos.z), 500) + 500, 900);
    let panel_detail = fx_mul_s(panel_x + panel_z, 300) + 700;
    let wear = fx_mul_s(fx_sin_s(tdiv(3 * (pos.x + pos.y + pos.z), 2)), 100) + 900;
    let light_pulse = fx_mul_s(fx_sin_s(2 * time), 100) + 900;
    let engine_glow: int = if pos.z < -500 {
        light_pulse
    } else {
        1000
    };
    let fi = fx_mul_s(fx_mul_s(fx_mul_s(700, panel_detail), wear), engine_glow);
    let total = fx_mul_s(fi, normal_factor_s(normal));
    Color {
        r: chan_s(tdiv(180 * total, 1000)) as u8,
        g: chan_s(tdiv(190 * total, 1000)) as u8,
        b: chan_s(tdiv(210 * total, 1000)) as u8,
    }
}

pub fn spaceship_shader(pos: Vec3, normal: Vec3, time: i64) -> (c: Color)
    requires
        v3_bounded(pos, POS_LIM as int),
        v3_bounded(normal, FX_LIM as int),
        -TIME_LIM <= time <= TIME_LIM,
    ensures
        c == spaceship_shader_s(pos, normal, time as int),
{
    let px_sin = fx_sin(2 * pos.x);
    let pz_cos = fx_cos(2 * pos.z);
    proof {
        lemma_fx_mul_unit(500, px_sin as int);
        lemma_fx_mul_unit(500, pz_cos as int);
    }
    let panel_x = min_i64(fx_mul(px_sin, 500) + 500, 900);
    let panel_z = min_i64(fx_mul(pz_cos, 500) + 500, 900);
    proof {
        lemma_fx_mul_le(panel_x as int + panel_z as int, 300, 1800, 300);
    }
    let panel_detail = fx_mul(panel_x + panel_z, 300) + 700;
    let w_sin = fx_sin((3 * (pos.x + pos.y + pos.z)) / 2);
    proof {
        lemma_fx_mul_unit(100, w_sin as int);
    }
    let wear = fx_mul(w_sin, 100) + 900;
    let lp_sin = fx_sin(2 * time);
    proof {
        lemma_fx_mul_unit(100, lp_sin as int);
    }
    let light_pulse = fx_mul(lp_sin, 100) + 900;
    let engine_glow: i64 = if pos.z < -500 {
        light_pulse
    } else {
        1000
    };
    proof {
        lemma_fx_mul_le(700, panel_detail as int, 700, 1240);
        lemma_fx_mul_unit(fx_mul_s(700, panel_detail as int), wear as int);
        lemma_fx_mul_unit(
            fx_mul_s(fx_mul_s(700, panel_detail as int), wear as int),
            engine_glow as int,
        );
    }
    let fi = fx_mul(fx_mul(fx_mul(700, panel_detail), wear), engine_glow);
    let nf = normal_factor(normal);
    proof {
        lemma_fx_mul_unit(fi as int, nf as int);
    }
    let total = fx_mul(fi, nf);
    Color {
        r: chan((180 * total) / 1000),
        g: chan((190 * total) / 1000),
        b: chan((210 * total) / 1000),
    }
}

/// The orbital-path tint: a faint cyan-blue line whose base intensity is
/// modulated by a slow pulse and a distance fade.
pub open spec fn orbit_shader_s(pos: Vec3, time: int) -> Color {
    let pulse = fx_mul_s(fx_sin_s(tdiv(3 * time, 2)), 200) + 800;
    let fade = min_s(tdiv(v3_len_s(pos), 100), 1000);
    let fi = fx_mul_s(fx_mul_s(300, pulse), fade);
    Color {
        r: chan_s(tdiv(100 * fi, 1000)) as u8,
        g: chan_s(tdiv(200 * fi, 1000)) as u8,
        b: chan_s(tdiv(255 * fi, 1000)) as u8,
    }
}

pub fn orbit_shader(pos: Vec3, time: i64) -> (c: Color)
    requires
        v3_bounded(pos, POS_LIM as int),
        -TIME_LIM <= time <= TIME_LIM,
    ensures
        c == orbit_shader_s(pos, time as int),
{
    let p_sin = fx_sin((3 * time) / 2);
    proof {
        lemma_fx_mul_unit(200, p_sin as int);
    }
    let pulse = fx_mul(p_sin, 200) + 800;
    let fade = min_i64(v3_len(pos) / 100, 1000);
    proof {
        lemma_fx_mul_le(300, pulse as int, 300, 1000);
        lemma_fx_mul_unit(fx_mul_s(300, pulse as int), fade as int);
    }
    let fi = fx_mul(fx_mul(300, pulse), fade);
    Color { r: chan((100 * fi) / 1000), g: chan((200 * fi) / 1000), b: chan((255 * fi) / 1000) }
}

/// Distance attenuation of the light: one over a quadratic in the
/// distance, in fixed-point units.
pub open spec fn attenuation_s(d: int) -> int {
    tdiv(1_000_000, 1000 + tdiv(d, 10_000) + tdiv(d * d, 1_000_000_000))
}

pub fn attenuation(d: i64) -> (r: i64)
    requires
        0 <= d <= 16_000_000_000_000_000,
    ensures
        r == attenuation_s(d as int),
        0 <= r <= 1000,
{
    let t1: i64 = d / 10_000;
    proof {
        assert(0 <= (d as int) * (d as int) <= 256_000_000_000_000_000_000_000_000_000_000int)
            by (nonlinear_arith)
            requires
                0 <= d <= 16_000_000_000_000_000,
        ;
        lemma_div_pos_is_pos(d as int, 10_000);
    }
    let sq: i128 = (d as i128) * (d as i128);
    let t2: i128 = tdiv_i128(sq, 1_000_000_000);
    proof {
        lemma_div_pos_is_pos(sq as int, 1_000_000_000);
    }
    let denom: i128 = 1000 + (t1 as i128) + t2;
    proof {
        assert(1_000_000int <= 1000 * (denom as int)) by (nonlinear_arith)
            requires
                denom >= 1000,
        ;
        crate::fixed::lemma_tdiv_bound(1_000_000, denom as int, 1000);
    }
    let att: i128 = tdiv_i128(1_000_000, denom);
    att as i64
}

/// Lambertian per-vertex lighting: ambient plus diffuse scaled by the
/// distance attenuation, capped at one, applied to the base color.
pub open spec fn calculate_lighting_s(
    vertex_pos: Vec3,
    normal: Vec3,
    light_pos: Vec3,
    base_color: Color,
) -> Color {
    let ld = v3_norm_s(v3_sub_s(light_pos, vertex_pos));
    let diffuse = max_s(v3_dot_s(normal, ld), 0);
    let d = v3_len_s(v3_sub_s(light_pos, vertex_pos));
    let intensity = min_s(100 + fx_mul_s(diffuse, attenuation_s(d)), 1000);
    Color {
        r: chan_s(tdiv(base_color.r * intensity, 1000)) as u8,
        g: chan_s(tdiv(base_color.g * intensity, 1000)) as u8,
        b: chan_s(tdiv(base_color.b * intensity, 1000)) as u8,
    }
}

pub fn calculate_lighting(vertex_pos: Vec3, normal: Vec3, light_pos: Vec3, base_color: Color) -> (c:
    Color)
    requires
        v3_bounded(vertex_pos, POS_LIM as int),
        v3_bounded(normal, FX_LIM as int),
        v3_bounded(light_pos, POS_LIM as int),
    ensures
        c == calculate_lighting_s(vertex_pos, normal, light_pos, base_color),
{
    let diff_v = v3_sub(light_pos, vertex_pos);
    let ld = v3_norm(diff_v);
    proof {
        lemma_v3_dot_s_bound(normal, ld, FX_LIM as int, 1000);
    }
    let diffuse = max_i64(v3_dot(normal, ld), 0);
    let d = v3_len(diff_v);
    let att = attenuation(d);
    proof {
        assert(0 <= (diffuse as int) * (att as int) <= 6_000_001_000_000_000int)
            by (nonlinear_arith)
            requires
                0 <= diffuse <= 6_000_000_001,
                0 <= att <= 1000,
        ;
        crate::fixed::lemma_tdiv_bound(
            (diffuse as int) * (att as int),
            1000,
            6_000_001_000_000,
        );
    }
    let scaled: i128 = tdiv_i128((diffuse as i128) * (att as i128), 1000);
    let intensity = min_i64(100 + (scaled as i64), 1000);
    proof {
        lemma_fx_mul_le(base_color.r as int, intensity as int, 255, 6_000_001_000_100);
        lemma_fx_mul_le(base_color.g as int, intensity as int, 255, 6_000_001_000_100);
        lemma_fx_mul_le(base_color.b as int, intensity as int, 255, 6_000_001_000_100);
    }
    Color {
        r: chan(((base_color.r as i64) * intensity) / 1000),
        g: chan(((base_color.g as i64) * intensity) / 1000),
        b: chan(((base_color.b as i64) * intensity) / 1000),
    }
}

/// The color a material gives a vertex, dispatched on the shader tag.
pub open spec fn shade_s(tag: ShaderType, pos: Vec3, tn: Vec3, time: int) -> Color {
    match tag {
        ShaderType::Skybox => skybox_shader_s(pos, time),
        ShaderType::Star => star_shader_s(pos, time),
        ShaderType::RockyPlanet => rocky_planet_shader_s(pos, tn, time),
        ShaderType::GasGiant => gas_giant_shader_s(pos, tn, time),
        ShaderType::Spaceship => spaceship_shader_s(pos, tn, time),
        ShaderType::Orbit => orbit_shader_s(pos, time),
    }
}

/// The vertex stage: model, view, projection, guarded perspective divide,
/// clamped device coordinates, viewport mapping, the normal sent through
/// the inverse transpose of the model block, and the material color.
pub open spec fn vertex_shader_s(v: Vertex, u: Uniforms) -> Vertex {
    let p4 = Vec4 { x: v.position.x, y: v.position.y, z: v.position.z, w: 1000 };
    let world = crate::mat::mv4_s(u.model_matrix, p4);
    let view = crate::mat::mv4_s(u.view_matrix, world);
    let clip = crate::mat::mv4_s(u.projection_matrix, view);
    let w = max_s(clip.w as int, 1);
    let ndc = Vec4 {
        x: clamp_s(fx_div_s(clip.x as int, w), -10000, 10000) as i64,
        y: clamp_s(fx_div_s(clip.y as int, w), -10000, 10000) as i64,
        z: clamp_s(fx_div_s(clip.z as int, w), -10000, 10000) as i64,
        w: 1000,
    };
    let screen = crate::mat::mv4_s(u.viewport_matrix, ndc);
    let tp = v3_clamp_s(Vec3 { x: screen.x, y: screen.y, z: screen.z }, POS_LIM as int);
    let nm = normal_mat_s(mat3_of_mat4_s(u.model_matrix));
    let tn = m3v3_s(nm, v.normal);
    Vertex {
        position: v.position,
        normal: v.normal,
        tex_coords: v.tex_coords,
        color: shade_s(u.shader_type, v.position, tn, u.time as int),
        transformed_position: tp,
        transformed_normal: tn,
    }
}

pub fn vertex_shader(vertex: &Vertex, uniforms: &Uniforms) -> (out: Vertex)
    requires
        vertex_wf(*vertex),
        uniforms_wf(*uniforms),
    ensures
        out == vertex_shader_s(*vertex, *uniforms),
        vertex_wf(out),
{
    let p4 = Vec4 { x: vertex.position.x, y: vertex.position.y, z: vertex.position.z, w: 1000 };
    let world = crate::mat::mv4(&uniforms.model_matrix, p4);
    let view = crate::mat::mv4(&uniforms.view_matrix, world);
    let clip = crate::mat::mv4(&uniforms.projection_matrix, view);
    let w = max_i64(clip.w, 1);
    let ndc = Vec4 {
        x: clamp_i64(fx_div(clip.x, w), -10000, 10000),
        y: clamp_i64(fx_div(clip.y, w), -10000, 10000),
        z: clamp_i64(fx_div(clip.z, w), -10000, 10000),
        w: 1000,
    };
    let screen = crate::mat::mv4(&uniforms.viewport_matrix, ndc);
    let tp = v3_clamp(Vec3 { x: screen.x, y: screen.y, z: screen.z }, POS_LIM);
    let m3 = mat3_of_mat4(&uniforms.model_matrix);
    let nm = mat3_normal(&m3);
    let tn = m3v3(&nm, vertex.normal);
    let final_color = match uniforms.shader_type {
        ShaderType::Skybox => skybox_shader(vertex.position, uniforms.time),
        ShaderType::Star => star_shader(vertex.position, uniforms.time),
        ShaderType::RockyPlanet => rocky_planet_shader(vertex.position, tn, uniforms.time),
        ShaderType::GasGiant => gas_giant_shader(vertex.position, tn, uniforms.time),
        ShaderType::Spaceship => spaceship_shader(vertex.position, tn, uniforms.time),
        ShaderType::Orbit => orbit_shader(vertex.position, uniforms.time),
    };
    Vertex {
        position: vertex.position,
        normal: vertex.normal,
        tex_coords: vertex.tex_coords,
        color: final_color,
        transformed_position: tp,
        transformed_normal: tn,
    }
}

/// The fragment stage: scale the interpolated color by the triangle's flat
/// lighting intensity.
pub open spec fn fragment_shader_s(f: crate::fragment::Fragment) -> crate::fragment::Fragment {
    crate::fragment::Fragment {
        color: Color {
            r: chan_s(tdiv(f.color.r * f.intensity, 1000)) as u8,
            g: chan_s(tdiv(f.color.g * f.intensity, 1000)) as u8,
            b: chan_s(tdiv(f.color.b * f.intensity, 1000)) as u8,
        },
        ..f
    }
}

pub fn fragment_shader(fragment: crate::fragment::Fragment, uniforms: &Uniforms) -> (out:
    crate::fragment::Fragment)
    requires
        0 <= fragment.intensity <= 1000,
    ensures
        out == fragment_shader_s(fragment),
{
    proof {
        lemma_fx_mul_le(fragment.color.r as int, fragment.intensity as int, 255, 1000);
        lemma_fx_mul_le(fragment.color.g as int, fragment.intensity as int, 255, 1000);
        lemma_fx_mul_le(fragment.color.b as int, fragment.intensity as int, 255, 1000);
    }
    crate::fragment::Fragment {
        color: Color {
            r: chan(((fragment.color.r as i64) * fragment.intensity) / 1000),
            g: chan(((fragment.color.g as i64) * fragment.intensity) / 1000),
            b: chan(((fragment.color.b as i64) * fragment.intensity) / 1000),
        },
        ..fragment
    }
}

} // verus!
