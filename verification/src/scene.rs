//! Scene objects around the pipeline: the camera-following ship, the
//! celestial bodies with their orbital motion, warp destinations, and the
//! generation of orbital-path vertices.

use crate::camera::{camera_wf, Camera};
use crate::color::Color;
use crate::fixed::{
    fx_atan2, fx_atan2_s, fx_cos, fx_cos_s, fx_mul, fx_mul_s, fx_sin, fx_sin_s, lemma_fx_mul_le,
    lemma_fx_mul_unit, tdiv, wrap_angle, wrap_angle_s, POS_LIM,
};
use crate::mat::{mat3_bounded, mat3_of_mat4_s, mat4_bounded, Mat4, MAT_LIM};
use crate::uniforms::{create_model_matrix, model_matrix_s, ShaderType, SCALE_LIM, TIME_LIM};
use crate::vec::{
    lemma_v3_cross_s_bound, v3_add, v3_add_s, v3_bounded, v3_clamp, v3_clamp_s, v3_cross,
    v3_cross_s, v3_norm, v3_norm_s, v3_scale, v3_scale_s, v3_sub, v3_sub_s, Vec2, Vec3,
};
use crate::vertex::{vertex_wf, Vertex};
use vstd::prelude::*;

verus! {

/// A destination the camera can warp to.
#[derive(Clone)]
pub struct WarpTarget {
    pub name: String,
    pub position: Vec3,
    pub distance: i64,
}

pub open spec fn warp_target_wf(t: WarpTarget) -> bool {
    &&& v3_bounded(t.position, POS_LIM as int)
    &&& 0 <= t.distance <= crate::camera::DIST_LIM
}

/// The ship that flies just ahead of and below the camera.
pub struct Spaceship {
    pub vertices: Vec<Vertex>,
    pub position: Vec3,
    pub rotation: Vec3,
    pub scale: i64,
}

pub open spec fn spaceship_wf(s: Spaceship) -> bool {
    &&& v3_bounded(s.position, POS_LIM as int)
    &&& v3_bounded(s.rotation, TIME_LIM as int)
    &&& 0 <= s.scale <= SCALE_LIM
    &&& forall|i: int| 0 <= i < s.vertices@.len() ==> vertex_wf(#[trigger] s.vertices@[i])
}

/// Where the ship stands relative to a camera, and the yaw that makes it
/// face the same way.
pub open spec fn spaceship_follow_s(s: Spaceship, cam: Camera) -> Spaceship {
    let forward = v3_norm_s(v3_sub_s(cam.target, cam.position));
    let right = v3_norm_s(v3_cross_s(forward, cam.up));
    let up = v3_norm_s(v3_cross_s(right, forward));
    let pos = v3_clamp_s(
        v3_add_s(
            v3_add_s(
                v3_add_s(cam.position, v3_scale_s(forward, 15000)),
                v3_scale_s(up, -3000),
            ),
            v3_scale_s(right, 2000),
        ),
        POS_LIM as int,
    );
    Spaceship {
        position: pos,
        rotation: Vec3 { y: fx_atan2_s(forward.z as int, forward.x as int) as i64, ..s.rotation },
        ..s
    }
}

impl Spaceship {
    pub fn new(vertices: Vec<Vertex>) -> (s: Spaceship)
        requires
            forall|i: int| 0 <= i < vertices@.len() ==> vertex_wf(#[trigger] vertices@[i]),
        ensures
            s.vertices == vertices,
            s.position == (Vec3 { x: 0, y: 0, z: 0 }),
            s.rotation == (Vec3 { x: 0, y: 0, z: 0 }),
            s.scale == 3000,
            spaceship_wf(s),
    {
        Spaceship {
            vertices,
            position: Vec3 { x: 0, y: 0, z: 0 },
            rotation: Vec3 { x: 0, y: 0, z: 0 },
            scale: 3000,
        }
    }

    /// Keep the ship slightly in front of and below the camera, facing
    /// the camera's look direction.
    pub fn update_position(&mut self, camera: &Camera)
        requires
            spaceship_wf(*old(self)),
            camera_wf(*camera),
        ensures
            *final(self) == spaceship_follow_s(*old(self), *camera),
            spaceship_wf(*final(self)),
    {
        let forward = v3_norm(v3_sub(camera.target, camera.position));
        let fu = v3_cross(forward, camera.up);
        proof {
            lemma_v3_cross_s_bound(forward, camera.up, 1000, 1000);
        }
        let right = v3_norm(fu);
        let rf = v3_cross(right, forward);
        proof {
            lemma_v3_cross_s_bound(right, forward, 1000, 1000);
            lemma_fx_mul_unit(15000, forward.x as int);
            lemma_fx_mul_unit(15000, forward.y as int);
            lemma_fx_mul_unit(15000, forward.z as int);
        }
        let up = v3_norm(rf);
        proof {
            lemma_fx_mul_unit(-3000, up.x as int);
            lemma_fx_mul_unit(-3000, up.y as int);
            lemma_fx_mul_unit(-3000, up.z as int);
            lemma_fx_mul_unit(2000, right.x as int);
            lemma_fx_mul_unit(2000, right.y as int);
            lemma_fx_mul_unit(2000, right.z as int);
        }
        self.position = v3_clamp(
            v3_add(
                v3_add(v3_add(camera.position, v3_scale(forward, 15000)), v3_scale(up, -3000)),
                v3_scale(right, 2000),
            ),
            POS_LIM,
        );
        self.rotation = Vec3 { y: fx_atan2(forward.z, forward.x), ..self.rotation };
    }

    pub fn get_model_matrix(&self) -> (m: Mat4)
        requires
            spaceship_wf(*self),
        ensures
            m == model_matrix_s(self.position, self.scale as int, self.rotation),
            mat4_bounded(m, MAT_LIM as int),
            mat3_bounded(mat3_of_mat4_s(m), crate::fixed::FX_LIM as int),
    {
        create_model_matrix(self.position, self.scale, self.rotation)
    }
}

/// A sun, planet or moon: a mesh, its transform, its material, and the
/// orbital elements that drive it.
pub struct CelestialBody {
    pub name: String,
    pub vertices: Vec<Vertex>,
    pub position: Vec3,
    pub rotation: Vec3,
    pub scale: i64,
    pub color: u32,
    pub shader_type: ShaderType,
    pub orbital_center: Option<Vec3>,
    pub orbital_radius: i64,
    pub orbital_speed: i64,
    pub orbital_angle: i64,
    pub rotation_speed: i64,
    pub parent_index: Option<usize>,
}

pub open spec fn body_wf(b: CelestialBody) -> bool {
    &&& v3_bounded(b.position, POS_LIM as int)
    &&& v3_bounded(b.rotation, TIME_LIM as int)
    &&& 0 <= b.scale <= SCALE_LIM
    &&& (match b.orbital_center {
        Some(c) => v3_bounded(c, POS_LIM as int),
        None => true,
    })
    &&& 0 <= b.orbital_radius <= 1_000_000_000
    &&& -1_000_000 <= b.orbital_speed <= 1_000_000
    &&& 0 <= b.orbital_angle < 6283
    &&& -1_000_000 <= b.rotation_speed <= 1_000_000
    &&& forall|i: int| 0 <= i < b.vertices@.len() ==> vertex_wf(#[trigger] b.vertices@[i])
}

/// One orbital step: advance the angles by the elapsed time and place the
/// body on its circle around its center or its parent.
pub open spec fn body_update_s(b: CelestialBody, dt: int, parents: Seq<Vec3>) -> CelestialBody {
    let angle = wrap_angle_s(b.orbital_angle + fx_mul_s(b.orbital_speed as int, dt));
    let rot = Vec3 {
        y: wrap_angle_s(b.rotation.y + fx_mul_s(b.rotation_speed as int, dt)) as i64,
        ..b.rotation
    };
    let stepped = CelestialBody { orbital_angle: angle as i64, rotation: rot, ..b };
    match b.orbital_center {
        Some(center) => CelestialBody {
            position: v3_clamp_s(
                Vec3 {
                    x: (center.x + fx_mul_s(b.orbital_radius as int, fx_cos_s(angle))) as i64,
                    y: center.y,
                    z: (center.z + fx_mul_s(b.orbital_radius as int, fx_sin_s(angle))) as i64,
                },
                POS_LIM as int,
            ),
            ..stepped
        },
        None => match b.parent_index {
            Some(idx) => {
                if idx < parents.len() {
                    let p = parents[idx as int];
                    CelestialBody {
                        position: v3_clamp_s(
                            Vec3 {
                                x: (p.x + fx_mul_s(b.orbital_radius as int, fx_cos_s(angle))) as i64,
                                y: p.y,
                                z: (p.z + fx_mul_s(b.orbital_radius as int, fx_sin_s(angle))) as i64,
                            },
                            POS_LIM as int,
                        ),
                        ..stepped
                    }
                } else {
                    stepped
                }
            },
            None => stepped,
        },
    }
}

impl CelestialBody {
    pub fn new_sun(name: String, vertices: Vec<Vertex>, position: Vec3, scale: i64, color: u32) -> (b:
        CelestialBody)
        requires
            v3_bounded(position, POS_LIM as int),
            0 <= scale <= SCALE_LIM,
            forall|i: int| 0 <= i < vertices@.len() ==> vertex_wf(#[trigger] vertices@[i]),
        ensures
            b.name == name,
            b.vertices == vertices,
            b.position == position,
            b.rotation == (Vec3 { x: 0, y: 0, z: 0 }),
            b.scale == scale,
            b.color == color,
            b.shader_type == ShaderType::Star,
            b.orbital_center.is_none(),
            b.orbital_radius == 0,
            b.orbital_speed == 0,
            b.orbital_angle == 0,
            b.rotation_speed == 100,
            b.parent_index.is_none(),
            body_wf(b),
    {
        CelestialBody {
            name,
            vertices,
            position,
            rotation: Vec3 { x: 0, y: 0, z: 0 },
            scale,
            color,
            shader_type: ShaderType::Star,
            orbital_center: None,
            orbital_radius: 0,
            orbital_speed: 0,
            orbital_angle: 0,
            rotation_speed: 100,
            parent_index: None,
        }
    }

    pub fn new_planet(
        name: String,
        vertices: Vec<Vertex>,
        orbital_center: Vec3,
        orbital_radius: i64,
        orbital_speed: i64,
        scale: i64,
        color: u32,
        shader_type: ShaderType,
    ) -> (b: CelestialBody)
        requires
            v3_bounded(orbital_center, POS_LIM as int),
            0 <= orbital_radius <= 1_000_000_000,
            -1_000_000 <= orbital_speed <= 1_000_000,
            0 <= scale <= SCALE_LIM,
            forall|i: int| 0 <= i < vertices@.len() ==> vertex_wf(#[trigger] vertices@[i]),
        ensures
            b.name == name,
            b.vertices == vertices,
            b.position == (Vec3 { x: 0, y: 0, z: 0 }),
            b.rotation == (Vec3 { x: 0, y: 0, z: 0 }),
            b.scale == scale,
            b.color == color,
            b.shader_type == shader_type,
            b.orbital_center == Some(orbital_center),
            b.orbital_radius == orbital_radius,
            b.orbital_speed == orbital_speed,
            b.orbital_angle == 0,
            b.rotation_speed == 300,
            b.parent_index.is_none(),
            body_wf(b),
    {
        CelestialBody {
            name,
            vertices,
            position: Vec3 { x: 0, y: 0, z: 0 },
            rotation: Vec3 { x: 0, y: 0, z: 0 },
            scale,
            color,
            shader_type,
            orbital_center: Some(orbital_center),
            orbital_radius,
            orbital_speed,
            orbital_angle: 0,
            rotation_speed: 300,
            parent_index: None,
        }
    }

    pub fn new_moon(
        name: String,
        vertices: Vec<Vertex>,
        parent_index: usize,
        orbital_radius: i64,
        orbital_speed: i64,
        scale: i64,
        color: u32,
        shader_type: ShaderType,
    ) -> (b: CelestialBody)
        requires
            0 <= orbital_radius <= 1_000_000_000,
            -1_000_000 <= orbital_speed <= 1_000_000,
            0 <= scale <= SCALE_LIM,
            forall|i: int| 0 <= i < vertices@.len() ==> vertex_wf(#[trigger] vertices@[i]),
        ensures
            b.name == name,
            b.vertices == vertices,
            b.position == (Vec3 { x: 0, y: 0, z: 0 }),
            b.rotation == (Vec3 { x: 0, y: 0, z: 0 }),
            b.scale == scale,
            b.color == color,
            b.shader_type == shader_type,
            b.orbital_center.is_none(),
            b.orbital_radius == orbital_radius,
            b.orbital_speed == orbital_speed,
            b.orbital_angle == 0,
            b.rotation_speed == 500,
            b.parent_index == Some(parent_index),
            body_wf(b),
    {
        CelestialBody {
            name,
            vertices,
            position: Vec3 { x: 0, y: 0, z: 0 },
            rotation: Vec3 { x: 0, y: 0, z: 0 },
            scale,
            color,
            shader_type,
            orbital_center: None,
            orbital_radius,
            orbital_speed,
            orbital_angle: 0,
            rotation_speed: 500,
            parent_index: Some(parent_index),
        }
    }

    /// Advance the orbital angle and self-rotation and recompute the
    /// position from the orbital elements.
    pub fn update(&mut self, delta_time: i64, parent_positions: &Vec<Vec3>)
        requires
            body_wf(*old(self)),
            0 <= delta_time <= 1_000_000,
            forall|i: int|
                0 <= i < parent_positions@.len() ==> v3_bounded(
                    #[trigger] parent_positions@[i],
                    POS_LIM as int,
                ),
        ensures
            *final(self) == body_update_s(*old(self), delta_time as int, parent_positions@),
            body_wf(*final(self)),
    {
        proof {
            lemma_fx_mul_le(self.orbital_speed as int, delta_time as int, 1_000_000, 1_000_000);
            lemma_fx_mul_le(self.rotation_speed as int, delta_time as int, 1_000_000, 1_000_000);
        }
        let angle = wrap_angle(self.orbital_angle + fx_mul(self.orbital_speed, delta_time));
        self.orbital_angle = angle;
        self.rotation = Vec3 {
            y: wrap_angle(self.rotation.y + fx_mul(self.rotation_speed, delta_time)),
            ..self.rotation
        };
        let ca = fx_cos(angle);
        let sa = fx_sin(angle);
        proof {
            lemma_fx_mul_unit(self.orbital_radius as int, ca as int);
            lemma_fx_mul_unit(self.orbital_radius as int, sa as int);
        }
        let radius = self.orbital_radius;
        match self.orbital_center {
            Some(center) => {
                self.position = v3_clamp(
                    Vec3 {
                        x: center.x + fx_mul(radius, ca),
                        y: center.y,
                        z: center.z + fx_mul(radius, sa),
                    },
                    POS_LIM,
                );
            },
            None => {
                match self.parent_index {
                    Some(idx) => {
                        if idx < parent_positions.len() {
                            let p = parent_positions[idx];
                            self.position = v3_clamp(
                                Vec3 {
                                    x: p.x + fx_mul(radius, ca),
                                    y: p.y,
                                    z: p.z + fx_mul(radius, sa),
                                },
                                POS_LIM,
                            );
                        }
                    },
                    None => {},
                }
            },
        }
    }

    pub fn get_model_matrix(&self) -> (m: Mat4)
        requires
            body_wf(*self),
        ensures
            m == model_matrix_s(self.position, self.scale as int, self.rotation),
            mat4_bounded(m, MAT_LIM as int),
            mat3_bounded(mat3_of_mat4_s(m), crate::fixed::FX_LIM as int),
    {
        create_model_matrix(self.position, self.scale, self.rotation)
    }
}

/// The vertex a path segment places at one step of the circle.
pub open spec fn orbital_path_vertex_s(center: Vec3, radius: int, i: int, segments: int) -> Vertex {
    let angle = tdiv(i * 6283, segments);
    let pos = v3_clamp_s(
        Vec3 {
            x: (center.x + fx_mul_s(radius, fx_cos_s(angle))) as i64,
            y: center.y,
            z: (center.z + fx_mul_s(radius, fx_sin_s(angle))) as i64,
        },
        POS_LIM as int,
    );
    Vertex {
        position: pos,
        normal: Vec3 { x: 0, y: 1000, z: 0 },
        tex_coords: Vec2 { x: 0, y: 0 },
        color: Color { r: 100, g: 200, b: 255 },
        transformed_position: Vec3 { x: 0, y: 0, z: 0 },
        transformed_normal: Vec3 { x: 0, y: 1000, z: 0 },
    }
}

/// Vertices of a circular orbital path on the ecliptic plane.
pub fn create_orbital_path(center: Vec3, radius: i64, segments: usize) -> (vertices: Vec<Vertex>)
    requires
        v3_bounded(center, POS_LIM as int),
        0 <= radius <= 1_000_000_000,
        1 <= segments <= 100_000,
    ensures
        vertices@.len() == segments,
        forall|i: int|
            0 <= i < segments ==> #[trigger] vertices@[i] == orbital_path_vertex_s(
                center,
                radius as int,
                i,
                segments as int,
            ),
        forall|i: int| 0 <= i < segments ==> vertex_wf(#[trigger] vertices@[i]),
{
    let mut vertices: Vec<Vertex> = Vec::new();
    let mut i: usize = 0;
    while i < segments
        invariant
            v3_bounded(center, POS_LIM as int),
            0 <= radius <= 1_000_000_000,
            1 <= segments <= 100_000,
            0 <= i <= segments,
            vertices@.len() == i,
            forall|k: int|
                0 <= k < i ==> #[trigger] vertices@[k] == orbital_path_vertex_s(
                    center,
                    radius as int,
                    k,
                    segments as int,
                ),
            forall|k: int| 0 <= k < i ==> vertex_wf(#[trigger] vertices@[k]),
        decreases segments - i,
    {
        let angle: i64 = ((i as i64) * 6283) / (segments as i64);
        let ca = fx_cos(angle);
        let sa = fx_sin(angle);
        proof {
            lemma_fx_mul_unit(radius as int, ca as int);
            lemma_fx_mul_unit(radius as int, sa as int);
        }
        let pos = v3_clamp(
            Vec3 { x: center.x + fx_mul(radius, ca), y: center.y, z: center.z + fx_mul(radius, sa) },
            POS_LIM,
        );
        vertices.push(
            Vertex {
                position: pos,
                normal: Vec3 { x: 0, y: 1000, z: 0 },
                tex_coords: Vec2 { x: 0, y: 0 },
                color: Color { r: 100, g: 200, b: 255 },
                transformed_position: Vec3 { x: 0, y: 0, z: 0 },
                transformed_normal: Vec3 { x: 0, y: 1000, z: 0 },
            },
        );
        i = i + 1;
    }
    vertices
}

} // verus!
