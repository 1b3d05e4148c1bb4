//! The movable camera: orbital mode (azimuth, elevation, distance around a
//! target) and free-fly mode (position and velocity), and the view matrix.

use crate::fixed::{
    abs_s, clamp_i64, clamp_s, fx_cos, fx_cos_s, fx_mul, fx_mul_s, fx_sin, fx_sin_s,
    lemma_fx_mul_le, lemma_fx_mul_unit, lemma_tdiv_small, tdiv, wrap_angle, wrap_angle_s, POS_LIM,
};
use crate::mat::{mat4_bounded, mv4_s, row4_s, Mat4, MAT_LIM};
use crate::vec::{
    lemma_v3_cross_s_bound, lemma_v3_dot_s_bound, v3_add, v3_add_s, v3_bounded, v3_clamp,
    v3_clamp_s, v3_cross, v3_cross_s, v3_dot, v3_dot_s, v3_len, v3_norm, v3_norm_s, v3_scale, v3_scale_s,
    v3_sub, v3_sub_s, Vec3, Vec4,
};
use vstd::arithmetic::div_mod::{
    lemma_fundamental_div_mod, lemma_mod_division_less_than_divisor,
};
use vstd::prelude::*;

verus! {

/// Lower clamp of the elevation angle, keeping it off the poles.
pub const PHI_MIN: i64 = 100;

/// Upper clamp of the elevation angle (pi minus the lower clamp).
pub const PHI_MAX: i64 = 3042;

/// Closest orbital distance the zoom allows.
pub const MIN_DISTANCE: i64 = 50_000;

/// Farthest orbital distance the zoom allows.
pub const MAX_DISTANCE: i64 = 3_000_000;

/// Largest distance the camera state itself can hold.
pub const DIST_LIM: i64 = 1_000_000_000;

/// Largest magnitude accepted for one orbit or zoom delta.
pub const DELTA_LIM: i64 = 1_000_000_000_000_000_000;

/// Largest time step accepted by the movement integrators.
pub const DT_LIM: i64 = 1_000_000;

#[derive(Clone, Copy, PartialEq, Eq, Structural, Debug)]
pub struct Camera {
    pub position: Vec3,
    pub target: Vec3,
    pub up: Vec3,
    pub distance: i64,
    pub theta: i64,
    pub phi: i64,
    pub free_camera: bool,
    pub movement_speed: i64,
    pub rotation_speed: i64,
    pub velocity: Vec3,
}

/// The bounds every camera value keeps: positions inside the world limit,
/// the elevation clamped off the poles, the azimuth reduced to one turn.
pub open spec fn camera_wf(c: Camera) -> bool {
    &&& v3_bounded(c.position, POS_LIM as int)
    &&& v3_bounded(c.target, POS_LIM as int)
    &&& v3_bounded(c.velocity, POS_LIM as int)
    &&& v3_bounded(c.up, 1000)
    &&& 0 <= c.distance <= DIST_LIM
    &&& PHI_MIN <= c.phi <= PHI_MAX
    &&& 0 <= c.theta < 6283
    &&& 0 <= c.movement_speed <= 1_000_000
    &&& 0 <= c.rotation_speed <= 1_000_000
}

/// Where the orbital camera stands: the target plus the spherical offset
/// given by azimuth, elevation and distance.
pub open spec fn orbit_position_s(c: Camera) -> Vec3 {
    let sp = fx_sin_s(c.phi as int);
    let cp = fx_cos_s(c.phi as int);
    let st = fx_sin_s(c.theta as int);
    let ct = fx_cos_s(c.theta as int);
    let off = Vec3 {
        x: fx_mul_s(c.distance as int, fx_mul_s(sp, ct)) as i64,
        y: fx_mul_s(c.distance as int, cp) as i64,
        z: fx_mul_s(c.distance as int, fx_mul_s(sp, st)) as i64,
    };
    v3_clamp_s(v3_add_s(c.target, off), POS_LIM as int)
}

pub open spec fn update_position_s(c: Camera) -> Camera {
    if c.free_camera {
        c
    } else {
        Camera { position: orbit_position_s(c), ..c }
    }
}

pub open spec fn camera_new_s(target: Vec3, distance: i64) -> Camera {
    update_position_s(
        Camera {
            position: Vec3 { x: 0, y: 0, z: 0 },
            target,
            up: Vec3 { x: 0, y: 1000, z: 0 },
            distance,
            theta: 0,
            phi: 1571,
            free_camera: false,
            movement_speed: 50_000,
            rotation_speed: 30,
            velocity: Vec3 { x: 0, y: 0, z: 0 },
        },
    )
}

pub open spec fn orbit_s(c: Camera, delta_theta: int, delta_phi: int) -> Camera {
    if c.free_camera {
        c
    } else {
        update_position_s(
            Camera {
                theta: wrap_angle_s(c.theta + delta_theta) as i64,
                phi: clamp_s(c.phi + delta_phi, PHI_MIN as int, PHI_MAX as int) as i64,
                ..c
            },
        )
    }
}

pub open spec fn zoom_s(c: Camera, delta: int) -> Camera {
    if c.free_camera {
        c
    } else {
        update_position_s(
            Camera {
                distance: clamp_s(
                    c.distance + delta,
                    MIN_DISTANCE as int,
                    MAX_DISTANCE as int,
                ) as i64,
                ..c
            },
        )
    }
}

pub open spec fn toggle_free_camera_s(c: Camera) -> Camera {
    let flipped = Camera { free_camera: !c.free_camera, ..c };
    if flipped.free_camera {
        let forward = v3_norm_s(v3_sub_s(c.target, c.position));
        Camera {
            target: v3_clamp_s(
                v3_add_s(c.position, v3_scale_s(forward, 100_000)),
                POS_LIM as int,
            ),
            ..flipped
        }
    } else {
        flipped
    }
}

/// Flipping the mode twice restores the original mode flag; the target may
/// stay re-anchored, so the toggle is an involution on the flag alone.
pub proof fn lemma_toggle_mode_involution(c: Camera)
    ensures
        toggle_free_camera_s(toggle_free_camera_s(c)).free_camera == c.free_camera,
{
}

/// The right-handed look-at view matrix: rows are the right, true-up and
/// negated-forward axes, the last column the negated projections of the eye.
pub open spec fn look_at_s(eye: Vec3, at: Vec3, up: Vec3) -> Mat4 {
    let f = v3_norm_s(v3_sub_s(at, eye));
    let r = v3_norm_s(v3_cross_s(f, up));
    let u = v3_cross_s(r, f);
    let z = Vec3 { x: (-f.x) as i64, y: (-f.y) as i64, z: (-f.z) as i64 };
    Mat4 {
        m00: r.x,
        m01: r.y,
        m02: r.z,
        m03: (-v3_dot_s(r, eye)) as i64,
        m10: u.x,
        m11: u.y,
        m12: u.z,
        m13: (-v3_dot_s(u, eye)) as i64,
        m20: z.x,
        m21: z.y,
        m22: z.z,
        m23: (-v3_dot_s(z, eye)) as i64,
        m30: 0,
        m31: 0,
        m32: 0,
        m33: 1000,
    }
}

/// A view-matrix row built from an axis and the negated projection of the
/// eye on it sends the eye itself to zero: the projection cancels exactly,
/// leaving a remainder smaller than one scale unit.
proof fn lemma_row_maps_eye_to_zero(r: Vec3, eye: Vec3)
    ensures
        row4_s(
            r.x as int,
            r.y as int,
            r.z as int,
            -v3_dot_s(r, eye),
            Vec4 { x: eye.x, y: eye.y, z: eye.z, w: 1000 },
        ) == 0,
{
    let sum = r.x * eye.x + r.y * eye.y + r.z * eye.z;
    let d = tdiv(sum, 1000);
    let aa = abs_s(sum);
    lemma_fundamental_div_mod(aa, 1000);
    lemma_mod_division_less_than_divisor(aa, 1000);
    assert(aa == 1000 * (aa / 1000) + aa % 1000);
    if sum >= 0 {
        assert(sum - d * 1000 == aa % 1000);
    } else {
        assert(sum - d * 1000 == -(aa % 1000));
    }
    lemma_tdiv_small(sum - d * 1000);
    assert(sum + (-d) * 1000 == sum - d * 1000);
}

/// Build the view matrix from eye, look target and world up.
pub fn look_at_matrix(eye: Vec3, at: Vec3, up: Vec3) -> (m: Mat4)
    requires
        v3_bounded(eye, POS_LIM as int),
        v3_bounded(at, POS_LIM as int),
        v3_bounded(up, 1000),
    ensures
        m == look_at_s(eye, at, up),
        mat4_bounded(m, MAT_LIM as int),
        mv4_s(m, Vec4 { x: eye.x, y: eye.y, z: eye.z, w: 1000 }) == (Vec4 {
            x: 0,
            y: 0,
            z: 0,
            w: 1000,
        }),
{
    let f = v3_norm(v3_sub(at, eye));
    let fu = v3_cross(f, up);
    proof {
        lemma_v3_cross_s_bound(f, up, 1000, 1000);
    }
    let r = v3_norm(fu);
    let u = v3_cross(r, f);
    let z = Vec3 { x: -f.x, y: -f.y, z: -f.z };
    proof {
        lemma_v3_cross_s_bound(r, f, 1000, 1000);
        lemma_v3_dot_s_bound(r, eye, 1000, POS_LIM as int);
        lemma_v3_dot_s_bound(u, eye, 2001, POS_LIM as int);
        lemma_v3_dot_s_bound(z, eye, 1000, POS_LIM as int);
    }
    let dr = v3_dot(r, eye);
    let du = v3_dot(u, eye);
    let dz = v3_dot(z, eye);
    proof {
        lemma_row_maps_eye_to_zero(r, eye);
        lemma_row_maps_eye_to_zero(u, eye);
        lemma_row_maps_eye_to_zero(z, eye);
        vstd::arithmetic::div_mod::lemma_div_multiples_vanish(1000, 1000);
        assert(tdiv(1000int * 1000int, 1000int) == 1000);
    }
    Mat4 {
        m00: r.x,
        m01: r.y,
        m02: r.z,
        m03: -dr,
        m10: u.x,
        m11: u.y,
        m12: u.z,
        m13: -du,
        m20: z.x,
        m21: z.y,
        m22: z.z,
        m23: -dz,
        m30: 0,
        m31: 0,
        m32: 0,
        m33: 1000,
    }
}

impl Camera {
    /// The view matrix of the current camera state; it maps the camera's
    /// own position to the origin of view space.
    pub fn look_at(&self) -> (m: Mat4)
        requires
            camera_wf(*self),
        ensures
            m == look_at_s(self.position, self.target, self.up),
            mat4_bounded(m, MAT_LIM as int),
            mv4_s(m, Vec4 { x: self.position.x, y: self.position.y, z: self.position.z, w: 1000 })
                == (Vec4 { x: 0, y: 0, z: 0, w: 1000 }),
    {
        look_at_matrix(self.position, self.target, self.up)
    }

    pub fn new(target: Vec3, distance: i64) -> (c: Camera)
        requires
            v3_bounded(target, POS_LIM as int),
            0 <= distance <= DIST_LIM,
        ensures
            c == camera_new_s(target, distance),
            camera_wf(c),
    {
        let mut camera = Camera {
            position: Vec3 { x: 0, y: 0, z: 0 },
            target,
            up: Vec3 { x: 0, y: 1000, z: 0 },
            distance,
            theta: 0,
            phi: 1571,
            free_camera: false,
            movement_speed: 50_000,
            rotation_speed: 30,
            velocity: Vec3 { x: 0, y: 0, z: 0 },
        };
        camera.update_position();
        camera
    }

    /// Recompute the position from the spherical coordinates; a no-op for
    /// the free camera.
    pub fn update_position(&mut self)
        requires
            camera_wf(*old(self)),
        ensures
            *final(self) == update_position_s(*old(self)),
            camera_wf(*final(self)),
    {
        if !self.free_camera {
            let sp = fx_sin(self.phi);
            let cp = fx_cos(self.phi);
            let st = fx_sin(self.theta);
            let ct = fx_cos(self.theta);
            proof {
                lemma_fx_mul_unit(sp as int, ct as int);
                lemma_fx_mul_unit(sp as int, st as int);
                lemma_fx_mul_unit(self.distance as int, fx_mul_s(sp as int, ct as int));
                lemma_fx_mul_unit(self.distance as int, cp as int);
                lemma_fx_mul_unit(self.distance as int, fx_mul_s(sp as int, st as int));
            }
            let off = Vec3 {
                x: fx_mul(self.distance, fx_mul(sp, ct)),
                y: fx_mul(self.distance, cp),
                z: fx_mul(self.distance, fx_mul(sp, st)),
            };
            self.position = v3_clamp(v3_add(self.target, off), POS_LIM);
        }
    }

    /// Swing the orbital camera: the azimuth wraps around the full turn,
    /// the elevation is clamped off the poles whatever the delta.
    pub fn orbit(&mut self, delta_theta: i64, delta_phi: i64)
        requires
            camera_wf(*old(self)),
            -DELTA_LIM <= delta_theta <= DELTA_LIM,
            -DELTA_LIM <= delta_phi <= DELTA_LIM,
        ensures
            *final(self) == orbit_s(*old(self), delta_theta as int, delta_phi as int),
            camera_wf(*final(self)),
            PHI_MIN <= final(self).phi <= PHI_MAX,
    {
        if !self.free_camera {
            self.theta = wrap_angle(self.theta + delta_theta);
            self.phi = clamp_i64(self.phi + delta_phi, PHI_MIN, PHI_MAX);
            self.update_position();
        }
    }

    /// Move the orbital camera along the view ray; the distance is clamped
    /// into the configured range whatever the delta.
    pub fn zoom(&mut self, delta_distance: i64)
        requires
            camera_wf(*old(self)),
            -DELTA_LIM <= delta_distance <= DELTA_LIM,
        ensures
            *final(self) == zoom_s(*old(self), delta_distance as int),
            camera_wf(*final(self)),
            !old(self).free_camera ==> MIN_DISTANCE <= final(self).distance <= MAX_DISTANCE,
    {
        if !self.free_camera {
            self.distance = clamp_i64(self.distance + delta_distance, MIN_DISTANCE, MAX_DISTANCE);
            self.update_position();
        }
    }

    /// Switch between the orbital and the free camera; entering free mode
    /// re-anchors the target ahead of the position so the look direction
    /// is preserved.
    pub fn toggle_free_camera(&mut self)
        requires
            camera_wf(*old(self)),
        ensures
            *final(self) == toggle_free_camera_s(*old(self)),
            camera_wf(*final(self)),
            final(self).free_camera == !old(self).free_camera,
    {
        self.free_camera = !self.free_camera;
        if self.free_camera {
            let forward = v3_norm(v3_sub(self.target, self.position));
            proof {
                lemma_fx_mul_le(forward.x as int, 100_000, 1000, 100_000);
                lemma_fx_mul_le(forward.y as int, 100_000, 1000, 100_000);
                lemma_fx_mul_le(forward.z as int, 100_000, 1000, 100_000);
            }
            self.target = v3_clamp(v3_add(self.position, v3_scale(forward, 100_000)), POS_LIM);
        }
    }
}

/// Axis-angle rotation by the Rodrigues formula on fixed-point vectors,
/// with the result clamped into a generous bound.
pub open spec fn rotate_vec3_s(v: Vec3, angle: int, axis: Vec3) -> Vec3 {
    let c = fx_cos_s(angle);
    let s = fx_sin_s(angle);
    let t1 = v3_scale_s(v, c);
    let t2 = v3_scale_s(v3_cross_s(axis, v), s);
    let t3 = v3_scale_s(axis, fx_mul_s(v3_dot_s(axis, v), 1000 - c));
    v3_clamp_s(v3_add_s(v3_add_s(t1, t2), t3), 1_000_000)
}

/// Rotate a vector around a unit axis by the given angle.
pub fn rotate_vec3(v: Vec3, angle: i64, axis: Vec3) -> (r: Vec3)
    requires
        v3_bounded(v, 1_000_000),
        v3_bounded(axis, 1000),
        -9_000_000_000_000_000_000 <= angle <= 9_000_000_000_000_000_000,
    ensures
        r == rotate_vec3_s(v, angle as int, axis),
        v3_bounded(r, 1_000_000),
{
    let c = fx_cos(angle);
    let s = fx_sin(angle);
    proof {
        lemma_fx_mul_unit(v.x as int, c as int);
        lemma_fx_mul_unit(v.y as int, c as int);
        lemma_fx_mul_unit(v.z as int, c as int);
        lemma_v3_cross_s_bound(axis, v, 1000, 1_000_000);
        lemma_v3_dot_s_bound(axis, v, 1000, 1_000_000);
    }
    let t1 = v3_scale(v, c);
    let av = v3_cross(axis, v);
    proof {
        lemma_fx_mul_unit(av.x as int, s as int);
        lemma_fx_mul_unit(av.y as int, s as int);
        lemma_fx_mul_unit(av.z as int, s as int);
    }
    let t2 = v3_scale(av, s);
    let kd = v3_dot(axis, v);
    proof {
        lemma_fx_mul_le(kd as int, 1000 - c as int, 3_000_001, 2000);
    }
    let factor = fx_mul(kd, 1000 - c);
    proof {
        lemma_fx_mul_le(axis.x as int, factor as int, 1000, 6_000_002);
        lemma_fx_mul_le(axis.y as int, factor as int, 1000, 6_000_002);
        lemma_fx_mul_le(axis.z as int, factor as int, 1000, 6_000_002);
    }
    let t3 = v3_scale(axis, factor);
    v3_clamp(v3_add(v3_add(t1, t2), t3), 1_000_000)
}

pub open spec fn move_forward_s(c: Camera, delta: int) -> Camera {
    if !c.free_camera {
        c
    } else {
        let f = v3_norm_s(v3_sub_s(c.target, c.position));
        Camera {
            velocity: v3_clamp_s(
                v3_add_s(
                    c.velocity,
                    v3_scale_s(f, fx_mul_s(c.movement_speed as int, delta)),
                ),
                POS_LIM as int,
            ),
            ..c
        }
    }
}

pub open spec fn move_backward_s(c: Camera, delta: int) -> Camera {
    if !c.free_camera {
        c
    } else {
        let f = v3_norm_s(v3_sub_s(c.target, c.position));
        Camera {
            velocity: v3_clamp_s(
                v3_sub_s(
                    c.velocity,
                    v3_scale_s(f, fx_mul_s(c.movement_speed as int, delta)),
                ),
                POS_LIM as int,
            ),
            ..c
        }
    }
}

pub open spec fn side_dir_s(c: Camera) -> Vec3 {
    v3_norm_s(v3_cross_s(v3_norm_s(v3_sub_s(c.target, c.position)), c.up))
}

pub open spec fn move_left_s(c: Camera, delta: int) -> Camera {
    if !c.free_camera {
        c
    } else {
        Camera {
            velocity: v3_clamp_s(
                v3_sub_s(
                    c.velocity,
                    v3_scale_s(side_dir_s(c), fx_mul_s(c.movement_speed as int, delta)),
                ),
                POS_LIM as int,
            ),
            ..c
        }
    }
}

pub open spec fn move_right_s(c: Camera, delta: int) -> Camera {
    if !c.free_camera {
        c
    } else {
        Camera {
            velocity: v3_clamp_s(
                v3_add_s(
                    c.velocity,
                    v3_scale_s(side_dir_s(c), fx_mul_s(c.movement_speed as int, delta)),
                ),
                POS_LIM as int,
            ),
            ..c
        }
    }
}

pub open spec fn move_up_s(c: Camera, delta: int) -> Camera {
    if !c.free_camera {
        c
    } else {
        Camera {
            velocity: v3_clamp_s(
                v3_add_s(c.velocity, v3_scale_s(c.up, fx_mul_s(c.movement_speed as int, delta))),
                POS_LIM as int,
            ),
            ..c
        }
    }
}

pub open spec fn move_down_s(c: Camera, delta: int) -> Camera {
    if !c.free_camera {
        c
    } else {
        Camera {
            velocity: v3_clamp_s(
                v3_sub_s(c.velocity, v3_scale_s(c.up, fx_mul_s(c.movement_speed as int, delta))),
                POS_LIM as int,
            ),
            ..c
        }
    }
}

pub open spec fn rotate_s(c: Camera, delta_x: int, delta_y: int) -> Camera {
    if !c.free_camera {
        c
    } else {
        let f = v3_norm_s(v3_sub_s(c.target, c.position));
        let nfh = rotate_vec3_s(f, fx_mul_s(delta_x, c.rotation_speed as int), c.up);
        let right = v3_norm_s(v3_cross_s(nfh, c.up));
        let nf = rotate_vec3_s(nfh, fx_mul_s(delta_y, c.rotation_speed as int), right);
        Camera {
            target: v3_clamp_s(
                v3_add_s(c.position, v3_scale_s(nf, 100_000)),
                POS_LIM as int,
            ),
            ..c
        }
    }
}

pub open spec fn camera_update_s(c: Camera, delta_time: int) -> Camera {
    if !c.free_camera {
        c
    } else {
        let step = v3_scale_s(c.velocity, delta_time);
        Camera {
            position: v3_clamp_s(v3_add_s(c.position, step), POS_LIM as int),
            target: v3_clamp_s(v3_add_s(c.target, step), POS_LIM as int),
            velocity: v3_scale_s(c.velocity, 900),
            ..c
        }
    }
}

pub open spec fn collides_s(pos: Vec3, body: Vec3, scale: i64) -> bool {
    crate::vec::v3_len_s(v3_sub_s(pos, body)) < fx_mul_s(scale as int, 15000)
}

/// Index of the first colliding obstacle at or after `i`, or -1.
pub open spec fn first_hit_s(pos: Vec3, bodies: Seq<Vec3>, scales: Seq<i64>, i: int) -> int
    decreases bodies.len() - i,
{
    if i < 0 || i >= bodies.len() {
        -1
    } else if collides_s(pos, bodies[i], scales[i]) {
        i
    } else {
        first_hit_s(pos, bodies, scales, i + 1)
    }
}

/// Push the camera radially out to the obstacle's safety radius; in free
/// mode the target is re-anchored further along the push direction.
pub open spec fn resolve_collision_s(c: Camera, body: Vec3, scale: i64) -> Camera {
    let dir = v3_norm_s(v3_sub_s(c.position, body));
    let radius = fx_mul_s(scale as int, 15000);
    let newpos = v3_clamp_s(v3_add_s(body, v3_scale_s(dir, radius)), POS_LIM as int);
    if c.free_camera {
        Camera {
            position: newpos,
            target: v3_clamp_s(v3_add_s(newpos, v3_scale_s(dir, 100_000)), POS_LIM as int),
            ..c
        }
    } else {
        Camera { position: newpos, ..c }
    }
}

pub open spec fn warp_to_body_s(c: Camera, body: Vec3, safe_distance: i64) -> Camera {
    if c.free_camera {
        Camera {
            position: v3_clamp_s(
                v3_add_s(
                    body,
                    Vec3 { x: safe_distance, y: tdiv(safe_distance as int, 2) as i64, z: 0 },
                ),
                POS_LIM as int,
            ),
            target: body,
            velocity: Vec3 { x: 0, y: 0, z: 0 },
            ..c
        }
    } else {
        update_position_s(Camera { target: body, distance: safe_distance, ..c })
    }
}

impl Camera {
    /// Accelerate along the look direction (free mode only).
    pub fn move_forward(&mut self, delta: i64)
        requires
            camera_wf(*old(self)),
            0 <= delta <= DT_LIM,
        ensures
            *final(self) == move_forward_s(*old(self), delta as int),
            camera_wf(*final(self)),
    {
        if self.free_camera {
            let forward = v3_norm(v3_sub(self.target, self.position));
            proof {
                lemma_fx_mul_le(self.movement_speed as int, delta as int, 1_000_000, 1_000_000);
            }
            let factor = fx_mul(self.movement_speed, delta);
            proof {
                lemma_fx_mul_unit(factor as int, forward.x as int);
                lemma_fx_mul_unit(factor as int, forward.y as int);
                lemma_fx_mul_unit(factor as int, forward.z as int);
            }
            self.velocity = v3_clamp(
                v3_add(self.velocity, v3_scale(forward, factor)),
                POS_LIM,
            );
        }
    }

    /// Accelerate against the look direction (free mode only).
    pub fn move_backward(&mut self, delta: i64)
        requires
            camera_wf(*old(self)),
            0 <= delta <= DT_LIM,
        ensures
            *final(self) == move_backward_s(*old(self), delta as int),
            camera_wf(*final(self)),
    {
        if self.free_camera {
            let forward = v3_norm(v3_sub(self.target, self.position));
            proof {
                lemma_fx_mul_le(self.movement_speed as int, delta as int, 1_000_000, 1_000_000);
            }
            let factor = fx_mul(self.movement_speed, delta);
            proof {
                lemma_fx_mul_unit(factor as int, forward.x as int);
                lemma_fx_mul_unit(factor as int, forward.y as int);
                lemma_fx_mul_unit(factor as int, forward.z as int);
            }
            self.velocity = v3_clamp(
                v3_sub(self.velocity, v3_scale(forward, factor)),
                POS_LIM,
            );
        }
    }

    fn side_dir(&self) -> (r: Vec3)
        requires
            camera_wf(*self),
        ensures
            r == side_dir_s(*self),
            v3_bounded(r, 1000),
    {
        let forward = v3_norm(v3_sub(self.target, self.position));
        let fu = v3_cross(forward, self.up);
        proof {
            lemma_v3_cross_s_bound(forward, self.up, 1000, 1000);
        }
        v3_norm(fu)
    }

    /// Accelerate to the left of the look direction (free mode only).
    pub fn move_left(&mut self, delta: i64)
        requires
            camera_wf(*old(self)),
            0 <= delta <= DT_LIM,
        ensures
            *final(self) == move_left_s(*old(self), delta as int),
            camera_wf(*final(self)),
    {
        if self.free_camera {
            let right = self.side_dir();
            proof {
                lemma_fx_mul_le(self.movement_speed as int, delta as int, 1_000_000, 1_000_000);
            }
            let factor = fx_mul(self.movement_speed, delta);
            proof {
                lemma_fx_mul_unit(factor as int, right.x as int);
                lemma_fx_mul_unit(factor as int, right.y as int);
                lemma_fx_mul_unit(factor as int, right.z as int);
            }
            self.velocity = v3_clamp(v3_sub(self.velocity, v3_scale(right, factor)), POS_LIM);
        }
    }

    /// Accelerate to the right of the look direction (free mode only).
    pub fn move_right(&mut self, delta: i64)
        requires
            camera_wf(*old(self)),
            0 <= delta <= DT_LIM,
        ensures
            *final(self) == move_right_s(*old(self), delta as int),
            camera_wf(*final(self)),
    {
        if self.free_camera {
            let right = self.side_dir();
            proof {
                lemma_fx_mul_le(self.movement_speed as int, delta as int, 1_000_000, 1_000_000);
            }
            let factor = fx_mul(self.movement_speed, delta);
            proof {
                lemma_fx_mul_unit(factor as int, right.x as int);
                lemma_fx_mul_unit(factor as int, right.y as int);
                lemma_fx_mul_unit(factor as int, right.z as int);
            }
            self.velocity = v3_clamp(v3_add(self.velocity, v3_scale(right, factor)), POS_LIM);
        }
    }

    /// Accelerate along world up (free mode only).
    pub fn move_up(&mut self, delta: i64)
        requires
            camera_wf(*old(self)),
            0 <= delta <= DT_LIM,
        ensures
            *final(self) == move_up_s(*old(self), delta as int),
            camera_wf(*final(self)),
    {
        if self.free_camera {
            proof {
                lemma_fx_mul_le(self.movement_speed as int, delta as int, 1_000_000, 1_000_000);
            }
            let factor = fx_mul(self.movement_speed, delta);
            proof {
                lemma_fx_mul_unit(factor as int, self.up.x as int);
                lemma_fx_mul_unit(factor as int, self.up.y as int);
                lemma_fx_mul_unit(factor as int, self.up.z as int);
            }
            self.velocity = v3_clamp(v3_add(self.velocity, v3_scale(self.up, factor)), POS_LIM);
        }
    }

    /// Accelerate against world up (free mode only).
    pub fn move_down(&mut self, delta: i64)
        requires
            camera_wf(*old(self)),
            0 <= delta <= DT_LIM,
        ensures
            *final(self) == move_down_s(*old(self), delta as int),
            camera_wf(*final(self)),
    {
        if self.free_camera {
            proof {
                lemma_fx_mul_le(self.movement_speed as int, delta as int, 1_000_000, 1_000_000);
            }
            let factor = fx_mul(self.movement_speed, delta);
            proof {
                lemma_fx_mul_unit(factor as int, self.up.x as int);
                lemma_fx_mul_unit(factor as int, self.up.y as int);
                lemma_fx_mul_unit(factor as int, self.up.z as int);
            }
            self.velocity = v3_clamp(v3_sub(self.velocity, v3_scale(self.up, factor)), POS_LIM);
        }
    }

    /// Turn the free camera: a horizontal rotation about world up, then a
    /// vertical rotation about the resulting right axis; the target is
    /// re-anchored along the new look direction.
    pub fn rotate(&mut self, delta_x: i64, delta_y: i64)
        requires
            camera_wf(*old(self)),
            -1_000_000_000 <= delta_x <= 1_000_000_000,
            -1_000_000_000 <= delta_y <= 1_000_000_000,
        ensures
            *final(self) == rotate_s(*old(self), delta_x as int, delta_y as int),
            camera_wf(*final(self)),
    {
        if self.free_camera {
            let forward = v3_norm(v3_sub(self.target, self.position));
            let a1 = fx_mul(delta_x, self.rotation_speed);
            let new_forward_h = rotate_vec3(forward, a1, self.up);
            let fu = v3_cross(new_forward_h, self.up);
            proof {
                lemma_v3_cross_s_bound(new_forward_h, self.up, 1_000_000, 1000);
            }
            let right = v3_norm(fu);
            let a2 = fx_mul(delta_y, self.rotation_speed);
            let new_forward = rotate_vec3(new_forward_h, a2, right);
            proof {
                lemma_fx_mul_le(new_forward.x as int, 100_000, 1_000_000, 100_000);
                lemma_fx_mul_le(new_forward.y as int, 100_000, 1_000_000, 100_000);
                lemma_fx_mul_le(new_forward.z as int, 100_000, 1_000_000, 100_000);
            }
            self.target = v3_clamp(
                v3_add(self.position, v3_scale(new_forward, 100_000)),
                POS_LIM,
            );
        }
    }

    /// Integrate the velocity over the step and damp it, producing the
    /// exponential glide toward rest (free mode only).
    pub fn update(&mut self, delta_time: i64)
        requires
            camera_wf(*old(self)),
            0 <= delta_time <= DT_LIM,
        ensures
            *final(self) == camera_update_s(*old(self), delta_time as int),
            camera_wf(*final(self)),
    {
        if self.free_camera {
            proof {
                lemma_fx_mul_unit(self.velocity.x as int, 900);
                lemma_fx_mul_unit(self.velocity.y as int, 900);
                lemma_fx_mul_unit(self.velocity.z as int, 900);
                lemma_fx_mul_le(self.velocity.x as int, delta_time as int, 1_000_000_000, 1_000_000);
                lemma_fx_mul_le(self.velocity.y as int, delta_time as int, 1_000_000_000, 1_000_000);
                lemma_fx_mul_le(self.velocity.z as int, delta_time as int, 1_000_000_000, 1_000_000);
            }
            let step = v3_scale(self.velocity, delta_time);
            self.position = v3_clamp(v3_add(self.position, step), POS_LIM);
            self.target = v3_clamp(v3_add(self.target, step), POS_LIM);
            self.velocity = v3_scale(self.velocity, 900);
        }
    }

    /// Resolve the first obstacle the camera sits inside of, pushing it out
    /// to the safety radius; reports whether any obstacle fired.
    pub fn check_collision(&mut self, body_positions: &Vec<Vec3>, body_scales: &Vec<i64>) -> (hit:
        bool)
        requires
            camera_wf(*old(self)),
            body_positions@.len() == body_scales@.len(),
            forall|i: int|
                0 <= i < body_positions@.len() ==> v3_bounded(
                    #[trigger] body_positions@[i],
                    POS_LIM as int,
                ),
            forall|i: int|
                0 <= i < body_scales@.len() ==> 0 <= #[trigger] body_scales@[i] <= 100_000_000,
        ensures
            camera_wf(*final(self)),
            ({
                let h = first_hit_s(old(self).position, body_positions@, body_scales@, 0);
                if h == -1 {
                    *final(self) == *old(self) && !hit
                } else {
                    hit && *final(self) == resolve_collision_s(
                        *old(self),
                        body_positions@[h],
                        body_scales@[h],
                    )
                }
            }),
    {
        let n = body_positions.len();
        let mut i: usize = 0;
        while i < n
            invariant
                camera_wf(*self),
                *self == *old(self),
                n == body_positions@.len(),
                body_positions@.len() == body_scales@.len(),
                0 <= i <= n,
                forall|k: int|
                    0 <= k < body_positions@.len() ==> v3_bounded(
                        #[trigger] body_positions@[k],
                        POS_LIM as int,
                    ),
                forall|k: int|
                    0 <= k < body_scales@.len() ==> 0 <= #[trigger] body_scales@[k] <= 100_000_000,
                first_hit_s(self.position, body_positions@, body_scales@, 0) == first_hit_s(
                    self.position,
                    body_positions@,
                    body_scales@,
                    i as int,
                ),
            decreases n - i,
        {
            let body_pos = body_positions[i];
            let diff = v3_sub(self.position, body_pos);
            let distance_to_body = v3_len(diff);
            proof {
                lemma_fx_mul_le(body_scales@[i as int] as int, 15000, 100_000_000, 15000);
            }
            let collision_radius = fx_mul(body_scales[i], 15000);
            if distance_to_body < collision_radius {
                let direction = v3_norm(diff);
                proof {
                    lemma_fx_mul_unit(collision_radius as int, direction.x as int);
                    lemma_fx_mul_unit(collision_radius as int, direction.y as int);
                    lemma_fx_mul_unit(collision_radius as int, direction.z as int);
                    lemma_fx_mul_unit(100_000, direction.x as int);
                    lemma_fx_mul_unit(100_000, direction.y as int);
                    lemma_fx_mul_unit(100_000, direction.z as int);
                }
                let newpos = v3_clamp(
                    v3_add(body_pos, v3_scale(direction, collision_radius)),
                    POS_LIM,
                );
                self.position = newpos;
                if self.free_camera {
                    self.target = v3_clamp(
                        v3_add(newpos, v3_scale(direction, 100_000)),
                        POS_LIM,
                    );
                }
                return true;
            }
            i = i + 1;
        }
        false
    }

    /// Teleport near a body: in free mode the camera lands offset from the
    /// body looking at it with velocity zeroed; in orbital mode the body
    /// becomes the target at the given distance.
    pub fn warp_to_body(&mut self, body_position: Vec3, safe_distance: i64)
        requires
            camera_wf(*old(self)),
            v3_bounded(body_position, POS_LIM as int),
            0 <= safe_distance <= DIST_LIM,
        ensures
            *final(self) == warp_to_body_s(*old(self), body_position, safe_distance),
            camera_wf(*final(self)),
    {
        if self.free_camera {
            let offset = Vec3 { x: safe_distance, y: safe_distance / 2, z: 0 };
            self.position = v3_clamp(v3_add(body_position, offset), POS_LIM);
            self.target = body_position;
            self.velocity = Vec3 { x: 0, y: 0, z: 0 };
        } else {
            self.target = body_position;
            self.distance = safe_distance;
            self.update_position();
        }
    }
}

} // verus!
