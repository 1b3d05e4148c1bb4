//! Turning one frame's key state into camera actions: movement and
//! rotation in free mode, orbit and zoom in orbital mode, and the warp
//! system with its cooldown. The window layer polls the keys and hands
//! this function a plain snapshot.

use crate::camera::{camera_wf, Camera};
use crate::scene::{warp_target_wf, WarpTarget};
use vstd::prelude::*;

verus! {

/// One frame's worth of pressed keys.
#[derive(Clone, Copy, PartialEq, Eq, Structural, Debug, Default)]
pub struct InputState {
    pub toggle_mode: bool,
    pub forward: bool,
    pub backward: bool,
    pub left: bool,
    pub right: bool,
    pub ascend: bool,
    pub descend: bool,
    pub turn_left: bool,
    pub turn_right: bool,
    pub turn_up: bool,
    pub turn_down: bool,
    pub warp_home: bool,
    pub warp_1: bool,
    pub warp_2: bool,
    pub warp_3: bool,
    pub warp_4: bool,
    pub warp_5: bool,
}

pub open spec fn no_input_s(input: InputState) -> bool {
    input == (InputState {
        toggle_mode: false,
        forward: false,
        backward: false,
        left: false,
        right: false,
        ascend: false,
        descend: false,
        turn_left: false,
        turn_right: false,
        turn_up: false,
        turn_down: false,
        warp_home: false,
        warp_1: false,
        warp_2: false,
        warp_3: false,
        warp_4: false,
        warp_5: false,
    })
}

/// The linear part of free-mode movement.
fn free_camera_translation(input: &InputState, camera: &mut Camera)
    requires
        camera_wf(*old(camera)),
    ensures
        camera_wf(*final(camera)),
        final(camera).free_camera == old(camera).free_camera,
        (!input.forward && !input.backward && !input.left && !input.right && !input.ascend
            && !input.descend) ==> *final(camera) == *old(camera),
{
    if input.forward {
        camera.move_forward(16);
    }
    if input.backward {
        camera.move_backward(16);
    }
    if input.left {
        camera.move_left(16);
    }
    if input.right {
        camera.move_right(16);
    }
    if input.ascend {
        camera.move_up(16);
    }
    if input.descend {
        camera.move_down(16);
    }
}

/// The turning part of free-mode movement.
fn free_camera_rotation(input: &InputState, camera: &mut Camera)
    requires
        camera_wf(*old(camera)),
    ensures
        camera_wf(*final(camera)),
        final(camera).free_camera == old(camera).free_camera,
        (!input.turn_left && !input.turn_right && !input.turn_up && !input.turn_down)
            ==> *final(camera) == *old(camera),
{
    if input.turn_left {
        camera.rotate(-2000, 0);
    }
    if input.turn_right {
        camera.rotate(2000, 0);
    }
    if input.turn_up {
        camera.rotate(0, -2000);
    }
    if input.turn_down {
        camera.rotate(0, 2000);
    }
}

/// Free-mode movement and rotation for one frame of input.
fn free_camera_motion(input: &InputState, camera: &mut Camera)
    requires
        camera_wf(*old(camera)),
    ensures
        camera_wf(*final(camera)),
        final(camera).free_camera == old(camera).free_camera,
        (!input.forward && !input.backward && !input.left && !input.right && !input.ascend
            && !input.descend && !input.turn_left && !input.turn_right && !input.turn_up
            && !input.turn_down) ==> *final(camera) == *old(camera),
{
    free_camera_translation(input, camera);
    free_camera_rotation(input, camera);
}

/// Orbital-mode swivel and zoom for one frame of input.
fn orbital_camera_motion(input: &InputState, camera: &mut Camera)
    requires
        camera_wf(*old(camera)),
    ensures
        camera_wf(*final(camera)),
        final(camera).free_camera == old(camera).free_camera,
        (!input.forward && !input.backward && !input.turn_left && !input.turn_right
            && !input.turn_up && !input.turn_down) ==> *final(camera) == *old(camera),
{
    if input.turn_right {
        camera.orbit(63, 0);
    }
    if input.turn_left {
        camera.orbit(-63, 0);
    }
    if input.turn_up {
        camera.orbit(0, -63);
    }
    if input.turn_down {
        camera.orbit(0, 63);
    }
    if input.forward {
        camera.zoom(-20000);
    }
    if input.backward {
        camera.zoom(20000);
    }
}

/// The warp system: if the cooldown has elapsed, jump to the selected
/// target, record the warp time and start the warp animation.
fn warp_actions(
    input: &InputState,
    camera: &mut Camera,
    warp_targets: &Vec<WarpTarget>,
    last_warp_time: &mut i64,
    current_warp_animation: &mut i64,
    time: i64,
)
    requires
        camera_wf(*old(camera)),
        warp_targets@.len() >= 1,
        forall|i: int| 0 <= i < warp_targets@.len() ==> warp_target_wf(#[trigger] warp_targets@[i]),
        0 <= time <= 1_000_000_000_000,
        0 <= *old(last_warp_time) <= 1_000_000_000_000,
    ensures
        camera_wf(*final(camera)),
        final(camera).free_camera == old(camera).free_camera,
        0 <= *final(last_warp_time) <= 1_000_000_000_000,
        *final(last_warp_time) == *old(last_warp_time) || *final(last_warp_time) == time,
        (!input.warp_home && !input.warp_1 && !input.warp_2 && !input.warp_3 && !input.warp_4
            && !input.warp_5) ==> *final(camera) == *old(camera) && *final(last_warp_time) == *old(
            last_warp_time,
        ) && *final(current_warp_animation) == *old(current_warp_animation),
{
    let warp_cooldown: i64 = 1000;
    if time - *last_warp_time > warp_cooldown {
        if input.warp_1 && warp_targets.len() > 1 {
            let target = &warp_targets[1];
            camera.warp_to_body(target.position, target.distance);
            *last_warp_time = time;
            *current_warp_animation = 1000;
        }
        if input.warp_2 && warp_targets.len() > 2 {
            let target = &warp_targets[2];
            camera.warp_to_body(target.position, target.distance);
            *last_warp_time = time;
            *current_warp_animation = 1000;
        }
        if input.warp_3 && warp_targets.len() > 3 {
            let target = &warp_targets[3];
            camera.warp_to_body(target.position, target.distance);
            *last_warp_time = time;
            *current_warp_animation = 1000;
        }
        if input.warp_4 && warp_targets.len() > 4 {
            let target = &warp_targets[4];
            camera.warp_to_body(target.position, target.distance);
            *last_warp_time = time;
            *current_warp_animation = 1000;
        }
        if input.warp_5 && warp_targets.len() > 5 {
            let target = &warp_targets[5];
            camera.warp_to_body(target.position, target.distance);
            *last_warp_time = time;
            *current_warp_animation = 1000;
        }
        if input.warp_home {
            let target = &warp_targets[0];
            camera.warp_to_body(target.position, target.distance);
            *last_warp_time = time;
            *current_warp_animation = 1000;
        }
    }
}

/// Apply one frame of input to the camera: a mode toggle, then the
/// movement set of the active mode, then at most one warp if the cooldown
/// of one second has elapsed.
pub fn handle_enhanced_camera_input(
    input: &InputState,
    camera: &mut Camera,
    warp_targets: &Vec<WarpTarget>,
    last_warp_time: &mut i64,
    current_warp_animation: &mut i64,
    time: i64,
)
    requires
        camera_wf(*old(camera)),
        warp_targets@.len() >= 1,
        forall|i: int| 0 <= i < warp_targets@.len() ==> warp_target_wf(#[trigger] warp_targets@[i]),
        0 <= time <= 1_000_000_000_000,
        0 <= *old(last_warp_time) <= 1_000_000_000_000,
    ensures
        camera_wf(*final(camera)),
        final(camera).free_camera == (old(camera).free_camera != input.toggle_mode),
        0 <= *final(last_warp_time) <= 1_000_000_000_000,
        *final(last_warp_time) == *old(last_warp_time) || *final(last_warp_time) == time,
        no_input_s(*input) ==> *final(camera) == *old(camera) && *final(last_warp_time) == *old(
            last_warp_time,
        ) && *final(current_warp_animation) == *old(current_warp_animation),
{
    if input.toggle_mode {
        camera.toggle_free_camera();
    }
    if camera.free_camera {
        free_camera_motion(input, camera);
    } else {
        orbital_camera_motion(input, camera);
    }
    warp_actions(input, camera, warp_targets, last_warp_time, current_warp_animation, time);
}

} // verus!
