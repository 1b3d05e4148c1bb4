use solar_render::camera::{look_at_matrix, Camera, MAX_DISTANCE, MIN_DISTANCE, PHI_MAX, PHI_MIN};
use solar_render::mat::mv4;
use solar_render::vec::{Vec3, Vec4};
use solar_render::input::{handle_enhanced_camera_input, InputState};
use solar_render::scene::WarpTarget;
use solar_render::fixed::{fx_cos, fx_sin};
use solar_render::scene::Spaceship;
use solar_render::scene::CelestialBody;
use solar_render::uniforms::ShaderType;

fn v3(x: i64, y: i64, z: i64) -> Vec3 {
    Vec3 { x, y, z }
}

#[test]
fn orbit_clamps_elevation_for_adversarial_deltas() {
    let mut camera = Camera::new(v3(0, 0, 0), 600_000);
    camera.orbit(0, 1_000_000);
    assert_eq!(camera.phi, PHI_MAX);
    camera.orbit(0, -1_000_000_000_000);
    assert_eq!(camera.phi, PHI_MIN);
    camera.orbit(0, 50);
    assert!(PHI_MIN <= camera.phi && camera.phi <= PHI_MAX);
}

#[test]
fn orbit_wraps_azimuth() {
    let mut camera = Camera::new(v3(0, 0, 0), 600_000);
    camera.orbit(6283 + 100, 0);
    assert_eq!(camera.theta, 100);
    camera.orbit(-200, 0);
    assert_eq!(camera.theta, 6283 - 100);
}

#[test]
fn zoom_clamps_distance() {
    let mut camera = Camera::new(v3(0, 0, 0), 600_000);
    camera.zoom(1_000_000_000_000);
    assert_eq!(camera.distance, MAX_DISTANCE);
    camera.zoom(-1_000_000_000_000);
    assert_eq!(camera.distance, MIN_DISTANCE);
}

#[test]
fn zoom_repeated_deltas_stay_in_range() {
    let mut camera = Camera::new(v3(0, 0, 0), 600_000);
    for _ in 0..100 {
        camera.zoom(500_000);
        assert!(MIN_DISTANCE <= camera.distance && camera.distance <= MAX_DISTANCE);
    }
    for _ in 0..100 {
        camera.zoom(-700_000);
        assert!(MIN_DISTANCE <= camera.distance && camera.distance <= MAX_DISTANCE);
    }
}

#[test]
fn view_matrix_maps_eye_to_origin() {
    let camera = Camera::new(v3(400_000, 300_000, 0), 600_000);
    let m = camera.look_at();
    let eye = Vec4 { x: camera.position.x, y: camera.position.y, z: camera.position.z, w: 1000 };
    let mapped = mv4(&m, eye);
    assert_eq!(mapped.x, 0);
    assert_eq!(mapped.y, 0);
    assert_eq!(mapped.z, 0);
    assert_eq!(mapped.w, 1000);
}

#[test]
fn look_at_matrix_maps_arbitrary_eye_to_origin() {
    let eye = v3(123_456, -77_000, 250_000);
    let at = v3(0, 0, 0);
    let up = v3(0, 1000, 0);
    let m = look_at_matrix(eye, at, up);
    let mapped = mv4(&m, Vec4 { x: eye.x, y: eye.y, z: eye.z, w: 1000 });
    assert_eq!((mapped.x, mapped.y, mapped.z, mapped.w), (0, 0, 0, 1000));
}

#[test]
fn toggle_free_mode_twice_restores_flag() {
    let mut camera = Camera::new(v3(0, 0, 0), 600_000);
    let original = camera.free_camera;
    camera.toggle_free_camera();
    assert_eq!(camera.free_camera, !original);
    camera.toggle_free_camera();
    assert_eq!(camera.free_camera, original);
    // The flag is restored, but the target keeps the re-anchored value it
    // was given on entering free mode.
    assert_eq!(camera.target, v3(500_000, 0, 0));
}

#[test]
fn toggle_enters_free_mode_reanchors_target() {
    let mut camera = Camera::new(v3(0, 0, 0), 600_000);
    camera.toggle_free_camera();
    assert!(camera.free_camera);
    // The camera sits at (600, 0, 0) looking back at the origin; the new
    // target lies one hundred units along that look direction.
    assert_eq!(camera.target, v3(600_000 - 100_000, 0, 0));
}

#[test]
fn camera_new_places_orbital_position() {
    let camera = Camera::new(v3(0, 0, 0), 600_000);
    // phi at the horizon and theta zero put the camera on the positive x
    // axis at the full distance.
    assert_eq!(camera.position, v3(600_000, 0, 0));
    assert_eq!(camera.phi, 1571);
    assert_eq!(camera.theta, 0);
    assert!(!camera.free_camera);
}

#[test]
fn warp_orbital_sets_target_and_distance() {
    let mut camera = Camera::new(v3(0, 0, 0), 600_000);
    camera.warp_to_body(v3(100_000, 0, 0), 150_000);
    assert_eq!(camera.target, v3(100_000, 0, 0));
    assert_eq!(camera.distance, 150_000);
    assert_eq!(camera.position, v3(100_000 + 150_000, 0, 0));
}

#[test]
fn warp_free_mode_offsets_position_and_zeroes_velocity() {
    let mut camera = Camera::new(v3(0, 0, 0), 600_000);
    camera.toggle_free_camera();
    camera.move_forward(16);
    camera.warp_to_body(v3(0, 0, 0), 100_000);
    assert_eq!(camera.position, v3(100_000, 50_000, 0));
    assert_eq!(camera.target, v3(0, 0, 0));
    assert_eq!(camera.velocity, v3(0, 0, 0));
}

#[test]
fn collision_pushes_camera_out() {
    let mut camera = Camera::new(v3(0, 0, 0), 600_000);
    // Place an obstacle centered on the camera's own position: the camera
    // must be pushed out to scale times fifteen.
    let bodies = vec![v3(500_000, 0, 0)];
    let scales = vec![100_000i64];
    let hit = camera.check_collision(&bodies, &scales);
    assert!(hit);
    // Push direction is from the body toward the old position, along +x.
    let radius = 100_000 * 15;
    assert_eq!(camera.position, v3(500_000 + radius, 0, 0));
}

#[test]
fn collision_misses_distant_bodies() {
    let mut camera = Camera::new(v3(0, 0, 0), 600_000);
    let before = camera.position;
    let bodies = vec![v3(-900_000, 0, 0)];
    let scales = vec![1_000i64];
    let hit = camera.check_collision(&bodies, &scales);
    assert!(!hit);
    assert_eq!(camera.position, before);
}

#[test]
fn update_integrates_and_damps_velocity() {
    let mut camera = Camera::new(v3(0, 0, 0), 600_000);
    camera.toggle_free_camera();
    camera.velocity = v3(1000, 0, 0);
    let pos_before = camera.position;
    camera.update(1000);
    assert_eq!(camera.position.x, pos_before.x + 1000);
    assert_eq!(camera.velocity, v3(900, 0, 0));
    camera.update(1000);
    assert_eq!(camera.velocity, v3(810, 0, 0));
}

#[test]
fn movement_is_no_op_in_orbital_mode() {
    let mut camera = Camera::new(v3(0, 0, 0), 600_000);
    let before = camera.velocity;
    camera.move_forward(16);
    camera.move_left(16);
    camera.move_up(16);
    assert_eq!(camera.velocity, before);
}

#[test]
fn orbit_is_no_op_in_free_mode() {
    let mut camera = Camera::new(v3(0, 0, 0), 600_000);
    camera.toggle_free_camera();
    let phi = camera.phi;
    let theta = camera.theta;
    let dist = camera.distance;
    camera.orbit(100, 100);
    camera.zoom(100_000);
    assert_eq!(camera.phi, phi);
    assert_eq!(camera.theta, theta);
    assert_eq!(camera.distance, dist);
}

#[test]
fn move_forward_accumulates_velocity_in_free_mode() {
    let mut camera = Camera::new(v3(0, 0, 0), 600_000);
    camera.toggle_free_camera();
    camera.move_forward(16);
    // The camera looks along negative x, so forward velocity points that
    // way; movement speed 50 over sixteen milliseconds gives 0.8.
    assert_eq!(camera.velocity, v3(-800, 0, 0));
}

#[test]
fn input_with_no_keys_changes_nothing() {
    let mut camera = Camera::new(v3(0, 0, 0), 600_000);
    let before = camera;
    let input = InputState::default();
    let targets = vec![WarpTarget { name: String::from("Sun"), position: v3(0, 0, 0), distance: 150_000 }];
    let mut last_warp: i64 = 0;
    let mut anim: i64 = 0;
    handle_enhanced_camera_input(&input, &mut camera, &targets, &mut last_warp, &mut anim, 5000);
    assert_eq!(camera, before);
    assert_eq!(last_warp, 0);
    assert_eq!(anim, 0);
}

#[test]
fn input_warp_respects_cooldown() {
    let mut camera = Camera::new(v3(0, 0, 0), 600_000);
    let mut input = InputState::default();
    input.warp_home = true;
    let targets = vec![WarpTarget { name: String::from("Sun"), position: v3(9000, 0, 0), distance: 150_000 }];
    let mut last_warp: i64 = 4500;
    let mut anim: i64 = 0;
    // Only half a second since the last warp: nothing happens.
    handle_enhanced_camera_input(&input, &mut camera, &targets, &mut last_warp, &mut anim, 5000);
    assert_eq!(last_warp, 4500);
    // Well past the cooldown: the warp fires and records its time.
    handle_enhanced_camera_input(&input, &mut camera, &targets, &mut last_warp, &mut anim, 6000);
    assert_eq!(last_warp, 6000);
    assert_eq!(anim, 1000);
    assert_eq!(camera.target, v3(9000, 0, 0));
}

#[test]
fn fixed_trig_anchor_values() {
    assert_eq!(fx_sin(0), 0);
    assert_eq!(fx_sin(1571), 1000);
    assert_eq!(fx_sin(3142), 0);
    assert_eq!(fx_cos(0), 1000);
    assert_eq!(fx_cos(1571), 0);
    // Sine is periodic in the wrapped angle.
    assert_eq!(fx_sin(1571 + 6283), fx_sin(1571));
    // The third quarter turn is negative.
    assert!(fx_sin(4713) < -900);
}

#[test]
fn spaceship_follows_camera() {
    let camera = Camera::new(v3(0, 0, 0), 600_000);
    let mut ship = Spaceship::new(Vec::new());
    ship.update_position(&camera);
    // The camera looks along negative x; the ship sits fifteen units
    // ahead, three below, two to the side.
    assert_eq!(ship.position.x, 600_000 - 15_000);
    assert_eq!(ship.scale, 3000);
}

#[test]
fn celestial_body_orbits_its_center() {
    let mut body = CelestialBody::new_planet(
        String::from("Mercury"),
        Vec::new(),
        v3(0, 0, 0),
        150_000,
        800,
        4_000,
        0x8C7853,
        ShaderType::RockyPlanet,
    );
    body.update(0, &Vec::new());
    // Angle stays zero: the body sits on the positive x axis of its orbit.
    assert_eq!(body.position, v3(150_000, 0, 0));
    body.update(1000, &Vec::new());
    // One second at speed 0.8 advances the angle to 0.8 radians.
    assert_eq!(body.orbital_angle, 800);
}
