use solar_render::color::Color;
use solar_render::fragment::Fragment;
use solar_render::framebuffer::Framebuffer;
use solar_render::shaders::{
    calculate_lighting, fragment_shader, gas_giant_shader, orbit_shader, rocky_planet_shader,
    skybox_shader, spaceship_shader, star_shader, vertex_shader,
};
use solar_render::triangle::{
    barycentric_coordinates, calculate_bounding_box, edge_function, triangle,
    triangle_with_uniforms,
};
use solar_render::uniforms::{
    create_projection_matrix, create_viewport_matrix, ShaderType, Uniforms,
};
use solar_render::vec::{Vec2, Vec3};
use solar_render::vertex::Vertex;
use solar_render::skybox::Skybox;
use solar_render::scene::create_orbital_path;
use solar_render::render::render;

fn v3(x: i64, y: i64, z: i64) -> Vec3 {
    Vec3 { x, y, z }
}

fn screen_vertex(px: i64, py: i64, depth: i64) -> Vertex {
    Vertex {
        position: v3(0, 0, 0),
        normal: v3(0, 0, 1000),
        tex_coords: Vec2 { x: 0, y: 0 },
        color: Color { r: 200, g: 100, b: 50 },
        transformed_position: v3(px * 1000, py * 1000, depth),
        transformed_normal: v3(0, 0, 1000),
    }
}

/// The closed interior test on raw edge values, as the rasterizer states it.
fn inside_closed(a: Vec3, b: Vec3, c: Vec3, px: i64, py: i64) -> bool {
    let p = v3(px * 1000 + 500, py * 1000 + 500, 0);
    let area = edge_function(&a, &b, &c);
    if area == 0 {
        return false;
    }
    let e1 = edge_function(&b, &c, &p);
    let e2 = edge_function(&c, &a, &p);
    let e3 = edge_function(&a, &b, &p);
    if area > 0 {
        0 <= e1 && e1 <= area && 0 <= e2 && e2 <= area && 0 <= e3 && e3 <= area
    } else {
        area <= e1 && e1 <= 0 && area <= e2 && e2 <= 0 && area <= e3 && e3 <= 0
    }
}

#[test]
fn raster_small_triangle_exact_fragments() {
    let v1 = screen_vertex(0, 0, 5000);
    let v2 = screen_vertex(10, 0, 5000);
    let v3v = screen_vertex(0, 10, 5000);
    let fragments = triangle(&v1, &v2, &v3v);
    let a = v1.transformed_position;
    let b = v2.transformed_position;
    let c = v3v.transformed_position;
    // Every emitted fragment passes the interior test, and every interior
    // pixel center in the box is emitted exactly once.
    let mut expected: usize = 0;
    for py in -2i64..=12 {
        for px in -2i64..=12 {
            let ins = inside_closed(a, b, c, px, py);
            let count = fragments.iter().filter(|f| f.x == px && f.y == py).count();
            if ins {
                assert_eq!(count, 1);
                expected += 1;
            } else {
                assert_eq!(count, 0);
            }
        }
    }
    assert_eq!(fragments.len(), expected);
    // The right triangle with legs of ten pixels covers the fifty-five
    // pixel centers with non-negative coordinates summing to at most nine.
    assert_eq!(fragments.len(), 55);
}

#[test]
fn raster_barycentric_weights_partition_area() {
    let v1 = screen_vertex(0, 0, 5000);
    let v2 = screen_vertex(10, 0, 5000);
    let v3v = screen_vertex(0, 10, 5000);
    let a = v1.transformed_position;
    let b = v2.transformed_position;
    let c = v3v.transformed_position;
    let area = edge_function(&a, &b, &c);
    let fragments = triangle(&v1, &v2, &v3v);
    for f in fragments.iter() {
        let p = v3(f.x * 1000 + 500, f.y * 1000 + 500, 0);
        let e1 = edge_function(&b, &c, &p);
        let e2 = edge_function(&c, &a, &p);
        let e3 = edge_function(&a, &b, &p);
        // The unnormalized weights partition the area exactly.
        assert_eq!(e1 + e2 + e3, area);
        // The normalized weights sum to one up to the truncation of each.
        let (w1, w2, w3) = barycentric_coordinates(&p, &a, &b, &c, area);
        let sum = w1 + w2 + w3;
        assert!(997 <= sum && sum <= 1000);
    }
}

#[test]
fn raster_size_guard_fires_above_three_hundred() {
    let v1 = screen_vertex(0, 0, 5000);
    let v2 = screen_vertex(301, 0, 5000);
    let v3v = screen_vertex(0, 301, 5000);
    let fragments = triangle(&v1, &v2, &v3v);
    assert_eq!(fragments.len(), 0);
}

#[test]
fn raster_normal_count_below_three_hundred() {
    let v1 = screen_vertex(0, 0, 5000);
    let v2 = screen_vertex(299, 0, 5000);
    let v3v = screen_vertex(0, 299, 5000);
    let fragments = triangle(&v1, &v2, &v3v);
    // The guard does not fire and the triangle covers its usual pixels.
    let expected: usize = (1..=299).map(|k| k as usize).sum();
    assert_eq!(fragments.len(), expected);
}

#[test]
fn raster_degenerate_triangle_is_empty() {
    let v1 = screen_vertex(3, 3, 5000);
    let v2 = screen_vertex(7, 7, 5000);
    let v3v = screen_vertex(11, 11, 5000);
    let fragments = triangle(&v1, &v2, &v3v);
    assert_eq!(fragments.len(), 0);
}

#[test]
fn raster_interpolates_depth_at_vertices() {
    let mut v1 = screen_vertex(0, 0, 1000);
    let mut v2 = screen_vertex(10, 0, 2000);
    let mut v3v = screen_vertex(0, 10, 3000);
    v1.color = Color { r: 255, g: 0, b: 0 };
    v2.color = Color { r: 0, g: 255, b: 0 };
    v3v.color = Color { r: 0, g: 0, b: 255 };
    let fragments = triangle(&v1, &v2, &v3v);
    for f in fragments.iter() {
        assert!(900 <= f.depth && f.depth <= 3000);
        assert_eq!(f.intensity, 500);
    }
}

#[test]
fn depth_test_nearer_wins() {
    let mut fb = Framebuffer::new(16, 16);
    fb.set_current_color(0xAAAAAA);
    fb.point(4, 4, 5000);
    fb.set_current_color(0xBBBBBB);
    fb.point(4, 4, 3000);
    assert_eq!(fb.buffer[4 * 16 + 4], 0xBBBBBB);
}

#[test]
fn depth_test_farther_rejected() {
    let mut fb = Framebuffer::new(16, 16);
    fb.set_current_color(0xAAAAAA);
    fb.point(4, 4, 3000);
    fb.set_current_color(0xBBBBBB);
    fb.point(4, 4, 5000);
    assert_eq!(fb.buffer[4 * 16 + 4], 0xAAAAAA);
}

#[test]
fn point_out_of_bounds_is_dropped() {
    let mut fb = Framebuffer::new(8, 8);
    let before = fb.buffer.clone();
    fb.set_current_color(0xFF0000);
    fb.point(8, 0, 100);
    fb.point(0, 8, 100);
    assert_eq!(fb.buffer, before);
}

#[test]
fn framebuffer_clear_resets_pixels_and_depth() {
    let mut fb = Framebuffer::new(8, 8);
    fb.set_current_color(0x123456);
    fb.point(1, 1, 10);
    fb.set_background_color(0x000011);
    fb.clear();
    for &px in fb.buffer.iter() {
        assert_eq!(px, 0x000011);
    }
    // After the clear any depth is accepted again.
    fb.set_current_color(0x654321);
    fb.point(1, 1, i64::MAX - 1);
    assert_eq!(fb.buffer[8 + 1], 0x654321);
}

#[test]
fn shader_channels_at_origin_time_zero() {
    let origin = v3(0, 0, 0);
    let zero_normal = v3(0, 0, 0);
    let sky = skybox_shader(origin, 0);
    assert_eq!((sky.r, sky.g, sky.b), (0, 0, 30));
    let sun = star_shader(origin, 0);
    assert_eq!((sun.r, sun.g, sun.b), (255, 255, 170));
    let rocky = rocky_planet_shader(origin, zero_normal, 0);
    assert_eq!((rocky.r, rocky.g, rocky.b), (63, 54, 45));
    let gas = gas_giant_shader(origin, zero_normal, 0);
    assert_eq!((gas.r, gas.g, gas.b), (11, 8, 5));
    let ship = spaceship_shader(origin, zero_normal, 0);
    assert_eq!((ship.r, ship.g, ship.b), (25, 26, 29));
    let orbit = orbit_shader(origin, 0);
    assert_eq!((orbit.r, orbit.g, orbit.b), (0, 0, 0));
}

#[test]
fn color_hex_round_trip() {
    let c = Color::new(12, 200, 255);
    let h = c.to_hex();
    assert_eq!(h, 12 * 65536 + 200 * 256 + 255);
    let back = Color::from_hex(h);
    assert_eq!(back, c);
}

#[test]
fn fragment_shader_scales_color_by_intensity() {
    let f = Fragment::new_with_intensity(3, 4, Color::new(200, 100, 50), 7000, 500);
    let u = identity_uniforms(ShaderType::Star, false);
    let out = fragment_shader(f, &u);
    assert_eq!((out.color.r, out.color.g, out.color.b), (100, 50, 25));
    assert_eq!(out.x, 3);
    assert_eq!(out.y, 4);
    assert_eq!(out.depth, 7000);
}

#[test]
fn fragment_new_defaults_to_full_intensity() {
    let f = Fragment::new(1, 2, Color::new(9, 9, 9), 100);
    assert_eq!(f.intensity, 1000);
}

#[test]
fn edge_function_gives_signed_area() {
    let a = v3(0, 0, 0);
    let b = v3(10_000, 0, 0);
    let c = v3(0, 10_000, 0);
    // Twice the signed area in raw units; this winding is negative.
    assert_eq!(edge_function(&a, &b, &c), -100_000_000);
    assert_eq!(edge_function(&a, &c, &b), 100_000_000);
}

#[test]
fn barycentric_weights_at_vertices() {
    let a = v3(0, 0, 0);
    let b = v3(10_000, 0, 0);
    let c = v3(0, 10_000, 0);
    let area = edge_function(&a, &b, &c);
    let (w1, w2, w3) = barycentric_coordinates(&a, &a, &b, &c, area);
    assert_eq!((w1, w2, w3), (1000, 0, 0));
    let (w1, w2, w3) = barycentric_coordinates(&b, &a, &b, &c, area);
    assert_eq!((w1, w2, w3), (0, 1000, 0));
    let (w1, w2, w3) = barycentric_coordinates(&c, &a, &b, &c, area);
    assert_eq!((w1, w2, w3), (0, 0, 1000));
}

#[test]
fn bounding_box_floors_ceils_and_clamps() {
    let a = v3(1500, 2500, 0);
    let b = v3(7800, -3200, 0);
    let c = v3(4000, 4000, 0);
    let (min_x, min_y, max_x, max_y) = calculate_bounding_box(&a, &b, &c);
    assert_eq!((min_x, min_y, max_x, max_y), (1, -4, 8, 4));
    let far = v3(9_000_000, 9_000_000, 0);
    let (_, _, mx, my) = calculate_bounding_box(&far, &far, &far);
    assert_eq!((mx, my), (2000, 2000));
    let near = v3(-9_000_000, -9_000_000, 0);
    let (nx, ny, _, _) = calculate_bounding_box(&near, &near, &near);
    assert_eq!((nx, ny), (-1000, -1000));
}

fn identity_uniforms(shader_type: ShaderType, is_light_source: bool) -> Uniforms {
    let identity = solar_render::mat::mat4_identity();
    Uniforms {
        model_matrix: identity,
        view_matrix: identity,
        projection_matrix: identity,
        viewport_matrix: create_viewport_matrix(800_000, 600_000),
        light_position: v3(0, 0, 0),
        is_light_source,
        shader_type,
        time: 0,
    }
}

#[test]
fn vertex_shader_maps_origin_to_screen_center() {
    let u = identity_uniforms(ShaderType::Star, true);
    let v = Vertex {
        position: v3(0, 0, 0),
        normal: v3(0, 0, 1000),
        tex_coords: Vec2 { x: 0, y: 0 },
        color: Color { r: 0, g: 0, b: 0 },
        transformed_position: v3(0, 0, 0),
        transformed_normal: v3(0, 0, 1000),
    };
    let out = vertex_shader(&v, &u);
    // The origin projects to the middle of an 800 by 600 screen.
    assert_eq!(out.transformed_position, v3(400_000, 300_000, 0));
    // The identity model matrix leaves the normal unchanged.
    assert_eq!(out.transformed_normal, v3(0, 0, 1000));
    // Object-space attributes are carried through.
    assert_eq!(out.position, v.position);
    assert_eq!(out.normal, v.normal);
}

#[test]
fn flat_intensity_full_for_light_source() {
    let u = identity_uniforms(ShaderType::Star, true);
    let v1 = screen_vertex(0, 0, 1000);
    let v2 = screen_vertex(10, 0, 1000);
    let v3v = screen_vertex(0, 10, 1000);
    let fragments = triangle_with_uniforms(&v1, &v2, &v3v, Some(&u));
    assert!(fragments.len() > 0);
    for f in fragments.iter() {
        assert_eq!(f.intensity, 1000);
    }
}

#[test]
fn lighting_caps_intensity_at_the_light() {
    // With the light at the vertex itself the direction collapses, the
    // diffuse term vanishes, and only the ambient tenth remains.
    let c = calculate_lighting(v3(0, 0, 0), v3(0, 0, 1000), v3(0, 0, 0), Color::new(250, 100, 10));
    assert_eq!((c.r, c.g, c.b), (25, 10, 1));
}

#[test]
fn projection_matrix_shape() {
    let m = create_projection_matrix(1047, 1333, 10_000, 5_000_000);
    // The lower row carries the perspective divide.
    assert_eq!(m.m32, -1000);
    assert_eq!(m.m33, 0);
    assert_eq!(m.m01, 0);
    // The focal term is the cotangent of half the field of view.
    assert!(m.m11 > 1000 && m.m11 < 3000);
}

#[test]
fn viewport_matrix_maps_corners() {
    let m = create_viewport_matrix(800_000, 600_000);
    assert_eq!(m.m00, 400_000);
    assert_eq!(m.m03, 400_000);
    assert_eq!(m.m11, -300_000);
    assert_eq!(m.m13, 300_000);
    assert_eq!(m.m22, 1000);
}

#[test]
fn sphere_mesh_has_six_vertices_per_cell() {
    let vertices = Skybox::create_sphere_vertices(2_000_000_000 / 2, 8);
    assert_eq!(vertices.len(), 6 * 8 * 8);
}

#[test]
fn sphere_pole_vertex_points_up() {
    let vertices = Skybox::create_sphere_vertices(1_000_000, 4);
    // The first vertex of the first cell is the north pole at theta zero.
    let pole = &vertices[0];
    assert_eq!(pole.position, v3(0, 1_000_000, 0));
    assert_eq!(pole.normal, v3(0, 1000, 0));
}

#[test]
fn cube_mesh_has_thirty_six_corners() {
    let vertices = Skybox::create_cube_vertices(500_000);
    assert_eq!(vertices.len(), 36);
    for v in vertices.iter() {
        assert_eq!(v.position.x.abs(), 250_000);
        assert_eq!(v.position.y.abs(), 250_000);
        assert_eq!(v.position.z.abs(), 250_000);
    }
}

#[test]
fn orbital_path_starts_on_the_positive_axis() {
    let path = create_orbital_path(v3(1000, 2000, 3000), 150_000, 64);
    assert_eq!(path.len(), 64);
    assert_eq!(path[0].position, v3(1000 + 150_000, 2000, 3000));
    assert_eq!(path[0].color, Color { r: 100, g: 200, b: 255 });
}

#[test]
fn line_covers_both_endpoints() {
    let v1 = screen_vertex(2, 3, 1000);
    let v2 = screen_vertex(7, 3, 2000);
    let fragments = solar_render::line::line(&v1, &v2);
    assert_eq!(fragments.len(), 6);
    assert_eq!((fragments[0].x, fragments[0].y), (2, 3));
    assert_eq!((fragments[5].x, fragments[5].y), (7, 3));
    assert_eq!(fragments[0].depth, 1000);
    assert_eq!(fragments[5].depth, 2000);
}

#[test]
fn render_smoke_preserves_framebuffer_shape() {
    let mut fb = Framebuffer::new(100, 100);
    let u = identity_uniforms(ShaderType::Star, true);
    let v1 = screen_vertex(10, 10, 1000);
    let v2 = screen_vertex(20, 10, 1000);
    let v3v = screen_vertex(10, 20, 1000);
    render(&mut fb, &u, &vec![v1, v2, v3v]);
    assert_eq!(fb.width, 100);
    assert_eq!(fb.height, 100);
    assert_eq!(fb.buffer.len(), 100 * 100);
}

#[test]
fn render_writes_nearer_and_rejects_farther() {
    let mut fb = Framebuffer::new(100, 100);
    let u = Uniforms {
        model_matrix: solar_render::mat::mat4_identity(),
        view_matrix: solar_render::mat::mat4_identity(),
        projection_matrix: solar_render::mat::mat4_identity(),
        viewport_matrix: create_viewport_matrix(100_000, 100_000),
        light_position: v3(0, 0, 0),
        is_light_source: true,
        shader_type: ShaderType::Star,
        time: 0,
    };
    // Object positions map through the identity matrices and the viewport
    // to the screen triangle (50,50), (100,50), (50,100) at depth zero.
    let vert = |x: i64, y: i64, z: i64| Vertex {
        position: v3(x, y, z),
        normal: v3(0, 0, 1000),
        tex_coords: Vec2 { x: 0, y: 0 },
        color: Color { r: 0, g: 0, b: 0 },
        transformed_position: v3(0, 0, 0),
        transformed_normal: v3(0, 0, 1000),
    };
    let near = vec![vert(0, 0, 0), vert(1000, 0, 0), vert(0, -1000, 0)];
    render(&mut fb, &u, &near);
    let idx = 55 * 100 + 60;
    // An interior pixel took the shaded color and the interpolated depth.
    assert_ne!(fb.buffer[idx], 0);
    assert_eq!(fb.zbuffer[idx], 0);
    let written = fb.buffer[idx];
    // The same triangle pushed to depth 500 loses the depth test
    // everywhere it overlaps: the pixel keeps its color and depth.
    let far = vec![vert(0, 0, 500), vert(1000, 0, 500), vert(0, -1000, 500)];
    render(&mut fb, &u, &far);
    assert_eq!(fb.buffer[idx], written);
    assert_eq!(fb.zbuffer[idx], 0);
}

#[test]
fn render_ignores_trailing_vertices() {
    let mut fb = Framebuffer::new(64, 64);
    let u = identity_uniforms(ShaderType::Star, true);
    let before = fb.buffer.clone();
    // One or two vertices make no triangle: the framebuffer is untouched.
    render(&mut fb, &u, &vec![screen_vertex(1, 1, 100)]);
    render(&mut fb, &u, &vec![screen_vertex(1, 1, 100), screen_vertex(2, 2, 100)]);
    assert_eq!(fb.buffer, before);
}
