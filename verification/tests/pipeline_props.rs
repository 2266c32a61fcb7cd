//! End-to-end pipeline scenarios: a sphere under a real perspective
//! camera, point projection, frustum and proximity queries, lines and
//! orbits.

use softrender::color::Color;
use softrender::framebuffer::{Framebuffer, DEPTH_FAR};
use softrender::math::{mat4_mul, Mat4x, Vec3x};
use softrender::mesh::{ObjMesh, Vertex};
use softrender::renderer::Renderer;
use softrender::shaders::planet_shaders::{FlatShader, MoonShader};

fn fx(v: f64) -> i64 {
    (v * 65536.0).round() as i64
}

fn to_mat(m: [[f64; 4]; 4]) -> Mat4x {
    let mut out = [0i64; 16];
    for r in 0..4 {
        for c in 0..4 {
            out[r * 4 + c] = fx(m[r][c]);
        }
    }
    Mat4x { m: out }
}

/// A right-handed perspective projection mapping depth to [-1, 1].
fn perspective(aspect: f64, fovy_deg: f64, near: f64, far: f64) -> Mat4x {
    let f = 1.0 / (fovy_deg.to_radians() / 2.0).tan();
    to_mat([
        [f / aspect, 0.0, 0.0, 0.0],
        [0.0, f, 0.0, 0.0],
        [0.0, 0.0, -(far + near) / (far - near), -(2.0 * far * near) / (far - near)],
        [0.0, 0.0, -1.0, 0.0],
    ])
}

/// A view matrix for a camera at `eye` looking at the origin, y up.
fn look_at_origin(eye: [f64; 3]) -> Mat4x {
    let len = (eye[0] * eye[0] + eye[1] * eye[1] + eye[2] * eye[2]).sqrt();
    let fwd = [-eye[0] / len, -eye[1] / len, -eye[2] / len];
    let up = [0.0, 1.0, 0.0];
    let s = [
        fwd[1] * up[2] - fwd[2] * up[1],
        fwd[2] * up[0] - fwd[0] * up[2],
        fwd[0] * up[1] - fwd[1] * up[0],
    ];
    let sl = (s[0] * s[0] + s[1] * s[1] + s[2] * s[2]).sqrt();
    let s = [s[0] / sl, s[1] / sl, s[2] / sl];
    let u = [
        s[1] * fwd[2] - s[2] * fwd[1],
        s[2] * fwd[0] - s[0] * fwd[2],
        s[0] * fwd[1] - s[1] * fwd[0],
    ];
    let dot = |a: [f64; 3], b: [f64; 3]| a[0] * b[0] + a[1] * b[1] + a[2] * b[2];
    to_mat([
        [s[0], s[1], s[2], -dot(s, eye)],
        [u[0], u[1], u[2], -dot(u, eye)],
        [-fwd[0], -fwd[1], -fwd[2], dot(fwd, eye)],
        [0.0, 0.0, 0.0, 1.0],
    ])
}

fn identity() -> Mat4x {
    Mat4x::identity()
}

/// A unit sphere from spherical coordinates, poles included.
fn unit_sphere(rings: u32, sectors: u32) -> ObjMesh {
    let pi = std::f64::consts::PI;
    let mut vertices = Vec::new();
    let mut indices: Vec<u32> = Vec::new();
    vertices.push(Vertex { position: Vec3x { x: 0, y: fx(1.0), z: 0 }, normal: Vec3x { x: 0, y: fx(1.0), z: 0 } });
    for r in 1..rings {
        for s in 0..=sectors {
            let theta = pi * r as f64 / rings as f64;
            let phi = 2.0 * pi * s as f64 / sectors as f64;
            let x = theta.sin() * phi.cos();
            let y = theta.cos();
            let z = theta.sin() * phi.sin();
            let p = Vec3x { x: fx(x), y: fx(y), z: fx(z) };
            vertices.push(Vertex { position: p, normal: p });
        }
    }
    vertices.push(Vertex { position: Vec3x { x: 0, y: fx(-1.0), z: 0 }, normal: Vec3x { x: 0, y: fx(-1.0), z: 0 } });
    for s in 0..sectors {
        indices.extend_from_slice(&[0, 1 + s, 1 + s + 1]);
    }
    for r in 0..(rings - 2) {
        for s in 0..sectors {
            let current = 1 + r * (sectors + 1) + s;
            let next = current + sectors + 1;
            indices.extend_from_slice(&[current, next, current + 1]);
            indices.extend_from_slice(&[current + 1, next, next + 1]);
        }
    }
    let south = vertices.len() as u32 - 1;
    let last_ring = south - (sectors + 1);
    for s in 0..sectors {
        indices.extend_from_slice(&[last_ring + s, south, last_ring + s + 1]);
    }
    ObjMesh::new(vertices, indices).unwrap()
}

fn depth_at(fb: &Framebuffer, x: usize, y: usize) -> i64 {
    fb.zbuffer[y * fb.width + x]
}

#[test]
fn sphere_renders_a_centered_silhouette() {
    // Unit sphere at the origin, camera at (0, 0, 5) looking at the
    // origin with a standard perspective projection: a roughly circular
    // blob of covered pixels centered on the framebuffer, front surface
    // depths strictly nearer than the far side of the sphere.
    let r = Renderer::new(100, 100);
    let mut fb = Framebuffer::new(100, 100);
    fb.clear(Color::new(0, 0, 0));
    let mesh = unit_sphere(16, 16);
    let view = look_at_origin([0.0, 0.0, 5.0]);
    let proj = perspective(1.0, 60.0, 0.1, 100.0);
    r.render_mesh(&mut fb, &mesh, &MoonShader, &identity(), &view, &proj, 0);

    // Covered center, symmetric coverage at ten pixels out.
    assert_ne!(depth_at(&fb, 50, 50), DEPTH_FAR);
    assert_ne!(depth_at(&fb, 40, 50), DEPTH_FAR);
    assert_ne!(depth_at(&fb, 60, 50), DEPTH_FAR);
    assert_ne!(depth_at(&fb, 50, 40), DEPTH_FAR);
    assert_ne!(depth_at(&fb, 50, 60), DEPTH_FAR);

    // Empty corners and empty well outside the silhouette.
    assert_eq!(depth_at(&fb, 5, 5), DEPTH_FAR);
    assert_eq!(depth_at(&fb, 95, 95), DEPTH_FAR);
    assert_eq!(depth_at(&fb, 50, 5), DEPTH_FAR);

    // The stored center depth belongs to the front surface (view depth
    // near 4), strictly nearer than the sphere's far side (view depth
    // near 6, about 0.9686 in normalized units).
    let center = depth_at(&fb, 50, 50);
    assert!(center > 55000 && center < 63300, "center depth {center}");

    // A covered pixel count in a plausible band for a disc of radius
    // about seventeen pixels.
    let covered = fb.zbuffer.iter().filter(|&&d| d != DEPTH_FAR).count();
    assert!(covered > 500 && covered < 1800, "covered {covered}");
}

#[test]
fn project_point_rejects_and_bounds() {
    // Rejected: behind the camera (non-positive homogeneous component),
    // beyond the far plane (depth out of range), far off-screen.
    // Accepted: inside, with screen coordinates inside the viewport.
    let r = Renderer::new(100, 100);
    let view = look_at_origin([0.0, 0.0, 5.0]);
    let proj = perspective(1.0, 60.0, 0.1, 100.0);
    let vp = mat4_mul(&proj, &view).unwrap();

    assert!(r.project_point(&Vec3x { x: 0, y: 0, z: fx(10.0) }, &vp).is_none());
    assert!(r.project_point(&Vec3x { x: 0, y: 0, z: fx(-96.0) }, &vp).is_none());
    assert!(r.project_point(&Vec3x { x: fx(100.0), y: 0, z: 0 }, &vp).is_none());

    let p = r.project_point(&Vec3x { x: 0, y: 0, z: 0 }, &vp).unwrap();
    assert!(0 <= p.x && p.x < 100 * 65536);
    assert!(0 <= p.y && p.y < 100 * 65536);
    // The origin projects to the middle of the screen.
    assert!((p.x - 50 * 65536).abs() < 2 * 65536);
    assert!((p.y - 50 * 65536).abs() < 2 * 65536);
}

#[test]
fn frustum_test_is_permissive_but_rejects_behind() {
    let r = Renderer::new(100, 100);
    let view = look_at_origin([0.0, 0.0, 5.0]);
    let proj = perspective(1.0, 60.0, 0.1, 100.0);
    // A body at the origin is visible.
    assert!(r.is_in_frustum(&Vec3x { x: 0, y: 0, z: 0 }, fx(1.0), &view, &proj));
    // A body well behind the camera is not.
    assert!(!r.is_in_frustum(&Vec3x { x: 0, y: 0, z: fx(20.0) }, fx(1.0), &view, &proj));
}

#[test]
fn proximity_compares_distance_to_scaled_radius() {
    let r = Renderer::new(100, 100);
    let cam = Vec3x { x: 0, y: 0, z: fx(5.0) };
    let body = Vec3x { x: 0, y: 0, z: 0 };
    // Distance 5; radius 1 times multiplier 4 gives threshold 4: far enough.
    assert!(!r.is_too_close_to_camera(&body, fx(1.0), &cam, fx(4.0)));
    // Radius 1 times multiplier 6 gives threshold 6: too close.
    assert!(r.is_too_close_to_camera(&body, fx(1.0), &cam, fx(6.0)));
}

#[test]
fn lod_tiers_follow_distance() {
    let r = Renderer::new(100, 100);
    assert_eq!(r.calculate_lod(fx(4.0)), 64);
    assert_eq!(r.calculate_lod(fx(10.0)), 32);
    assert_eq!(r.calculate_lod(fx(30.0)), 16);
    assert_eq!(r.calculate_lod(fx(100.0)), 8);
}

#[test]
fn lines_write_pixels_at_the_near_constant_depth() {
    let r = Renderer::new(100, 100);
    let mut fb = Framebuffer::new(100, 100);
    fb.clear(Color::new(0, 0, 0));
    let view = look_at_origin([0.0, 0.0, 5.0]);
    let proj = perspective(1.0, 60.0, 0.1, 100.0);
    r.render_line(
        &mut fb,
        &Vec3x { x: fx(-1.0), y: 0, z: 0 },
        &Vec3x { x: fx(1.0), y: 0, z: 0 },
        &view,
        &proj,
        Color::new(100, 100, 150),
    );
    let line_pixels = fb.zbuffer.iter().filter(|&&d| d == 0).count();
    assert!(line_pixels >= 20, "line pixels {line_pixels}");
    // The line runs through the middle row.
    assert_eq!(depth_at(&fb, 50, 50), 0);
}

#[test]
fn orbit_draws_a_closed_loop_of_segments() {
    let r = Renderer::new(100, 100);
    let mut fb = Framebuffer::new(100, 100);
    fb.clear(Color::new(0, 0, 0));
    let view = look_at_origin([0.0, 0.0, 5.0]);
    let proj = perspective(1.0, 60.0, 0.1, 100.0);
    let pi = std::f64::consts::PI;
    let mut pts = Vec::new();
    for i in 0..16 {
        let a = 2.0 * pi * i as f64 / 16.0;
        pts.push(Vec3x { x: fx(1.5 * a.cos()), y: fx(1.5 * a.sin()), z: 0 });
    }
    r.render_orbit(
        &mut fb,
        &pts,
        Vec3x { x: 0, y: 0, z: 0 },
        &view,
        &proj,
        Color::new(100, 100, 150),
    );
    let ring_pixels = fb.zbuffer.iter().filter(|&&d| d == 0).count();
    assert!(ring_pixels >= 60, "ring pixels {ring_pixels}");
    // The loop surrounds the center, which stays untouched.
    assert_eq!(depth_at(&fb, 50, 50), DEPTH_FAR);
}

#[test]
fn overlay_after_opaque_keeps_the_scene_depths() {
    // The ship-at-close-range scenario: opaque geometry first, an
    // overlay pass after; the depth buffer is exactly what the opaque
    // pass left.
    let r = Renderer::new(100, 100);
    let mut fb = Framebuffer::new(100, 100);
    fb.clear(Color::new(0, 0, 0));
    let mesh = unit_sphere(12, 12);
    let view = look_at_origin([0.0, 0.0, 5.0]);
    let proj = perspective(1.0, 60.0, 0.1, 100.0);
    r.render_mesh(&mut fb, &mesh, &MoonShader, &identity(), &view, &proj, 0);
    let depths = fb.zbuffer.clone();
    let ship = unit_sphere(8, 8);
    r.render_mesh_overlay(
        &mut fb,
        &ship,
        &FlatShader { color: Color::new(180, 185, 200) },
        &identity(),
        &view,
        &proj,
        0,
    );
    assert_eq!(fb.zbuffer, depths);
}
