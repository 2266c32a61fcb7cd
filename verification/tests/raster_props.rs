//! Triangle rasterization: culling, coverage, depth policies and draw
//! order, exercised through the public render calls with identity
//! matrices so screen positions are easy to predict.

use softrender::color::Color;
use softrender::framebuffer::{Framebuffer, DEPTH_FAR};
use softrender::math::{Mat4x, Vec3x};
use softrender::mesh::{ObjMesh, Vertex};
use softrender::renderer::Renderer;
use softrender::shaders::planet_shaders::FlatShader;

const ONE: i64 = 65536;

fn identity() -> Mat4x {
    Mat4x {
        m: [
            ONE, 0, 0, 0,
            0, ONE, 0, 0,
            0, 0, ONE, 0,
            0, 0, 0, ONE,
        ],
    }
}

fn vx(x: f64, y: f64, z: f64) -> Vec3x {
    Vec3x {
        x: (x * 65536.0).round() as i64,
        y: (y * 65536.0).round() as i64,
        z: (z * 65536.0).round() as i64,
    }
}

fn vert(x: f64, y: f64, z: f64) -> Vertex {
    Vertex { position: vx(x, y, z), normal: vx(0.0, 0.0, 1.0) }
}

/// A single triangle at constant depth `z`; with identity matrices its
/// normalized device coordinates equal its positions. The vertex order
/// A, C, B is counter-clockwise on the screen (the vertical flip
/// reverses the winding).
fn tri_mesh(z: f64) -> ObjMesh {
    ObjMesh::new(
        vec![vert(-0.5, -0.5, z), vert(0.0, 0.5, z), vert(0.5, -0.5, z)],
        vec![0, 1, 2],
    )
    .unwrap()
}

/// The same triangle wound the other way: clockwise on the screen.
fn tri_mesh_cw(z: f64) -> ObjMesh {
    ObjMesh::new(
        vec![vert(-0.5, -0.5, z), vert(0.5, -0.5, z), vert(0.0, 0.5, z)],
        vec![0, 1, 2],
    )
    .unwrap()
}

fn depth_at(fb: &Framebuffer, x: usize, y: usize) -> i64 {
    fb.zbuffer[y * fb.width + x]
}

fn color_at(fb: &Framebuffer, x: usize, y: usize) -> (u8, u8, u8) {
    let i = (y * fb.width + x) * 4;
    (fb.buffer[i], fb.buffer[i + 1], fb.buffer[i + 2])
}

fn setup() -> (Renderer, Framebuffer) {
    let r = Renderer::new(100, 100);
    let mut fb = Framebuffer::new(100, 100);
    fb.clear(Color::new(0, 0, 0));
    (r, fb)
}

#[test]
fn front_facing_triangle_covers_its_centroid() {
    let (r, mut fb) = setup();
    let mesh = tri_mesh(0.0);
    let shader = FlatShader { color: Color::new(10, 200, 30) };
    r.render_mesh(&mut fb, &mesh, &shader, &identity(), &identity(), &identity(), 0);
    // Screen corners (25,75), (50,25), (75,75); centroid near (50, 58).
    assert_ne!(depth_at(&fb, 50, 58), DEPTH_FAR);
    assert_eq!(color_at(&fb, 50, 58), (10, 200, 30));
    // The interpolated depth of a constant-depth triangle is exact.
    assert_eq!(depth_at(&fb, 50, 58), 0);
}

#[test]
fn pixels_outside_the_bounding_box_are_untouched() {
    let (r, mut fb) = setup();
    let mesh = tri_mesh(0.0);
    let shader = FlatShader { color: Color::new(10, 200, 30) };
    r.render_mesh(&mut fb, &mesh, &shader, &identity(), &identity(), &identity(), 0);
    // The clamped bounding box is roughly columns 25..=75, rows 25..=75.
    for &(x, y) in &[(5usize, 5usize), (90, 90), (5, 90), (90, 5), (50, 90), (50, 5)] {
        assert_eq!(depth_at(&fb, x, y), DEPTH_FAR);
        assert_eq!(color_at(&fb, x, y), (0, 0, 0));
    }
}

#[test]
fn clockwise_triangle_is_culled_entirely() {
    // Back-face culling: the clockwise winding must produce zero pixel
    // writes regardless of shader or depth.
    let (r, mut fb) = setup();
    let before_colors = fb.buffer.clone();
    let before_depths = fb.zbuffer.clone();
    let mesh = tri_mesh_cw(0.0);
    let shader = FlatShader { color: Color::new(255, 255, 255) };
    r.render_mesh(&mut fb, &mesh, &shader, &identity(), &identity(), &identity(), 0);
    assert_eq!(fb.buffer, before_colors);
    assert_eq!(fb.zbuffer, before_depths);
}

#[test]
fn degenerate_triangle_writes_nothing() {
    // Two coincident vertices give zero screen-space area: no writes,
    // no error.
    let (r, mut fb) = setup();
    let before_colors = fb.buffer.clone();
    let before_depths = fb.zbuffer.clone();
    let mesh = ObjMesh::new(
        vec![vert(-0.5, -0.5, 0.0), vert(-0.5, -0.5, 0.0), vert(0.5, -0.5, 0.0)],
        vec![0, 1, 2],
    )
    .unwrap();
    let shader = FlatShader { color: Color::new(255, 255, 255) };
    r.render_mesh(&mut fb, &mesh, &shader, &identity(), &identity(), &identity(), 0);
    assert_eq!(fb.buffer, before_colors);
    assert_eq!(fb.zbuffer, before_depths);
}

#[test]
fn nearer_triangle_wins_regardless_of_draw_order() {
    // Two overlapping opaque triangles at different depths: the overlap
    // shows the nearer one's color whichever is drawn first.
    let near = tri_mesh(-0.5);
    let far = tri_mesh(0.5);
    let red = FlatShader { color: Color::new(200, 0, 0) };
    let blue = FlatShader { color: Color::new(0, 0, 200) };
    let (r, mut fb) = setup();

    // Far (blue) first, near (red) second.
    r.render_mesh(&mut fb, &far, &blue, &identity(), &identity(), &identity(), 0);
    r.render_mesh(&mut fb, &near, &red, &identity(), &identity(), &identity(), 0);
    assert_eq!(color_at(&fb, 50, 58), (200, 0, 0));
    assert_eq!(depth_at(&fb, 50, 58), -32768);

    // Near (red) first, far (blue) second: blue loses the depth test.
    let (r2, mut fb2) = setup();
    r2.render_mesh(&mut fb2, &near, &red, &identity(), &identity(), &identity(), 0);
    r2.render_mesh(&mut fb2, &far, &blue, &identity(), &identity(), &identity(), 0);
    assert_eq!(color_at(&fb2, 50, 58), (200, 0, 0));
    assert_eq!(depth_at(&fb2, 50, 58), -32768);
}

#[test]
fn bias_shifts_the_stored_and_compared_depth() {
    // A fragment of depth d with bias b is written iff d + b beats the
    // stored depth, and d + b is what is stored.
    let far = tri_mesh(0.5);
    let blue = FlatShader { color: Color::new(0, 0, 200) };
    let red = FlatShader { color: Color::new(200, 0, 0) };
    let (r, mut fb) = setup();
    r.render_mesh(&mut fb, &far, &blue, &identity(), &identity(), &identity(), 0);
    assert_eq!(depth_at(&fb, 50, 58), 32768);

    // Without bias the identical triangle loses (equal depth loses).
    r.render_mesh(&mut fb, &far, &red, &identity(), &identity(), &identity(), 0);
    assert_eq!(color_at(&fb, 50, 58), (0, 0, 200));

    // With a bias of -0.4 units it wins, and stores 32768 - 26214.
    r.render_mesh_with_bias(
        &mut fb, &far, &red, &identity(), &identity(), &identity(), 0, -26214,
    );
    assert_eq!(color_at(&fb, 50, 58), (200, 0, 0));
    assert_eq!(depth_at(&fb, 50, 58), 32768 - 26214);

    // A bias that pushes the depth out of normalized range drops the
    // fragment instead.
    r.render_mesh_with_bias(
        &mut fb, &far, &blue, &identity(), &identity(), &identity(), 0, -3 * ONE,
    );
    assert_eq!(color_at(&fb, 50, 58), (200, 0, 0));
}

#[test]
fn overlay_never_mutates_the_depth_buffer() {
    // After any sequence of overlay draws the depth buffer equals its
    // prior state exactly, and colors are blended ninety-five to five.
    let opaque = tri_mesh(0.5);
    let blue = FlatShader { color: Color::new(0, 0, 200) };
    let gray = FlatShader { color: Color::new(200, 200, 200) };
    let (r, mut fb) = setup();
    r.render_mesh(&mut fb, &opaque, &blue, &identity(), &identity(), &identity(), 0);
    let depths = fb.zbuffer.clone();

    let overlay = tri_mesh(-0.2);
    r.render_mesh_overlay(&mut fb, &overlay, &gray, &identity(), &identity(), &identity(), 0);
    r.render_mesh_overlay(&mut fb, &overlay, &gray, &identity(), &identity(), &identity(), 0);
    assert_eq!(fb.zbuffer, depths);

    // One blend over blue, then one blend over the blend.
    let first = ((200 * 95 + 0 * 5) / 100, (200 * 95 + 0 * 5) / 100, (200 * 95 + 200 * 5) / 100);
    let second = (
        (200 * 95 + first.0 * 5) / 100,
        (200 * 95 + first.1 * 5) / 100,
        (200 * 95 + first.2 * 5) / 100,
    );
    assert_eq!(
        color_at(&fb, 50, 58),
        (second.0 as u8, second.1 as u8, second.2 as u8)
    );
}

#[test]
fn zero_homogeneous_component_invalidates_vertices() {
    // A projection whose bottom row is zero gives every vertex a zero
    // homogeneous component: the transform marks them invalid and the
    // triangle is rejected without touching a pixel.
    let (r, mut fb) = setup();
    let before_colors = fb.buffer.clone();
    let before_depths = fb.zbuffer.clone();
    let mut degenerate = identity();
    degenerate.m[12] = 0;
    degenerate.m[13] = 0;
    degenerate.m[14] = 0;
    degenerate.m[15] = 0;
    let mesh = tri_mesh(0.0);
    let shader = FlatShader { color: Color::new(255, 255, 255) };
    r.render_mesh(&mut fb, &mesh, &shader, &identity(), &identity(), &degenerate, 0);
    assert_eq!(fb.buffer, before_colors);
    assert_eq!(fb.zbuffer, before_depths);
}

#[test]
fn overlay_leaves_point_blank_pixels_alone() {
    // Opaque content nearer than nine tenths of a unit from the near
    // plane blocks the overlay blend at those pixels.
    let (r, mut fb) = setup();
    let point_blank = tri_mesh(-0.95);
    let blue = FlatShader { color: Color::new(0, 0, 200) };
    let gray = FlatShader { color: Color::new(200, 200, 200) };
    r.render_mesh(&mut fb, &point_blank, &blue, &identity(), &identity(), &identity(), 0);
    assert_eq!(color_at(&fb, 50, 58), (0, 0, 200));
    r.render_mesh_overlay(
        &mut fb,
        &tri_mesh(0.0),
        &gray,
        &identity(),
        &identity(),
        &identity(),
        0,
    );
    // Inside the point-blank area the blue stays; outside the first
    // triangle's bounding box nothing was blended either way.
    assert_eq!(color_at(&fb, 50, 58), (0, 0, 200));
}

#[test]
fn vertices_outside_depth_range_reject_the_triangle() {
    let (r, mut fb) = setup();
    let before = fb.buffer.clone();
    let mesh = tri_mesh(1.5);
    let shader = FlatShader { color: Color::new(255, 255, 255) };
    r.render_mesh(&mut fb, &mesh, &shader, &identity(), &identity(), &identity(), 0);
    assert_eq!(fb.buffer, before);
}

#[test]
fn overlay_rejects_out_of_range_depths_too() {
    // The depth-range check is shared by all three policies: an overlay
    // triangle whose vertices sit before the near plane (depth below
    // minus one) blends nothing, just as one beyond the far plane does.
    let (r, mut fb) = setup();
    let before_colors = fb.buffer.clone();
    let before_depths = fb.zbuffer.clone();
    let shader = FlatShader { color: Color::new(255, 255, 255) };
    r.render_mesh_overlay(
        &mut fb,
        &tri_mesh(-2.0),
        &shader,
        &identity(),
        &identity(),
        &identity(),
        0,
    );
    r.render_mesh_overlay(
        &mut fb,
        &tri_mesh(1.5),
        &shader,
        &identity(),
        &identity(),
        &identity(),
        0,
    );
    assert_eq!(fb.buffer, before_colors);
    assert_eq!(fb.zbuffer, before_depths);
}
