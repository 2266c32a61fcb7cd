//! Framebuffer behavior: clearing, the depth-tested write and the
//! overlay blend.

use softrender::color::Color;
use softrender::framebuffer::{Framebuffer, DEPTH_FAR, OVERLAY_NEAR};
use softrender::math::Vec3x;

fn fb_pixel(fb: &Framebuffer, x: usize, y: usize) -> (u8, u8, u8, u8) {
    let i = (y * fb.width + x) * 4;
    (fb.buffer[i], fb.buffer[i + 1], fb.buffer[i + 2], fb.buffer[i + 3])
}

fn fb_depth(fb: &Framebuffer, x: usize, y: usize) -> i64 {
    fb.zbuffer[y * fb.width + x]
}

#[test]
fn new_framebuffer_is_sized_and_far() {
    let fb = Framebuffer::new(16, 8);
    assert_eq!(fb.width, 16);
    assert_eq!(fb.height, 8);
    assert_eq!(fb.buffer.len(), 16 * 8 * 4);
    assert_eq!(fb.zbuffer.len(), 16 * 8);
    assert!(fb.zbuffer.iter().all(|&d| d == DEPTH_FAR));
    assert!(fb.buffer.iter().all(|&b| b == 0));
}

#[test]
fn clear_sets_every_pixel_and_depth() {
    // Any pixel read after a clear returns exactly the clear color at
    // full opacity, and the depth slot holds the far sentinel.
    let mut fb = Framebuffer::new(7, 5);
    fb.set_pixel(3, 2, Color::new(9, 9, 9), -100);
    fb.clear(Color::new(5, 5, 15));
    for y in 0..5 {
        for x in 0..7 {
            assert_eq!(fb_pixel(&fb, x, y), (5, 5, 15, 255));
            assert_eq!(fb_depth(&fb, x, y), DEPTH_FAR);
        }
    }
}

#[test]
fn set_pixel_depths_never_increase() {
    // Nearest wins: a second write at the same pixel lands exactly when
    // its depth is strictly below the first.
    let mut fb = Framebuffer::new(4, 4);
    fb.clear(Color::new(0, 0, 0));
    fb.set_pixel(1, 1, Color::new(10, 20, 30), 1000);
    assert_eq!(fb_depth(&fb, 1, 1), 1000);
    assert_eq!(fb_pixel(&fb, 1, 1), (10, 20, 30, 255));

    // Equal depth loses: nothing changes.
    fb.set_pixel(1, 1, Color::new(40, 50, 60), 1000);
    assert_eq!(fb_depth(&fb, 1, 1), 1000);
    assert_eq!(fb_pixel(&fb, 1, 1), (10, 20, 30, 255));

    // Farther loses.
    fb.set_pixel(1, 1, Color::new(40, 50, 60), 2000);
    assert_eq!(fb_depth(&fb, 1, 1), 1000);
    assert_eq!(fb_pixel(&fb, 1, 1), (10, 20, 30, 255));

    // Strictly nearer wins.
    fb.set_pixel(1, 1, Color::new(40, 50, 60), 999);
    assert_eq!(fb_depth(&fb, 1, 1), 999);
    assert_eq!(fb_pixel(&fb, 1, 1), (40, 50, 60, 255));
}

#[test]
fn set_pixel_out_of_bounds_is_a_no_op() {
    let mut fb = Framebuffer::new(4, 4);
    fb.clear(Color::new(1, 2, 3));
    let before_colors = fb.buffer.clone();
    let before_depths = fb.zbuffer.clone();
    fb.set_pixel(4, 0, Color::new(99, 99, 99), -1000);
    fb.set_pixel(0, 4, Color::new(99, 99, 99), -1000);
    fb.set_pixel(100, 100, Color::new(99, 99, 99), -1000);
    assert_eq!(fb.buffer, before_colors);
    assert_eq!(fb.zbuffer, before_depths);
}

#[test]
fn blend_pixel_mixes_without_touching_depth() {
    let mut fb = Framebuffer::new(4, 4);
    fb.clear(Color::new(100, 100, 100));
    fb.set_pixel(2, 2, Color::new(100, 100, 100), 5000);
    let depths = fb.zbuffer.clone();
    fb.blend_pixel(2, 2, Color::new(200, 0, 100));
    // Ninety-five percent new, five percent old, truncated.
    let expect_r = (200 * 95 + 100 * 5) / 100;
    let expect_g = (0 * 95 + 100 * 5) / 100;
    let expect_b = (100 * 95 + 100 * 5) / 100;
    assert_eq!(
        fb_pixel(&fb, 2, 2),
        (expect_r as u8, expect_g as u8, expect_b as u8, 255)
    );
    assert_eq!(fb.zbuffer, depths);
}

#[test]
fn blend_pixel_skips_point_blank_content() {
    let mut fb = Framebuffer::new(4, 4);
    fb.clear(Color::new(7, 7, 7));
    // Stored depth below the overlay threshold marks the pixel as
    // holding point-blank content; the blend must leave it alone.
    fb.set_pixel(1, 1, Color::new(50, 50, 50), OVERLAY_NEAR - 1);
    fb.blend_pixel(1, 1, Color::new(255, 255, 255));
    assert_eq!(fb_pixel(&fb, 1, 1), (50, 50, 50, 255));
    // At the threshold itself the blend goes through.
    fb.set_pixel(2, 2, Color::new(50, 50, 50), OVERLAY_NEAR);
    fb.blend_pixel(2, 2, Color::new(255, 255, 255));
    let expect = (255 * 95 + 50 * 5) / 100;
    assert_eq!(fb_pixel(&fb, 2, 2), (expect as u8, expect as u8, expect as u8, 255));
}

#[test]
fn color_from_vec3_clamps_and_scales() {
    // Components below zero clamp to zero, above one unit to 255, and
    // half a unit lands on 127 (truncating).
    let c = Color::from_vec3(&Vec3x { x: -5 * 65536, y: 32768, z: 70000 });
    assert_eq!((c.r, c.g, c.b), (0, 127, 255));
    let c2 = Color::from_vec3(&Vec3x { x: 0, y: 65536, z: 65535 });
    assert_eq!((c2.r, c2.g, c2.b), (0, 255, 254));
}

#[test]
fn as_bytes_exposes_the_color_buffer() {
    let mut fb = Framebuffer::new(2, 1);
    fb.clear(Color::new(1, 2, 3));
    assert_eq!(fb.as_bytes(), &[1, 2, 3, 255, 1, 2, 3, 255]);
}
