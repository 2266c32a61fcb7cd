//! Shading arithmetic, noise, fixed-point helpers, mesh validation and
//! matrix basics.

use softrender::color::Color;
use softrender::fx::isqrt128;
use softrender::math::{mat4_apply, mat4_mul, vec3_normalize, Mat4x, Vec3x, Vec4x};
use softrender::mesh::{MeshError, ObjMesh, Vertex};
use softrender::shaders::noise::{cell, hash, noise8};
use softrender::shaders::planet_shaders::{
    EarthShader, FlatShader, MercuryShader, PlanetShader, RingShader,
};
use softrender::shaders::star_shaders::ClassicSunShader as StarSun;
use softrender::shaders::utils::{dot_unit, lit, pulse8, tint};

const ONE: i64 = 65536;

fn identity() -> Mat4x {
    Mat4x::identity()
}

#[test]
fn hash_matches_its_mixing_formula() {
    assert_eq!(hash(0, 0, 0), 0);
    assert_eq!(hash(1, 2, 3), 90);
    assert_eq!(hash(-1, 5, 7), 109);
    assert_eq!(hash(10, -10, 3), 234);
    assert_eq!(hash(123, 456, 789), 175);
    for x in -3..3 {
        let h = hash(x, 2 * x, -x);
        assert!((0..256).contains(&h));
    }
}

#[test]
fn cell_scales_and_clamps() {
    // At frequency 8, one quarter unit lands in cell 2.
    assert_eq!(cell(ONE / 4, 8), 2);
    assert_eq!(cell(-ONE, 4), -4);
    // A huge coordinate clamps instead of overflowing.
    assert_eq!(cell(i64::MAX / 2, 1024), 0x4000_0000);
}

#[test]
fn noise_is_deterministic_and_byte_ranged() {
    let p = Vec3x { x: 12345, y: -54321, z: 999999 };
    let a = noise8(&p, 8);
    let b = noise8(&p, 8);
    assert_eq!(a, b);
    assert!((0..256).contains(&a));
}

#[test]
fn tint_centers_at_128_and_clamps() {
    // A sample of 128 leaves the base untouched.
    assert_eq!(tint(100, 128, 255), 100);
    // (200 - 128) * 50 / 128 = 28 upward.
    assert_eq!(tint(100, 200, 50), 128);
    // (0 - 128) * 255 / 128 = -255: clamps at zero.
    assert_eq!(tint(100, 0, 255), 0);
    assert_eq!(tint(200, 255, 255), 255);
}

#[test]
fn lit_scales_by_clamped_brightness() {
    assert_eq!(lit(200, ONE), 200);
    assert_eq!(lit(200, ONE / 2), 100);
    assert_eq!(lit(200, 0), 0);
    // Negative brightness clamps dark, oversized clamps to full.
    assert_eq!(lit(200, -ONE), 0);
    assert_eq!(lit(200, 10 * ONE), 200);
}

#[test]
fn dot_unit_is_the_fixed_point_dot_product() {
    let n = Vec3x { x: ONE, y: 0, z: 0 };
    assert_eq!(dot_unit(&n, ONE, 0, 0), ONE);
    assert_eq!(dot_unit(&n, -ONE, 0, 0), -ONE);
    // Components beyond a unit are clamped before the product.
    let big = Vec3x { x: 100 * ONE, y: 0, z: 0 };
    assert_eq!(dot_unit(&big, ONE, 0, 0), ONE);
}

#[test]
fn pulse_rises_then_falls() {
    let period: i64 = 1024;
    assert_eq!(pulse8(0, period), 0);
    assert_eq!(pulse8(period / 4, period), 128);
    assert_eq!(pulse8(period - 1, period), 2 * (255 - 255));
    // Negative time sits at the start of the wave.
    assert_eq!(pulse8(-500, period), 0);
    for t in 0..64 {
        let p = pulse8(t * 16, period);
        assert!((0..=255).contains(&p));
    }
}

#[test]
fn shaders_are_pure_functions_of_their_inputs() {
    let pos = Vec3x { x: ONE, y: 0, z: 0 };
    let n = Vec3x { x: 0, y: 0, z: ONE };
    assert_eq!(MercuryShader.fragment(&pos, &n, 7), MercuryShader.fragment(&pos, &n, 7));
    assert_eq!(EarthShader.fragment(&pos, &n, 7), EarthShader.fragment(&pos, &n, 7));
    assert_eq!(RingShader.fragment(&pos, &n, 7), RingShader.fragment(&pos, &n, 7));
    assert_eq!(StarSun.fragment(&pos, &n, 7), StarSun.fragment(&pos, &n, 7));
    let flat = FlatShader { color: Color::new(1, 2, 3) };
    assert_eq!(flat.fragment(&pos, &n, 7), Color::new(1, 2, 3));
}

#[test]
fn mesh_validation_reports_each_failure() {
    let v = |x: i64| Vertex {
        position: Vec3x { x, y: 0, z: 0 },
        normal: Vec3x { x: 0, y: ONE, z: 0 },
    };
    // Ragged index count.
    assert_eq!(
        ObjMesh::new(vec![v(0), v(1), v(2)], vec![0, 1]).unwrap_err(),
        MeshError::RaggedTriangles
    );
    // An index that names no vertex.
    assert_eq!(
        ObjMesh::new(vec![v(0), v(1), v(2)], vec![0, 1, 5]).unwrap_err(),
        MeshError::IndexOutOfBounds
    );
    // A coordinate beyond the world bound.
    assert_eq!(
        ObjMesh::new(vec![v(0), v(1), v(i64::MAX / 2)], vec![0, 1, 2]).unwrap_err(),
        MeshError::CoordinateOutOfRange
    );
    assert!(ObjMesh::new(vec![v(0), v(1), v(2)], vec![0, 1, 2]).is_ok());
    assert_eq!(
        MeshError::RaggedTriangles.message(),
        "index count is not a multiple of three"
    );
}

#[test]
fn identity_transform_preserves_vectors() {
    let v = Vec4x { x: 123456, y: -654321, z: ONE, w: ONE };
    let r = mat4_apply(&identity(), &v).unwrap();
    assert_eq!((r.x, r.y, r.z, r.w), (123456, -654321, ONE, ONE));
    let m = mat4_mul(&identity(), &identity()).unwrap();
    assert_eq!(m.m, identity().m);
}

#[test]
fn normalization_yields_unit_fixed_vectors() {
    let r = vec3_normalize(&Vec3x { x: 2 * ONE, y: 0, z: 0 });
    assert_eq!((r.x, r.y, r.z), (ONE, 0, 0));
    let d = vec3_normalize(&Vec3x { x: 3 * ONE, y: 4 * ONE, z: 0 });
    // 3-4-5 triangle: components scale to 3/5 and 4/5 of a unit.
    assert_eq!((d.x, d.y, d.z), (ONE * 3 / 5, ONE * 4 / 5, 0));
    let z = vec3_normalize(&Vec3x { x: 0, y: 0, z: 0 });
    assert_eq!((z.x, z.y, z.z), (0, 0, 0));
}

#[test]
fn integer_square_root_is_exact() {
    assert_eq!(isqrt128(0), 0);
    assert_eq!(isqrt128(1), 1);
    assert_eq!(isqrt128(10), 3);
    assert_eq!(isqrt128(16), 4);
    assert_eq!(isqrt128(65536 * 65536), 65536);
    assert_eq!(isqrt128((1u128 << 100) - 1), (1u128 << 50) - 1);
}
