//! The per-fragment shading capability and the planet shaders.
//!
//! Every shader is a pure function of world position, world normal and
//! simulation time; the renderer calls it once per covered pixel. The
//! trait carries the function twice: once as a specification and once
//! executably, bound together by the contract, so the rasterizer's own
//! specification can name the exact color of every fragment.

use vstd::prelude::*;

verus! {

use crate::color::Color;
use crate::math::Vec3x;
use crate::shaders::noise::noise8;
use crate::shaders::noise::noise8_s;
use crate::shaders::utils::dot_unit;
use crate::shaders::utils::dot_unit_s;
use crate::shaders::utils::lit;
use crate::shaders::utils::lit_s;
use crate::shaders::utils::pulse8;
use crate::shaders::utils::pulse8_s;
use crate::shaders::utils::tint;
use crate::shaders::utils::tint_s;

/// Fixed key light direction, roughly toward the primary star.
pub const LIGHT_X: i64 = 47722;

/// See `LIGHT_X`.
pub const LIGHT_Y: i64 = 19089;

/// See `LIGHT_X`.
pub const LIGHT_Z: i64 = 38217;

/// Ambient brightness: two fifths of a unit, so night sides stay visible.
pub const AMBIENT: i64 = 26214;

/// The per-fragment coloring capability. `fragment` must return exactly
/// what `fragment_s` names, so a rasterizer over any shader has an exact
/// specification.
pub trait PlanetShader {
    /// The color this shader assigns to a fragment.
    spec fn fragment_s(&self, pos: Vec3x, normal: Vec3x, time: i64) -> Color;

    /// Computes the fragment color.
    fn fragment(&self, pos: &Vec3x, normal: &Vec3x, time: i64) -> (c: Color)
        ensures
            c == self.fragment_s(*pos, *normal, time),
    ;
}

/// The shared shape of a lit, noise-tinted surface: a base color shifted
/// by a lattice noise sample of the normal, scaled by ambient plus
/// diffuse light.
pub open spec fn lit_surface_s(
    normal: Vec3x,
    freq: i64,
    base_r: u8,
    base_g: u8,
    base_b: u8,
    amp: i64,
) -> Color {
    let n = noise8_s(normal, freq);
    let b = AMBIENT + dot_unit_s(normal, LIGHT_X, LIGHT_Y, LIGHT_Z);
    Color {
        r: lit_s(tint_s(base_r as int, n, amp as int), b) as u8,
        g: lit_s(tint_s(base_g as int, n, amp as int), b) as u8,
        b: lit_s(tint_s(base_b as int, n, amp as int), b) as u8,
    }
}

/// Executable form of `lit_surface_s`.
pub fn lit_surface(normal: &Vec3x, freq: i64, base_r: u8, base_g: u8, base_b: u8, amp: i64) -> (c:
    Color)
    requires
        1 <= freq <= 1024,
        0 <= amp <= 255,
    ensures
        c == lit_surface_s(*normal, freq, base_r, base_g, base_b, amp),
{
    let n: i64 = noise8(normal, freq);
    let d: i64 = dot_unit(normal, LIGHT_X, LIGHT_Y, LIGHT_Z);
    let b: i64 = AMBIENT + d;
    Color { r: lit(tint(base_r, n, amp), b), g: lit(tint(base_g, n, amp), b), b: lit(
        tint(base_b, n, amp),
        b,
    ) }
}

/// The shared shape of an emissive star surface: a warm base tinted by
/// noise, breathing with a slow pulse, never dark.
pub open spec fn star_surface_s(
    normal: Vec3x,
    time: i64,
    base_r: u8,
    base_g: u8,
    base_b: u8,
) -> Color {
    let n = noise8_s(normal, 4);
    let b = 52429 + 52 * pulse8_s(time, 131072);
    Color {
        r: lit_s(tint_s(base_r as int, n, 40), b) as u8,
        g: lit_s(tint_s(base_g as int, n, 40), b) as u8,
        b: lit_s(tint_s(base_b as int, n, 40), b) as u8,
    }
}

/// Executable form of `star_surface_s`.
pub fn star_surface(normal: &Vec3x, time: i64, base_r: u8, base_g: u8, base_b: u8) -> (c: Color)
    ensures
        c == star_surface_s(*normal, time, base_r, base_g, base_b),
{
    let n: i64 = noise8(normal, 4);
    let p: i64 = pulse8(time, 131072);
    let b: i64 = 52429 + 52 * p;
    Color { r: lit(tint(base_r, n, 40), b), g: lit(tint(base_g, n, 40), b), b: lit(
        tint(base_b, n, 40),
        b,
    ) }
}

/// The primary star: emissive, turbulent, gently pulsing.
pub struct ClassicSunShader;

impl PlanetShader for ClassicSunShader {
    open spec fn fragment_s(&self, pos: Vec3x, normal: Vec3x, time: i64) -> Color {
        star_surface_s(normal, time, 255u8, 200u8, 64u8)
    }

    fn fragment(&self, pos: &Vec3x, normal: &Vec3x, time: i64) -> (c: Color) {
        star_surface(normal, time, 255, 200, 64)
    }
}

/// Cratered gray rock under harsh nearby sunlight.
pub struct MercuryShader;

impl PlanetShader for MercuryShader {
    open spec fn fragment_s(&self, pos: Vec3x, normal: Vec3x, time: i64) -> Color {
        lit_surface_s(normal, 8, 115u8, 107u8, 97u8, 60)
    }

    fn fragment(&self, pos: &Vec3x, normal: &Vec3x, time: i64) -> (c: Color) {
        lit_surface(normal, 8, 115, 107, 97, 60)
    }
}

/// Dense cream-colored cloud cover.
pub struct VenusShader;

impl PlanetShader for VenusShader {
    open spec fn fragment_s(&self, pos: Vec3x, normal: Vec3x, time: i64) -> Color {
        lit_surface_s(normal, 3, 230u8, 180u8, 110u8, 40)
    }

    fn fragment(&self, pos: &Vec3x, normal: &Vec3x, time: i64) -> (c: Color) {
        lit_surface(normal, 3, 230, 180, 110, 40)
    }
}

/// Oceans with green continents where the noise runs high.
pub struct EarthShader;

impl PlanetShader for EarthShader {
    open spec fn fragment_s(&self, pos: Vec3x, normal: Vec3x, time: i64) -> Color {
        if noise8_s(normal, 5) > 140 {
            lit_surface_s(normal, 5, 60u8, 140u8, 60u8, 40)
        } else {
            lit_surface_s(normal, 5, 30u8, 80u8, 180u8, 40)
        }
    }

    fn fragment(&self, pos: &Vec3x, normal: &Vec3x, time: i64) -> (c: Color) {
        if noise8(normal, 5) > 140 {
            lit_surface(normal, 5, 60, 140, 60, 40)
        } else {
            lit_surface(normal, 5, 30, 80, 180, 40)
        }
    }
}

/// Rust-red desert.
pub struct MarsShader;

impl PlanetShader for MarsShader {
    open spec fn fragment_s(&self, pos: Vec3x, normal: Vec3x, time: i64) -> Color {
        lit_surface_s(normal, 6, 200u8, 100u8, 60u8, 70)
    }

    fn fragment(&self, pos: &Vec3x, normal: &Vec3x, time: i64) -> (c: Color) {
        lit_surface(normal, 6, 200, 100, 60, 70)
    }
}

/// Banded tan giant: the noise follows latitude alone.
pub struct JupiterShader;

impl PlanetShader for JupiterShader {
    open spec fn fragment_s(&self, pos: Vec3x, normal: Vec3x, time: i64) -> Color {
        lit_surface_s(Vec3x { x: 0i64, y: normal.y, z: 0i64 }, 6, 235u8, 190u8, 140u8, 80)
    }

    fn fragment(&self, pos: &Vec3x, normal: &Vec3x, time: i64) -> (c: Color) {
        lit_surface(&Vec3x { x: 0, y: normal.y, z: 0 }, 6, 235, 190, 140, 80)
    }
}

/// Softly banded pale giant.
pub struct SaturnShader;

impl PlanetShader for SaturnShader {
    open spec fn fragment_s(&self, pos: Vec3x, normal: Vec3x, time: i64) -> Color {
        lit_surface_s(Vec3x { x: 0i64, y: normal.y, z: 0i64 }, 5, 220u8, 200u8, 150u8, 50)
    }

    fn fragment(&self, pos: &Vec3x, normal: &Vec3x, time: i64) -> (c: Color) {
        lit_surface(&Vec3x { x: 0, y: normal.y, z: 0 }, 5, 220, 200, 150, 50)
    }
}

/// Featureless pale cyan ice giant.
pub struct UranusShader;

impl PlanetShader for UranusShader {
    open spec fn fragment_s(&self, pos: Vec3x, normal: Vec3x, time: i64) -> Color {
        lit_surface_s(normal, 3, 130u8, 200u8, 220u8, 30)
    }

    fn fragment(&self, pos: &Vec3x, normal: &Vec3x, time: i64) -> (c: Color) {
        lit_surface(normal, 3, 130, 200, 220, 30)
    }
}

/// Deep blue ice giant with storm streaks.
pub struct NeptuneShader;

impl PlanetShader for NeptuneShader {
    open spec fn fragment_s(&self, pos: Vec3x, normal: Vec3x, time: i64) -> Color {
        lit_surface_s(normal, 5, 60u8, 90u8, 220u8, 50)
    }

    fn fragment(&self, pos: &Vec3x, normal: &Vec3x, time: i64) -> (c: Color) {
        lit_surface(normal, 5, 60, 90, 220, 50)
    }
}

/// Dusty gray, heavily cratered satellite.
pub struct MoonShader;

impl PlanetShader for MoonShader {
    open spec fn fragment_s(&self, pos: Vec3x, normal: Vec3x, time: i64) -> Color {
        lit_surface_s(normal, 10, 150u8, 150u8, 150u8, 70)
    }

    fn fragment(&self, pos: &Vec3x, normal: &Vec3x, time: i64) -> (c: Color) {
        lit_surface(normal, 10, 150, 150, 150, 70)
    }
}

/// A flat annulus banded by radius: the noise reads the world-plane
/// position, not the normal, so the bands ring the planet.
pub struct RingShader;

impl PlanetShader for RingShader {
    open spec fn fragment_s(&self, pos: Vec3x, normal: Vec3x, time: i64) -> Color {
        let n = noise8_s(Vec3x { x: pos.x, y: 0i64, z: pos.z }, 12);
        Color {
            r: tint_s(200, n, 90) as u8,
            g: tint_s(180, n, 90) as u8,
            b: tint_s(150, n, 90) as u8,
        }
    }

    fn fragment(&self, pos: &Vec3x, normal: &Vec3x, time: i64) -> (c: Color) {
        let n: i64 = noise8(&Vec3x { x: pos.x, y: 0, z: pos.z }, 12);
        Color { r: tint(200, n, 90), g: tint(180, n, 90), b: tint(150, n, 90) }
    }
}

/// Brushed metal for the ship hull.
pub struct SimpleMetallicShader;

impl PlanetShader for SimpleMetallicShader {
    open spec fn fragment_s(&self, pos: Vec3x, normal: Vec3x, time: i64) -> Color {
        lit_surface_s(normal, 2, 180u8, 185u8, 200u8, 25)
    }

    fn fragment(&self, pos: &Vec3x, normal: &Vec3x, time: i64) -> (c: Color) {
        lit_surface(normal, 2, 180, 185, 200, 25)
    }
}

/// Jagged dark rock at high noise frequency.
pub struct AsteroidShader;

impl PlanetShader for AsteroidShader {
    open spec fn fragment_s(&self, pos: Vec3x, normal: Vec3x, time: i64) -> Color {
        lit_surface_s(normal, 12, 110u8, 100u8, 90u8, 90)
    }

    fn fragment(&self, pos: &Vec3x, normal: &Vec3x, time: i64) -> (c: Color) {
        lit_surface(normal, 12, 110, 100, 90, 90)
    }
}

/// The fallback surface for any unnamed rocky body.
pub struct RockyPlanet;

impl PlanetShader for RockyPlanet {
    open spec fn fragment_s(&self, pos: Vec3x, normal: Vec3x, time: i64) -> Color {
        lit_surface_s(normal, 7, 140u8, 110u8, 90u8, 70)
    }

    fn fragment(&self, pos: &Vec3x, normal: &Vec3x, time: i64) -> (c: Color) {
        lit_surface(normal, 7, 140, 110, 90, 70)
    }
}

/// A single flat color, pinned exactly: the simplest shader, handy for
/// callers that need a predictable fill.
pub struct FlatShader {
    /// The color every fragment gets.
    pub color: Color,
}

impl PlanetShader for FlatShader {
    open spec fn fragment_s(&self, pos: Vec3x, normal: Vec3x, time: i64) -> Color {
        self.color
    }

    fn fragment(&self, pos: &Vec3x, normal: &Vec3x, time: i64) -> (c: Color) {
        self.color
    }
}

} // verus!
