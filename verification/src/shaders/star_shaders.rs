//! Star shaders: an alternative sun surface with a paler corona tone.

use vstd::prelude::*;

verus! {

use crate::color::Color;
use crate::math::Vec3x;
use crate::shaders::planet_shaders::PlanetShader;
use crate::shaders::planet_shaders::star_surface;
use crate::shaders::planet_shaders::star_surface_s;

/// The classic sun look in its paler, whiter variant.
pub struct ClassicSunShader;

impl PlanetShader for ClassicSunShader {
    open spec fn fragment_s(&self, pos: Vec3x, normal: Vec3x, time: i64) -> Color {
        star_surface_s(normal, time, 255u8, 230u8, 120u8)
    }

    fn fragment(&self, pos: &Vec3x, normal: &Vec3x, time: i64) -> (c: Color) {
        star_surface(normal, time, 255, 230, 120)
    }
}

} // verus!
