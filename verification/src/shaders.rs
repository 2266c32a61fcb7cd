//! Procedural surface shading.
//!
//! A shader is a pure function of world position, world normal and
//! simulation time to a color — one capability shared by every celestial
//! body. The noise and utility helpers here are integer-exact, so each
//! shader's output is pinned by its specification.

pub mod noise;
pub mod utils;
pub mod planet_shaders;
pub mod star_shaders;

pub use planet_shaders::PlanetShader;
pub use planet_shaders::ClassicSunShader;
pub use planet_shaders::MercuryShader;
pub use planet_shaders::VenusShader;
pub use planet_shaders::EarthShader;
pub use planet_shaders::MarsShader;
pub use planet_shaders::JupiterShader;
pub use planet_shaders::SaturnShader;
pub use planet_shaders::UranusShader;
pub use planet_shaders::NeptuneShader;
pub use planet_shaders::MoonShader;
pub use planet_shaders::RingShader;
pub use planet_shaders::SimpleMetallicShader;
pub use planet_shaders::AsteroidShader;
pub use planet_shaders::RockyPlanet;
