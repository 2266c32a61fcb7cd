//! A software rasterization pipeline over fixed-point coordinates.
//!
//! The crate renders triangle meshes into an owned framebuffer without any
//! GPU: vertices are carried through model, view and projection matrices,
//! perspective-divided, mapped to screen space and filled with
//! depth-buffered, back-face-culled, barycentric-interpolated fragments.
//! All geometry is held in a fixed-point representation with sixteen
//! fractional bits, so every stage has an exact arithmetic meaning that the
//! contracts below state and the verifier checks.

pub mod celestial_body;
pub mod color;
pub mod framebuffer;
pub mod fx;
pub mod laws;
pub mod math;
pub mod mesh;
pub mod renderer;
pub mod shaders;

pub use celestial_body::CelestialType;
pub use color::Color;
pub use framebuffer::Framebuffer;
pub use fx::FX_ONE;
pub use math::Mat4x;
pub use math::Vec3x;
pub use mesh::ObjMesh;
pub use mesh::Vertex;
pub use renderer::Renderer;
