//! The kinds of celestial body a scene can hold.
//!
//! The renderer itself is agnostic to the kind; callers use it to pick
//! a shader and a draw policy for each body.

use vstd::prelude::*;

verus! {

/// The kind of a celestial body.
#[derive(Debug, Clone, Copy, PartialEq, Eq, Structural)]
pub enum CelestialType {
    /// The primary star.
    Star,
    /// A planet.
    Planet,
    /// A natural satellite.
    Moon,
    /// An asteroid or other minor object.
    Asteroid,
}

} // verus!
