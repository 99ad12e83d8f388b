//! Quad geometry handed to the engine.
//!
//! Corner coordinates are produced by the caller's 2D math layer already in
//! normalized device space.  The engine never does arithmetic on them: it
//! only copies them into vertices.  Each coordinate is therefore carried as
//! the bit pattern of an IEEE-754 single-precision value, which the driver
//! converts with `f32::to_bits` / `f32::from_bits` at the boundary.

use vstd::prelude::*;

verus! {

/// A two-component vector; each component is the bit pattern of a 32-bit
/// float.
#[derive(Debug, Clone, Copy, PartialEq, Eq, Structural)]
pub struct Vec2 {
    pub x: u32,
    pub y: u32,
}

/// Quad of points.
#[derive(Debug, Clone, Copy, PartialEq, Eq, Structural)]
pub struct Quad {
    pub top_left: Vec2,
    pub bottom_left: Vec2,
    pub bottom_right: Vec2,
    pub top_right: Vec2,
}

} // verus!
