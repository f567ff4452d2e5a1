//! Description of a surface material, as the lighting environment takes it.

use vstd::prelude::*;

verus! {

/// A colour of three scalar channels, each carried by its bit pattern.
#[derive(Clone, Copy, Debug, PartialEq, Eq, Structural)]
pub struct Color {
    pub r: u32,
    pub g: u32,
    pub b: u32,
}

impl Color {
    /// The colour with the given channels.
    pub fn new(r: u32, g: u32, b: u32) -> (c: Self)
        ensures
            c == (Color { r, g, b }),
    {
        Color { r, g, b }
    }
}

/// How a surface answers to light. A channel that is left out takes the
/// hardware's default.
#[derive(Clone, Copy, Debug, PartialEq, Eq, Structural)]
pub struct Material {
    pub ambient: Option<Color>,
    pub diffuse: Option<Color>,
    pub specular0: Option<Color>,
    pub specular1: Option<Color>,
    pub emission: Option<Color>,
}

} // verus!
