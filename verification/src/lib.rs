//! Management of a fixed-function GPU lighting pipeline: a bounded set of
//! light slots, the state of each light, and the lookup tables that encode
//! attenuation and reflectance curves for the hardware.
//!
//! [`light`] holds the lighting environment and [`lut`] the lookup tables.
//! The other modules hold the rules of the resources that a renderer sets up
//! beside the lighting: vertex attributes and buffers, shaders, texture
//! combiners and textures.
//!
//! Nothing here talks to the hardware. A caller that does keeps the
//! hardware's own structures, asks this crate what to do, and tells it what
//! the hardware answered.
//!
//! Scalars that the hardware reads as IEEE-754 single-precision numbers are
//! carried here by their bit patterns, as `u32`.

pub mod attrib;
pub mod buffer;
pub mod error;
pub mod light;
pub mod lut;
pub mod material;
pub mod math;
pub mod shader;
pub mod slots;
pub mod texenv;
pub mod texture;

pub use error::{Error, Result};
