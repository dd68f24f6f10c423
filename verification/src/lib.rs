//! A terminal ray marcher: scenes of signed-distance-field primitives are
//! rendered onto a character grid by sphere marching one ray per cell.
//!
//! Every scalar of the geometry pipeline is an IEEE-754 single-precision
//! value carried as its 32-bit pattern (`u32`). The primitive float
//! operations are performed by the `rustc_apfloat` and `libm` crates,
//! behind trusted wrappers in `fbits`; everything built on top of them —
//! the vector algebra, the distance formulas, the nearest-surface scan,
//! the marching loop, the shading, the frame buffer and the column
//! partitioning of the screen — is verified against exact contracts over
//! those operations.

pub mod camera;
pub mod color;
pub mod distance_field;
pub mod fbits;
pub mod lighting;
pub mod raymarching;
pub mod rotation;
pub mod scene;
pub mod scheduler;
pub mod screen;
pub mod vec3;
