//! A small procedural mesh geometry engine: point sampling on solids,
//! hull-based surface construction, wireframe thickening, affine placement,
//! an orbital coordinate model, and scene-level buffer composition.
//!
//! Every real-valued quantity is carried as the bit pattern of an IEEE-754
//! binary64 value in a `u64` (binary32 in a `u32`); see the `scalar` module.

pub mod ball;
pub mod coords;
pub mod cube;
pub mod geometry;
pub mod edges;
pub mod hull;
pub mod mesh;
pub mod placement;
pub mod point;
pub mod scalar;
pub mod scene;
