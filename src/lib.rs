//! Small fixed-size integer vectors: 4-component vectors over `i32` and `u32`,
//! their 2- and 3-component companions, and comparison masks.

pub mod arith;
pub mod cast;
pub mod ivec;
pub mod mask;
pub mod text;
pub mod uvec;

pub use ivec::{ivec4, IVec2, IVec3, IVec4};
pub use mask::BVec4;
pub use uvec::{uvec4, UVec2, UVec3, UVec4};
