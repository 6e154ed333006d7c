//! Pixel-format catalog and texture resource abstraction.

pub mod pixel;
pub mod sampler;
pub mod shape;
pub mod texture;
