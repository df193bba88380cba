//! A software triangle rasterizer: model/view/projection transform,
//! perspective divide, viewport mapping, and depth-tested scan conversion
//! into a framebuffer, all in fixed-point arithmetic.

pub mod color;
pub mod fixed;
pub mod geometry;
pub mod rasterizer;
pub mod triangle;
