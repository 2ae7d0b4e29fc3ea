//! Verified core of a one-shot WebGL scene: a random site set, its Voronoi
//! cells, and the buffers and draw calls that put both on a canvas.
pub mod geometry;
pub mod gl_error;
pub mod render;
pub mod sampling;
pub mod shader;
