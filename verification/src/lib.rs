//! Host-side logic of a set of small `wgpu` compute experiments: buffer
//! sizes and layouts, uniform constants, workgroup counts, shape checks,
//! seeded pseudo-random initialisation, argument handling and image files.
//! The GPU calls themselves live in the application around this library.

pub mod bytes;
pub mod boids;
pub mod dispatch;
pub mod heat;
pub mod math;
pub mod mlp;
pub mod nn;
pub mod raytrace;
pub mod rng;
pub mod sheet;
pub mod training;

pub use bytes::{le_words_from_bytes, le_words_in, words_to_bytes, FLOAT_BYTES};
