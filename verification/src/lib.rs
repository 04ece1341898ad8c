//! Verified core of an interactive 3D scene viewer.
//!
//! The library covers the scene/material ingestion pipeline and the GPU
//! resource/pass planning layer: per-vertex tangent-space synthesis, vertex
//! stream interleaving, material uniform encoding, cascade batch planning and
//! frame orchestration. All 32-bit float values are carried as their IEEE 754
//! bit patterns (`u32`), so that the surrounding structure can be verified
//! while the floating-point arithmetic itself is delegated to outside crates
//! behind a small set of trusted wrappers.

pub mod assemble;
pub mod bits;
pub mod cascade;
pub mod frame;
pub mod light;
pub mod material;
pub mod model;
pub mod stream;
pub mod tangent;
pub mod vecmath;
