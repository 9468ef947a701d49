//! A verified scene-upload layer for a GPU renderer.
//!
//! The crate mirrors a CPU-side scene description (nodes, meshes, materials,
//! lights, cameras, image data) into a GPU-side scene model: packed records,
//! device buffers, samplers, images, optional meshlet clusters for mesh
//! shading, and optional two-level acceleration structures for ray tracing.
//!
//! Scalar quantities are carried as IEEE-754 single-precision bit patterns
//! (`u32`), so every structural decision of the pipeline is verified; the
//! floating-point arithmetic itself is performed by `glam` behind a small set
//! of trusted wrappers.

pub mod error;
pub mod bytes;
pub mod float_bits;
pub mod math;
pub mod renderer;
pub mod raytracing_program;
pub mod gfx;
pub mod scene;

pub use error::HalaRendererError;
pub use raytracing_program::{HalaRayTracingHitShaderDesc, HalaRayTracingProgramDesc};
pub use renderer::{HalaRendererInfo, HalaRendererData, HalaRendererStatistics, HalaEnvType};
pub use scene::HalaSceneGPUUploader;
