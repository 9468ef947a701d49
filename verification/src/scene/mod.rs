//! The scene model: the CPU-side description produced by a loader, the
//! GPU-side mirror produced by the uploader, and the uploader itself.

pub mod vertex;
pub mod meshlet;
pub mod cpu;
pub mod gpu;
pub mod loader;

pub use vertex::HalaVertex;
pub use meshlet::HalaMeshlet;
pub use loader::gpu_uploader::HalaSceneGPUUploader;
