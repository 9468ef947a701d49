//! The uploader moving the CPU scene into the GPU scene model.

pub mod gpu_uploader;
