//! The CPU-side scene model: plain data produced by an external loader and
//! consumed read-only by the uploader.

pub mod node;
pub mod material;
pub mod image_data;
pub mod mesh;
pub mod light;
pub mod camera;
pub mod scene;

pub use scene::HalaScene;
