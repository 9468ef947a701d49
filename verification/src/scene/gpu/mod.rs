//! The GPU-side scene model: packed records and device resources produced
//! by the uploader.

pub mod camera;
pub mod light;
pub mod material;
pub mod mesh;
pub mod scene;

pub use camera::HalaCamera;
pub use light::HalaLight;
pub use material::HalaMaterial;
pub use mesh::{HalaPrimitive, HalaMesh};
pub use scene::HalaScene;
