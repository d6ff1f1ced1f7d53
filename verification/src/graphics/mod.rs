pub mod camera;
pub mod gpu;
pub mod point;
pub mod ray;
pub mod texture;
pub mod vector;
pub mod window;
pub mod wgpu_helpers;
