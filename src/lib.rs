pub mod camera;
pub mod render;
pub mod shading;
