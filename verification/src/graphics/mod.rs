pub mod camera;
pub mod canvas;
pub mod color;
pub mod lights;
pub mod materials;
pub mod patterns;
pub mod ppm;
