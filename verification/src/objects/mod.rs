pub mod cone;
pub mod cube;
pub mod cylinder;
pub mod intersections;
pub mod plane;
pub mod shape;
pub mod sphere;
pub mod world;
