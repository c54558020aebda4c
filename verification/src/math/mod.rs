pub mod matrix;
pub mod point;
pub mod ray;
pub mod transformations;
pub mod vector;
