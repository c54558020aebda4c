//! A small ray tracer with a verified core.
//!
//! Scalars are fixed-point numbers (32 fractional bits) so that every
//! arithmetic step has an exact mathematical description; each executable
//! function's contract states its result in terms of those descriptions.

pub mod constants;
pub mod fx;
pub mod trig;
pub mod math;
pub mod graphics;
pub mod objects;
pub mod exercises;
