//! Point lights.

use vstd::prelude::*;

use crate::graphics::color::Color;
use crate::math::point::Point;

verus! {

/// Point of light in 3D space, with no size; intensity is its `Color`.
#[derive(Clone, Copy, Debug, PartialEq, Eq, Structural)]
pub struct PointLight {
    pub position: Point,
    /// color is also intensity
    pub color: Color,
}

impl PointLight {
    pub fn new(position: Point, color: Color) -> (r: PointLight)
        ensures
            r == (PointLight { position, color }),
    {
        PointLight { position, color }
    }
}

} // verus!
