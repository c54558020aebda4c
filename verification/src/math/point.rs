//! Positions in three-dimensional space.

use vstd::prelude::*;

use crate::fx::Fx;
use crate::math::matrix::m_mul_point;
use crate::math::transformations::Transformation;
use crate::math::transformations::t_rotate_x;
use crate::math::transformations::t_rotate_y;
use crate::math::transformations::t_rotate_z;
use crate::math::transformations::t_scaling;
use crate::math::transformations::t_shearing;
use crate::math::transformations::t_translation;
use crate::math::vector::V3;
use crate::math::vector::Vector;
use crate::math::vector::v_add;
use crate::math::vector::v_sub;

verus! {

/// Represents a 3D point in a Cartesian space.
#[derive(Clone, Copy, Debug, PartialEq, Eq, Structural)]
pub struct Point {
    pub x: Fx,
    pub y: Fx,
    pub z: Fx,
}

impl View for Point {
    type V = V3;

    open spec fn view(&self) -> V3 {
        V3 { x: self.x@, y: self.y@, z: self.z@ }
    }
}

/// The origin, `(0, 0, 0)`.
pub fn origin() -> (r: Point)
    ensures
        r@ == (V3 { x: 0, y: 0, z: 0 }),
{
    Point { x: Fx::zero(), y: Fx::zero(), z: Fx::zero() }
}

impl Point {
    /// Creates a new `Point`.
    pub fn new(x: Fx, y: Fx, z: Fx) -> (r: Point)
        ensures
            r@ == (V3 { x: x@, y: y@, z: z@ }),
    {
        Point { x, y, z }
    }

    /// Displaces the `Point` by adding a `Vector` to it.
    pub fn displacment(&self, vector: &Vector) -> (r: Point)
        ensures
            r@ == v_add(self@, vector@),
    {
        Point { x: self.x.add(vector.x), y: self.y.add(vector.y), z: self.z.add(vector.z) }
    }

    /// Displaces the `Point` by subtracting a `Vector` from it.
    pub fn negative_displacment(&self, vector: &Vector) -> (r: Point)
        ensures
            r@ == v_sub(self@, vector@),
    {
        Point { x: self.x.sub(vector.x), y: self.y.sub(vector.y), z: self.z.sub(vector.z) }
    }

    /// Subtracts `self - point2`, giving the `Vector` from `point2` to `self`.
    pub fn subtract(&self, point2: &Point) -> (r: Vector)
        ensures
            r@ == v_sub(self@, point2@),
    {
        Vector { x: self.x.sub(point2.x), y: self.y.sub(point2.y), z: self.z.sub(point2.z) }
    }
}

/// Transformations as a fluent API, allowing chaining.
impl Point {
    /// Equivalent to rotating the point about the x axis by `rad`.
    pub fn rotate_x(self, rad: Fx) -> (r: Point)
        ensures
            r@ == m_mul_point(t_rotate_x(rad@), self@),
    {
        Transformation::rotate_x(rad).mul_point(&self)
    }

    /// Equivalent to rotating the point about the y axis by `rad`.
    pub fn rotate_y(self, rad: Fx) -> (r: Point)
        ensures
            r@ == m_mul_point(t_rotate_y(rad@), self@),
    {
        Transformation::rotate_y(rad).mul_point(&self)
    }

    /// Equivalent to rotating the point about the z axis by `rad`.
    pub fn rotate_z(self, rad: Fx) -> (r: Point)
        ensures
            r@ == m_mul_point(t_rotate_z(rad@), self@),
    {
        Transformation::rotate_z(rad).mul_point(&self)
    }

    /// Equivalent to scaling the point's coordinates.
    pub fn scaling(self, x: Fx, y: Fx, z: Fx) -> (r: Point)
        ensures
            r@ == m_mul_point(t_scaling(x@, y@, z@), self@),
    {
        Transformation::scaling(x, y, z).mul_point(&self)
    }

    /// Equivalent to shearing the point.
    pub fn shearing(self, x_y: Fx, x_z: Fx, y_x: Fx, y_z: Fx, z_x: Fx, z_y: Fx) -> (r: Point)
        ensures
            r@ == m_mul_point(t_shearing(x_y@, x_z@, y_x@, y_z@, z_x@, z_y@), self@),
    {
        Transformation::shearing(x_y, x_z, y_x, y_z, z_x, z_y).mul_point(&self)
    }

    /// Equivalent to translating the point.
    pub fn translation(self, x: Fx, y: Fx, z: Fx) -> (r: Point)
        ensures
            r@ == m_mul_point(t_translation(x@, y@, z@), self@),
    {
        Transformation::translation(x, y, z).mul_point(&self)
    }
}

} // verus!
