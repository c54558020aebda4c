//! Rays: an origin point and a direction vector.

use vstd::prelude::*;

use crate::fx::Fx;
use crate::math::matrix::m_mul_point;
use crate::math::matrix::m_mul_vector;
use crate::math::point::Point;
use crate::math::transformations::Transformation;
use crate::math::vector::V3;
use crate::math::vector::Vector;
use crate::math::vector::v_add;
use crate::math::vector::v_scale;

verus! {

/// Mathematical model of a ray.
pub struct RayV {
    pub origin: V3,
    pub direction: V3,
}

#[derive(Clone, Copy, Debug, PartialEq, Eq, Structural)]
pub struct Ray {
    pub origin: Point,
    pub direction: Vector,
}

impl View for Ray {
    type V = RayV;

    open spec fn view(&self) -> RayV {
        RayV { origin: self.origin@, direction: self.direction@ }
    }
}

/// The point reached after travelling `distance` along the ray.
pub open spec fn ray_position(r: RayV, distance: int) -> V3 {
    v_add(r.origin, v_scale(r.direction, distance))
}

/// The ray carried through a transformation.
pub open spec fn ray_transform(r: RayV, m: Seq<int>) -> RayV {
    RayV { origin: m_mul_point(m, r.origin), direction: m_mul_vector(m, r.direction) }
}

impl Ray {
    /// Returns a new `Ray`.
    pub fn new(origin: Point, direction: Vector) -> (r: Ray)
        ensures
            r@ == (RayV { origin: origin@, direction: direction@ }),
    {
        Ray { origin, direction }
    }

    /// Returns the point at `distance` from the origin along the direction.
    pub fn position(&self, distance: Fx) -> (r: Point)
        ensures
            r@ == ray_position(self@, distance@),
    {
        self.origin.displacment(&self.direction.scale(distance))
    }

    /// Carries the ray through a transformation.
    pub fn transform(&self, transformation: Transformation) -> (r: Ray)
        ensures
            r@ == ray_transform(self@, transformation@),
    {
        Ray {
            origin: transformation.mul_point(&self.origin),
            direction: transformation.mul_vector(&self.direction),
        }
    }
}

} // verus!
