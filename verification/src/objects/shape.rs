//! The closed polymorphic set of geometric primitives, sharing a uniform
//! contract: local intersection test, local surface normal, a transform, a
//! material, and an identity.

use vstd::prelude::*;

use crate::graphics::color::C3;
use crate::graphics::color::Color;
use crate::graphics::materials::Material;
use crate::graphics::patterns::p_at;
use crate::math::matrix::m_det;
use crate::math::matrix::m_inverse;
use crate::math::matrix::m_mul_point;
use crate::math::matrix::m_mul_vector;
use crate::math::matrix::m_transpose;
use crate::math::point::Point;
use crate::math::ray::Ray;
use crate::math::ray::RayV;
use crate::math::ray::ray_transform;
use crate::math::transformations::Transformation;
use crate::constants::EPSILON_RAW;
use crate::constants::FX_SCALE;
use crate::fx::s_abs;
use crate::math::vector::V3;
use crate::math::vector::Vector;
use crate::math::vector::normalizable;
use crate::math::vector::v_magnitude;
use crate::math::vector::v_normalize;
use crate::objects::cone;
use crate::objects::cube;
use crate::objects::cylinder;
use crate::objects::intersections::Intersections;
use crate::objects::intersections::xs_matches;
use crate::objects::plane;
use crate::objects::sphere;

verus! {

/// Holds the shape kind: the only difference between shapes is which
/// local intersection and normal algorithm applies.  Cylinders and cones
/// carry their open `(min, max)` bounds on y and whether flat caps close
/// them.
#[derive(Clone, Copy, Debug, PartialEq, Eq, Structural)]
pub enum ShapeType {
    Sphere,
    Plane,
    Cube,
    Cylinder { min: crate::fx::Fx, max: crate::fx::Fx, closed: bool },
    Cone { min: crate::fx::Fx, max: crate::fx::Fx, closed: bool },
}

/// A geometric primitive: an identity (distinguishing physically distinct
/// instances of the same geometry), an object-to-world transform, a
/// material, and the shape kind.
#[derive(Clone, Copy, Debug, PartialEq)]
pub struct Shape {
    /// Identity; scene builders assign unique values with `new_shape_id`.
    pub uid: u128,
    /// `Transformation::identity()` is "no transformation".
    pub transformation: Transformation,
    /// `Material`, used for finding `Color`.
    pub material: Material,
    /// Holds the shape kind; see `ShapeType`.
    pub shape_type: ShapeType,
}

/// Draws the next shape identity from a scene-construction counter: the
/// values a counter hands out are unique and increasing while it lives.
pub fn new_shape_id(counter: &mut u128) -> (id: u128)
    requires
        *old(counter) < u128::MAX,
    ensures
        *final(counter) == *old(counter) + 1,
        id == *old(counter) + 1,
{
    *counter = *counter + 1;
    *counter
}

/// The distances at which a ray in world space meets the shape, ordered
/// ascending: the ray is carried into object space by the inverse
/// transform and handed to the kind's local algorithm.  A shape whose
/// transform is singular meets nothing.
#[verifier::opaque]
pub open spec fn spec_intersects(shape: Shape, ray: RayV) -> Option<Seq<int>> {
    if m_det(shape.transformation@) == 0 {
        None
    } else {
        let local_ray = ray_transform(ray, m_inverse(shape.transformation@));
        match shape.shape_type {
            ShapeType::Sphere => sphere::sphere_ts(local_ray),
            ShapeType::Plane => plane::plane_ts(local_ray),
            ShapeType::Cube => cube::cube_ts(local_ray),
            ShapeType::Cylinder { min, max, closed } => cylinder::cylinder_ts(
                local_ray,
                min@,
                max@,
                closed,
            ),
            ShapeType::Cone { min, max, closed } => cone::cone_ts(local_ray, min@, max@, closed),
        }
    }
}

/// The local (object-space) normal of the shape kind at an object-space
/// point.
pub open spec fn spec_local_normal(st: ShapeType, p: V3) -> V3 {
    match st {
        ShapeType::Sphere => sphere::sphere_normal(p),
        ShapeType::Plane => plane::plane_normal(),
        ShapeType::Cube => cube::cube_normal(p),
        ShapeType::Cylinder { min, max, closed } => cylinder::cylinder_normal(p, min@, max@),
        ShapeType::Cone { min, max, closed } => cone::cone_normal(p, min@, max@),
    }
}

/// The world-space normal before normalization: the point goes to object
/// space, and the local normal comes back through the inverse transpose
/// (correct under non-uniform scaling).
pub open spec fn spec_world_normal(shape: Shape, world_point: V3) -> V3 {
    let inv = m_inverse(shape.transformation@);
    let object_point = m_mul_point(inv, world_point);
    let object_normal = spec_local_normal(shape.shape_type, object_point);
    m_mul_vector(m_transpose(inv), object_normal)
}

/// The world-space surface normal: `spec_world_normal`, normalized.
/// `None` exactly when the transform is singular.
#[verifier::opaque]
pub open spec fn spec_normal_at(shape: Shape, world_point: V3) -> Option<V3> {
    if m_det(shape.transformation@) == 0 {
        None
    } else {
        Some(v_normalize(spec_world_normal(shape, world_point)))
    }
}

/// The pattern color at a world-space point: the point goes to object
/// space, then to the pattern's own space.  `None` when the shape has no
/// pattern or either transform is singular.
#[verifier::opaque]
pub open spec fn spec_pattern_at(shape: Shape, world_point: V3) -> Option<C3> {
    if m_det(shape.transformation@) == 0 {
        None
    } else {
        match shape.material.pattern {
            None => None,
            Some(pattern) => {
                if m_det(pattern.transformation@) == 0 {
                    None
                } else {
                    let object_point = m_mul_point(m_inverse(shape.transformation@), world_point);
                    let pattern_point = m_mul_point(
                        m_inverse(pattern.transformation@),
                        object_point,
                    );
                    Some(p_at(pattern, pattern_point))
                }
            },
        }
    }
}

impl Shape {
    /// Returns `Some(Intersections)` tagged with this shape and sorted
    /// ascending by distance, or `None` when there are none, or when the
    /// transform cannot be inverted.
    pub fn intersects(&self, ray: &Ray) -> (r: Option<Intersections>)
        ensures
            xs_matches(r, *self, spec_intersects(*self, ray@)),
            r is Some ==> crate::objects::intersections::sorted_xs(r->Some_0.list@),
    {
        proof {
            reveal(spec_intersects);
        }
        let transformation: Transformation = match self.transformation.inverse() {
            Some(t) => t,
            None => {
                return None;
            },
        };
        let local_ray: Ray = ray.transform(transformation);
        match self.shape_type {
            ShapeType::Sphere => sphere::local_intersects(self, &local_ray),
            ShapeType::Plane => plane::local_intersects(self, &local_ray),
            ShapeType::Cube => cube::local_intersects(self, &local_ray),
            ShapeType::Cylinder { min, max, closed } => cylinder::local_intersects(
                self,
                &local_ray,
                min,
                max,
                closed,
            ),
            ShapeType::Cone { min, max, closed } => cone::local_intersects(
                self,
                &local_ray,
                min,
                max,
                closed,
            ),
        }
    }

    /// Finds the normal at a world-space point; `None` exactly when the
    /// transform cannot be inverted.  For a well-conditioned
    /// pre-normalization normal the result's magnitude is within the
    /// geometric epsilon of exactly one.
    pub fn normal_at(&self, world_point: Point) -> (r: Option<Vector>)
        ensures
            r is Some <==> spec_normal_at(*self, world_point@) is Some,
            r is Some ==> r->Some_0@ == spec_normal_at(*self, world_point@)->Some_0,
            r is Some && normalizable(spec_world_normal(*self, world_point@)) ==> s_abs(
                v_magnitude(r->Some_0@) - FX_SCALE as int,
            ) < EPSILON_RAW as int,
    {
        proof {
            reveal(spec_normal_at);
        }
        let inverse: Transformation = match self.transformation.inverse() {
            Some(t) => t,
            None => {
                return None;
            },
        };
        // converting to object space
        let object_point: Point = inverse.mul_point(&world_point);
        let object_normal: Vector = match self.shape_type {
            ShapeType::Sphere => sphere::object_normal_at(self, object_point),
            ShapeType::Plane => plane::object_normal_at(self, object_point),
            ShapeType::Cube => cube::object_normal_at(self, object_point),
            ShapeType::Cylinder { min, max, closed } => cylinder::object_normal_at(
                self,
                object_point,
                min,
                max,
            ),
            ShapeType::Cone { min, max, closed } => cone::object_normal_at(
                self,
                object_point,
                min,
                max,
            ),
        };
        // converting back to world space
        let world_normal: Vector = inverse.transpose().mul_vector(&object_normal);
        Some(world_normal.normalize())
    }

    /// Finds the pattern `Color` at a world-space point; `None` when the
    /// material has no pattern or a transform cannot be inverted.
    pub fn pattern_at(&self, world_point: Point) -> (r: Option<Color>)
        ensures
            r is Some <==> spec_pattern_at(*self, world_point@) is Some,
            r is Some ==> r->Some_0@ == spec_pattern_at(*self, world_point@)->Some_0,
    {
        proof {
            reveal(spec_pattern_at);
        }
        let inverse: Transformation = match self.transformation.inverse() {
            Some(t) => t,
            None => {
                return None;
            },
        };
        let pattern: crate::graphics::patterns::Pattern = match self.material.pattern {
            Some(p) => p,
            None => {
                return None;
            },
        };
        let pattern_inverse: Transformation = match pattern.transformation.inverse() {
            Some(t) => t,
            None => {
                return None;
            },
        };
        let object_point: Point = inverse.mul_point(&world_point);
        let pattern_point: Point = pattern_inverse.mul_point(&object_point);
        Some(pattern.at(pattern_point))
    }

    /// Returns a new `Shape`; everything is set by the caller except the
    /// identity, which starts at zero until a scene builder assigns one
    /// with `new_shape_id`.
    pub fn new(transformation: Transformation, material: Material, shape_type: ShapeType) -> (r:
        Shape)
        ensures
            r == (Shape { uid: 0, transformation, material, shape_type }),
    {
        Shape { uid: 0, transformation, material, shape_type }
    }
}

impl Default for Shape {
    /// The default `Shape`: a unit sphere with the identity transform and
    /// the default material.
    fn default() -> (r: Shape)
        ensures
            r.uid == 0,
            r.transformation@ =~= crate::math::matrix::m_identity(),
            r.material == crate::graphics::materials::default_material(),
            r.shape_type == ShapeType::Sphere,
    {
        Shape {
            uid: 0,
            transformation: Transformation::identity(),
            material: Material::default(),
            shape_type: ShapeType::Sphere,
        }
    }
}

} // verus!
