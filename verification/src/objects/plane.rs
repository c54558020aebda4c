//! The infinite plane through the origin with normal `+y`.

use vstd::prelude::*;

use crate::constants::EPSILON_RAW;
use crate::constants::FX_SCALE;
use crate::fx::fx_mul;
use crate::fx::fx_sqrt;
use crate::fx::is_isqrt;
use crate::fx::lemma_isqrt_unique;
use crate::math::matrix::m_identity;
use crate::math::matrix::m_inverse;
use crate::math::matrix::m_mul_point;
use crate::math::matrix::m_mul_vector;
use crate::math::matrix::m_transpose;
use crate::math::vector::v_dot;
use crate::math::vector::v_magnitude;
use crate::math::vector::v_normalize;
use crate::fx::Fx;
use crate::fx::fx_abs;
use crate::fx::fx_div;
use crate::fx::fx_neg;
use crate::graphics::materials::Material;
use crate::math::point::Point;
use crate::math::ray::Ray;
use crate::math::ray::RayV;
use crate::math::transformations::Transformation;
use crate::math::vector::V3;
use crate::math::vector::Vector;
use crate::objects::intersections::Intersection;
use crate::objects::intersections::Intersections;
use crate::objects::intersections::sorted_xs;
use crate::objects::intersections::ts_of;
use crate::objects::intersections::xs_matches;
use crate::objects::shape::Shape;
use crate::objects::shape::ShapeType;

verus! {

/// Distances at which an object-space ray meets the plane `y = 0`.  A
/// ray whose y direction lies below epsilon never meets it: that covers
/// both the parallel ray and the coplanar ray, which by convention is a
/// miss.  Otherwise the single distance is `-origin.y / direction.y`.
pub open spec fn plane_ts(r: RayV) -> Option<Seq<int>> {
    if fx_abs(r.direction.y) < EPSILON_RAW as int {
        None
    } else {
        Some(seq![fx_div(fx_neg(r.origin.y), r.direction.y)])
    }
}

/// Planes always have the constant normal `(0, 1, 0)`.
pub open spec fn plane_normal() -> V3 {
    V3 { x: 0, y: FX_SCALE as int, z: 0 }
}

/// Local intersection test; see `Shape::intersects` and `plane_ts`.
pub fn local_intersects(shape: &Shape, ray: &Ray) -> (r: Option<Intersections>)
    ensures
        xs_matches(r, *shape, plane_ts(ray@)),
        r is Some ==> sorted_xs(r->Some_0.list@),
{
    if ray.direction.y.abs().raw < EPSILON_RAW {
        None
    } else {
        let intersects_at: Fx = ray.origin.y.neg().div(ray.direction.y);
        let object: Shape = *shape;
        let intersection: Intersection = Intersection { intersects_at, object };
        let list: Vec<Intersection> = vec![intersection];
        proof {
            assert(ts_of(list@) =~= plane_ts(ray@)->Some_0);
        }
        Some(Intersections { list })
    }
}

/// Local normal; see `Shape::normal_at`.
pub fn object_normal_at(_plane: &Shape, _object_point: Point) -> (r: Vector)
    ensures
        r@ == plane_normal(),
{
    Vector { x: Fx::zero(), y: Fx::one(), z: Fx::zero() }
}

/// Returns a `Shape` with `shape_type` `Plane`.
pub fn new(transformation: Transformation, material: Material) -> (r: Shape)
    ensures
        r == (Shape { uid: 0, transformation, material, shape_type: ShapeType::Plane }),
{
    Shape::new(transformation, material, ShapeType::Plane)
}

/// Returns a default-material, identity-transform plane.
pub fn default() -> (r: Shape)
    ensures
        r.uid == 0,
        r.transformation@ =~= crate::math::matrix::m_identity(),
        r.material == crate::graphics::materials::default_material(),
        r.shape_type == ShapeType::Plane,
{
    let mut s: Shape = Shape::default();
    s.shape_type = ShapeType::Plane;
    s
}

/// A ray whose y direction lies below epsilon never meets the plane,
/// whether parallel beside it or coplanar within it: both are a miss by
/// convention.
pub proof fn lemma_parallel_ray_misses(r: RayV)
    requires
        fx_abs(r.direction.y) < EPSILON_RAW as int,
    ensures
        plane_ts(r) is None,
{
}

/// For an untransformed plane the world-space normal is exactly the unit
/// y vector, whatever point is queried: it has magnitude exactly one and
/// normalization returns it unchanged, so this instance of the unit-length
/// guarantee holds with no rounding at all.
#[verifier::rlimit(100)]
#[verifier::spinoff_prover]
pub proof fn lemma_plane_unit_normal(shape: Shape, p: V3)
    requires
        shape.shape_type is Plane,
        shape.transformation@ == m_identity(),
    ensures
        crate::objects::shape::spec_normal_at(shape, p) == Some(plane_normal()),
{
    reveal(crate::objects::shape::spec_normal_at);
    let one = FX_SCALE as int;
    let ident = m_identity();
    crate::math::matrix::lemma_identity_inverse();
    let inv = m_inverse(ident);
    assert(m_transpose(inv) =~= ident);
    let n = plane_normal();
    crate::fx::lemma_fx_mul_zero(one);
    crate::fx::lemma_fx_mul_zero(n.x);
    vstd::arithmetic::div_mod::lemma_div_basics(one);
    assert(fx_mul(one, one) == one);
    let wn = m_mul_vector(ident, n);
    assert(wn == n);
    assert(v_dot(n, n) == one);
    assert(is_isqrt(one * one, one));
    lemma_isqrt_unique(one * one, one, fx_sqrt(one));
    assert(v_magnitude(n) == one);
    assert(crate::fx::fx_div(0, one) == 0);
    assert(crate::fx::fx_div(one, one) == one);
    assert(v_normalize(n) == n);
}

} // verus!
