//! The axis-aligned cube from -1 to 1 on each axis.

use vstd::prelude::*;

use crate::constants::EPSILON_RAW;
use crate::constants::FX_SCALE;
use crate::fx::Fx;
use crate::fx::fx_abs;
use crate::fx::fx_div;
use crate::fx::fx_max;
use crate::fx::fx_min;
use crate::fx::fx_sub;
use crate::graphics::materials::Material;
use crate::math::point::Point;
use crate::math::ray::Ray;
use crate::math::ray::RayV;
use crate::math::transformations::Transformation;
use crate::math::vector::V3;
use crate::math::vector::Vector;
use crate::objects::intersections::Intersection;
use crate::objects::intersections::Intersections;
use crate::objects::intersections::sorted_xs;
use crate::objects::intersections::ts_of;
use crate::objects::intersections::xs_matches;
use crate::objects::shape::Shape;
use crate::objects::shape::ShapeType;

verus! {

/// The entry and exit distances of the ray through one axis slab.  A
/// zero direction component divides by zero, which saturates to the
/// sign-matching extreme, standing in for the infinities of the slab
/// method.
pub open spec fn check_axis_ts(origin: int, direction: int) -> (int, int) {
    let one = FX_SCALE as int;
    let tmin_numerator = fx_sub(-one, origin);
    let tmax_numerator = fx_sub(one, origin);
    let tmin = fx_div(tmin_numerator, direction);
    let tmax = fx_div(tmax_numerator, direction);
    (fx_min(tmax, tmin), fx_max(tmax, tmin))
}

/// Distances at which an object-space ray meets the cube: the slab
/// method; the overall entry is the largest per-axis minimum and the
/// overall exit the smallest per-axis maximum; a miss when entry exceeds
/// exit, else exactly those two distances.
pub open spec fn cube_ts(r: RayV) -> Option<Seq<int>> {
    let xs = check_axis_ts(r.origin.x, r.direction.x);
    let ys = check_axis_ts(r.origin.y, r.direction.y);
    let zs = check_axis_ts(r.origin.z, r.direction.z);
    let tmin = fx_max(fx_max(xs.0, ys.0), zs.0);
    let tmax = fx_min(fx_min(xs.1, ys.1), zs.1);
    if tmin > tmax {
        None
    } else {
        Some(seq![tmin, tmax])
    }
}

/// Object-space normal: the axis of the component with the largest
/// absolute value, ties broken in the order x, y, z.
pub open spec fn cube_normal(p: V3) -> V3 {
    let absx = fx_abs(p.x);
    let absy = fx_abs(p.y);
    let absz = fx_abs(p.z);
    let maxc = fx_max(fx_max(absx, absy), absz);
    if fx_abs(fx_sub(maxc, absx)) < EPSILON_RAW as int {
        V3 { x: p.x, y: 0, z: 0 }
    } else if fx_abs(fx_sub(maxc, absy)) < EPSILON_RAW as int {
        V3 { x: 0, y: p.y, z: 0 }
    } else {
        V3 { x: 0, y: 0, z: p.z }
    }
}

/// One axis slab; see `check_axis_ts`.
fn check_axis(origin: Fx, direction: Fx) -> (r: (Fx, Fx))
    ensures
        r.0@ == check_axis_ts(origin@, direction@).0,
        r.1@ == check_axis_ts(origin@, direction@).1,
{
    let tmin_numerator: Fx = Fx::one().neg().sub(origin);
    let tmax_numerator: Fx = Fx::one().sub(origin);
    let tmin: Fx = tmin_numerator.div(direction);
    let tmax: Fx = tmax_numerator.div(direction);
    (tmax.min(tmin), tmax.max(tmin))
}

/// Local intersection test; see `Shape::intersects` and `cube_ts`.
pub fn local_intersects(cube: &Shape, ray: &Ray) -> (r: Option<Intersections>)
    ensures
        xs_matches(r, *cube, cube_ts(ray@)),
        r is Some ==> sorted_xs(r->Some_0.list@),
{
    let xt: (Fx, Fx) = check_axis(ray.origin.x, ray.direction.x);
    let yt: (Fx, Fx) = check_axis(ray.origin.y, ray.direction.y);
    let zt: (Fx, Fx) = check_axis(ray.origin.z, ray.direction.z);

    let tmin: Fx = xt.0.max(yt.0).max(zt.0);
    let tmax: Fx = xt.1.min(yt.1).min(zt.1);

    if tmin.raw > tmax.raw {
        None
    } else {
        let object: Shape = *cube;
        let list: Vec<Intersection> = vec![
            Intersection { intersects_at: tmin, object },
            Intersection { intersects_at: tmax, object },
        ];
        proof {
            assert(ts_of(list@) =~= cube_ts(ray@)->Some_0);
        }
        Some(Intersections { list })
    }
}

/// Local normal; see `Shape::normal_at` and `cube_normal`.
pub fn object_normal_at(_cube: &Shape, object_point: Point) -> (r: Vector)
    ensures
        r@ == cube_normal(object_point@),
{
    let absx: Fx = object_point.x.abs();
    let absy: Fx = object_point.y.abs();
    let absz: Fx = object_point.z.abs();
    let maxc: Fx = absx.max(absy).max(absz);

    if maxc.sub(absx).abs().raw < EPSILON_RAW {
        Vector { x: object_point.x, y: Fx::zero(), z: Fx::zero() }
    } else if maxc.sub(absy).abs().raw < EPSILON_RAW {
        Vector { x: Fx::zero(), y: object_point.y, z: Fx::zero() }
    } else {
        Vector { x: Fx::zero(), y: Fx::zero(), z: object_point.z }
    }
}

/// Returns a `Shape` with `shape_type` `Cube`.
pub fn new(transformation: Transformation, material: Material) -> (r: Shape)
    ensures
        r == (Shape { uid: 0, transformation, material, shape_type: ShapeType::Cube }),
{
    Shape::new(transformation, material, ShapeType::Cube)
}

/// Returns a default-material, identity-transform cube.
pub fn default() -> (r: Shape)
    ensures
        r.uid == 0,
        r.transformation@ =~= crate::math::matrix::m_identity(),
        r.material == crate::graphics::materials::default_material(),
        r.shape_type == ShapeType::Cube,
{
    let mut s: Shape = Shape::default();
    s.shape_type = ShapeType::Cube;
    s
}

} // verus!
