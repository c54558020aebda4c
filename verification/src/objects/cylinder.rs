//! The cylinder of radius 1 about the y axis, optionally truncated to the
//! open interval `(min, max)` on y and optionally closed by flat caps.

use vstd::prelude::*;

use crate::constants::EPSILON_RAW;
use crate::constants::FX_SCALE;
use crate::constants::MAX_RAW;
use crate::fx::Fx;
use crate::fx::fx_abs;
use crate::fx::fx_add;
use crate::fx::fx_div;
use crate::fx::fx_mul;
use crate::fx::fx_neg;
use crate::fx::fx_sqrt;
use crate::fx::fx_sub;
use crate::graphics::materials::Material;
use crate::math::point::Point;
use crate::math::ray::Ray;
use crate::math::ray::RayV;
use crate::math::transformations::Transformation;
use crate::math::vector::V3;
use crate::math::vector::Vector;
use crate::objects::intersections::Intersections;
use crate::objects::intersections::all_object;
use crate::objects::intersections::ins_ts;
use crate::objects::intersections::insert_t;
use crate::objects::intersections::sorted_xs;
use crate::objects::intersections::ts_of;
use crate::objects::intersections::xs_matches;
use crate::objects::shape::Shape;
use crate::objects::shape::ShapeType;

verus! {

/// Whether the ray at distance `t` lands within radius 1 of the y axis.
pub open spec fn cyl_check_cap(r: RayV, t: int) -> bool {
    let x = fx_add(r.origin.x, fx_mul(t, r.direction.x));
    let z = fx_add(r.origin.z, fx_mul(t, r.direction.z));
    fx_add(fx_mul(x, x), fx_mul(z, z)) <= FX_SCALE as int
}

/// Distances at which the ray meets the two end-cap disks, folded into
/// the accumulator in sorted position, lower cap tried first; each
/// appears only when it lands within the radius.
pub open spec fn cyl_caps_ts(acc: Seq<int>, r: RayV, min: int, max: int) -> Seq<int> {
    let t_lo = fx_div(fx_sub(min, r.origin.y), r.direction.y);
    let t_hi = fx_div(fx_sub(max, r.origin.y), r.direction.y);
    let acc1 = if cyl_check_cap(r, t_lo) {
        ins_ts(acc, t_lo)
    } else {
        acc
    };
    if cyl_check_cap(r, t_hi) {
        ins_ts(acc1, t_hi)
    } else {
        acc1
    }
}

/// Distances at which an object-space ray meets the cylinder, ordered
/// ascending: a ray parallel to the axis can only meet the caps;
/// otherwise the quadratic in x and z, each root kept only when its y
/// lies strictly within `(min, max)`, plus the caps when closed.  The
/// parallel case yields `None` when no cap is met.
pub open spec fn cylinder_ts(r: RayV, min: int, max: int, closed: bool) -> Option<Seq<int>> {
    let two = 2 * (FX_SCALE as int);
    let four = 4 * (FX_SCALE as int);
    let one = FX_SCALE as int;
    let a = fx_add(fx_mul(r.direction.x, r.direction.x), fx_mul(r.direction.z, r.direction.z));
    if fx_abs(a) < EPSILON_RAW as int {
        if closed {
            let caps = cyl_caps_ts(Seq::empty(), r, min, max);
            if caps.len() == 0 {
                None
            } else {
                Some(caps)
            }
        } else {
            None
        }
    } else {
        let b = fx_add(
            fx_mul(fx_mul(two, r.origin.x), r.direction.x),
            fx_mul(fx_mul(two, r.origin.z), r.direction.z),
        );
        let c = fx_sub(
            fx_add(fx_mul(r.origin.x, r.origin.x), fx_mul(r.origin.z, r.origin.z)),
            one,
        );
        let disc = fx_sub(fx_mul(b, b), fx_mul(fx_mul(four, a), c));
        if disc < 0 {
            None
        } else {
            let i1 = fx_div(fx_sub(fx_neg(b), fx_sqrt(disc)), fx_mul(two, a));
            let i2 = fx_div(fx_add(fx_neg(b), fx_sqrt(disc)), fx_mul(two, a));
            let y1 = fx_add(r.origin.y, fx_mul(i1, r.direction.y));
            let y2 = fx_add(r.origin.y, fx_mul(i2, r.direction.y));
            let s1 = if min < y1 && y1 < max {
                ins_ts(Seq::empty(), i1)
            } else {
                Seq::empty()
            };
            let s2 = if min < y2 && y2 < max {
                ins_ts(s1, i2)
            } else {
                s1
            };
            let s3 = if closed {
                cyl_caps_ts(s2, r, min, max)
            } else {
                s2
            };
            Some(s3)
        }
    }
}

/// Object-space normal: the cap normal near a cap, else the point with
/// its y component dropped.
pub open spec fn cylinder_normal(p: V3, min: int, max: int) -> V3 {
    let one = FX_SCALE as int;
    let dist = fx_add(fx_mul(p.x, p.x), fx_mul(p.z, p.z));
    if dist < one && p.y >= fx_sub(max, EPSILON_RAW as int) {
        V3 { x: 0, y: one, z: 0 }
    } else if dist < one && p.y <= fx_add(min, EPSILON_RAW as int) {
        V3 { x: 0, y: -one, z: 0 }
    } else {
        V3 { x: p.x, y: 0, z: p.z }
    }
}

/// A helper: checks whether the intersection at `intersection` lies
/// within radius 1 of the y axis.
fn check_cap(ray: &Ray, intersection: Fx) -> (r: bool)
    ensures
        r == cyl_check_cap(ray@, intersection@),
{
    let x: Fx = ray.origin.x.add(intersection.mul(ray.direction.x));
    let z: Fx = ray.origin.z.add(intersection.mul(ray.direction.z));
    x.mul(x).add(z.mul(z)).raw <= FX_SCALE
}

/// Mutates `xs` and inserts the cap intersections, if any, in sorted
/// position.
fn intersect_caps(object: Shape, min: Fx, max: Fx, ray: &Ray, xs: &mut Intersections)
    ensures
        ts_of(final(xs).list@) == cyl_caps_ts(ts_of(old(xs).list@), ray@, min@, max@),
        all_object(old(xs).list@, object) ==> all_object(final(xs).list@, object),
        sorted_xs(old(xs).list@) ==> sorted_xs(final(xs).list@),
{
    // intersect the ray with the plane of the lower cap, at y = min
    let intersection: Fx = min.sub(ray.origin.y).div(ray.direction.y);
    if check_cap(ray, intersection) {
        insert_t(xs, intersection, object);
    }
    // intersect the ray with the plane of the upper cap, at y = max
    let intersection2: Fx = max.sub(ray.origin.y).div(ray.direction.y);
    if check_cap(ray, intersection2) {
        insert_t(xs, intersection2, object);
    }
}

/// Local intersection test; see `Shape::intersects` and `cylinder_ts`.
pub fn local_intersects(cylinder: &Shape, ray: &Ray, min: Fx, max: Fx, closed: bool) -> (r: Option<
    Intersections,
>)
    ensures
        xs_matches(r, *cylinder, cylinder_ts(ray@, min@, max@, closed)),
        r is Some ==> sorted_xs(r->Some_0.list@),
{
    let two: Fx = Fx::from_int(2);
    let four: Fx = Fx::from_int(4);
    let a: Fx = ray.direction.x.mul(ray.direction.x).add(ray.direction.z.mul(ray.direction.z));

    let mut xs: Intersections = Intersections { list: Vec::new() };
    let object: Shape = *cylinder;
    proof {
        assert(ts_of(xs.list@) =~= Seq::<int>::empty());
    }

    // a ray parallel to the y axis can still meet the caps
    if a.abs().raw < EPSILON_RAW {
        if closed {
            intersect_caps(object, min, max, ray, &mut xs);
        }
        if xs.list.len() == 0 {
            proof {
                assert(ts_of(xs.list@).len() == 0);
            }
            None
        } else {
            Some(xs)
        }
    } else {
        let b: Fx = two.mul(ray.origin.x).mul(ray.direction.x).add(
            two.mul(ray.origin.z).mul(ray.direction.z),
        );
        let c: Fx = ray.origin.x.mul(ray.origin.x).add(ray.origin.z.mul(ray.origin.z)).sub(
            Fx::one(),
        );
        let disc: Fx = b.mul(b).sub(four.mul(a).mul(c));

        // the ray doesn't intersect the cylinder
        if disc.raw < 0 {
            return None;
        }
        let sq: Fx = disc.sqrt();
        let i1: Fx = b.neg().sub(sq).div(two.mul(a));
        let i2: Fx = b.neg().add(sq).div(two.mul(a));

        let y1: Fx = ray.origin.y.add(i1.mul(ray.direction.y));
        let y2: Fx = ray.origin.y.add(i2.mul(ray.direction.y));

        if min.raw < y1.raw && y1.raw < max.raw {
            insert_t(&mut xs, i1, object);
        }
        if min.raw < y2.raw && y2.raw < max.raw {
            insert_t(&mut xs, i2, object);
        }
        if closed {
            intersect_caps(object, min, max, ray, &mut xs);
        }
        Some(xs)
    }
}

/// Local normal; see `Shape::normal_at` and `cylinder_normal`.
pub fn object_normal_at(_cylinder: &Shape, object_point: Point, min: Fx, max: Fx) -> (r: Vector)
    ensures
        r@ == cylinder_normal(object_point@, min@, max@),
{
    let p: Point = object_point;
    let dist: Fx = p.x.mul(p.x).add(p.z.mul(p.z));
    if dist.raw < FX_SCALE && p.y.raw >= max.sub(Fx { raw: EPSILON_RAW }).raw {
        Vector { x: Fx::zero(), y: Fx::one(), z: Fx::zero() }
    } else if dist.raw < FX_SCALE && p.y.raw <= min.add(Fx { raw: EPSILON_RAW }).raw {
        Vector { x: Fx::zero(), y: Fx::one().neg(), z: Fx::zero() }
    } else {
        Vector { x: p.x, y: Fx::zero(), z: p.z }
    }
}

/// Returns a `Shape` with `shape_type` `Cylinder`.
pub fn new(transformation: Transformation, material: Material, min: Fx, max: Fx, closed: bool) -> (
    r: Shape)
    ensures
        r == (Shape {
            uid: 0,
            transformation,
            material,
            shape_type: ShapeType::Cylinder { min, max, closed },
        }),
{
    Shape::new(transformation, material, ShapeType::Cylinder { min, max, closed })
}

/// Returns a default cylinder: unbounded (the widest representable
/// interval on y) and open.
pub fn default() -> (r: Shape)
    ensures
        r.uid == 0,
        r.transformation@ =~= crate::math::matrix::m_identity(),
        r.material == crate::graphics::materials::default_material(),
        r.shape_type == (ShapeType::Cylinder {
            min: Fx { raw: (-MAX_RAW) as i64 },
            max: Fx { raw: MAX_RAW },
            closed: false,
        }),
{
    let mut s: Shape = Shape::default();
    s.shape_type = ShapeType::Cylinder {
        min: Fx { raw: -MAX_RAW },
        max: Fx { raw: MAX_RAW },
        closed: false,
    };
    s
}

/// Just like `default`, but with the given truncation and caps.
pub fn semi_default(min: Fx, max: Fx, closed: bool) -> (r: Shape)
    ensures
        r.uid == 0,
        r.transformation@ =~= crate::math::matrix::m_identity(),
        r.material == crate::graphics::materials::default_material(),
        r.shape_type == (ShapeType::Cylinder { min, max, closed }),
{
    let mut s: Shape = Shape::default();
    s.shape_type = ShapeType::Cylinder { min, max, closed };
    s
}

} // verus!
