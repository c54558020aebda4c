//! The unit sphere at the origin.

use vstd::prelude::*;

use crate::constants::FX_SCALE;
use crate::fx::Fx;
use crate::fx::fx_add;
use crate::fx::fx_div;
use crate::fx::fx_mul;
use crate::fx::fx_neg;
use crate::fx::fx_sqrt;
use crate::fx::fx_sub;
use crate::graphics::materials::Material;
use crate::math::point::Point;
use crate::math::ray::Ray;
use crate::math::ray::RayV;
use crate::math::transformations::Transformation;
use crate::math::vector::V3;
use crate::math::vector::Vector;
use crate::math::vector::v_dot;
use crate::math::vector::v_sub;
use crate::objects::intersections::Intersections;
use crate::objects::intersections::ins_ts;
use crate::objects::intersections::insert_t;
use crate::objects::intersections::sorted_xs;
use crate::objects::intersections::ts_of;
use crate::objects::intersections::xs_matches;
use crate::objects::shape::Shape;
use crate::objects::shape::ShapeType;

verus! {

/// Distances at which an object-space ray meets the unit sphere: the
/// roots of `|O + tD|^2 = 1`, ordered ascending; none when the
/// discriminant is negative (a double root appears twice).
pub open spec fn sphere_ts(r: RayV) -> Option<Seq<int>> {
    let two = 2 * (FX_SCALE as int);
    let four = 4 * (FX_SCALE as int);
    let one = FX_SCALE as int;
    let sphere_to_ray = v_sub(r.origin, V3 { x: 0, y: 0, z: 0 });
    let a = v_dot(r.direction, r.direction);
    let b = fx_mul(two, v_dot(r.direction, sphere_to_ray));
    let c = fx_sub(v_dot(sphere_to_ray, sphere_to_ray), one);
    let disc = fx_sub(fx_mul(b, b), fx_mul(fx_mul(four, a), c));
    if disc < 0 {
        None
    } else {
        let t1 = fx_div(fx_sub(fx_neg(b), fx_sqrt(disc)), fx_mul(two, a));
        let t2 = fx_div(fx_add(fx_neg(b), fx_sqrt(disc)), fx_mul(two, a));
        Some(ins_ts(ins_ts(Seq::empty(), t1), t2))
    }
}

/// Object-space normal: the point minus the origin.
pub open spec fn sphere_normal(p: V3) -> V3 {
    v_sub(p, V3 { x: 0, y: 0, z: 0 })
}

/// Local intersection test; see `Shape::intersects`.
pub fn local_intersects(sphere: &Shape, ray: &Ray) -> (r: Option<Intersections>)
    ensures
        xs_matches(r, *sphere, sphere_ts(ray@)),
        r is Some ==> sorted_xs(r->Some_0.list@),
{
    let sphere_to_ray: Vector = ray.origin.subtract(&crate::math::point::origin());
    let two: Fx = Fx::from_int(2);
    let four: Fx = Fx::from_int(4);

    let a: Fx = ray.direction.dot_product(&ray.direction);
    let b: Fx = two.mul(ray.direction.dot_product(&sphere_to_ray));
    let c: Fx = sphere_to_ray.dot_product(&sphere_to_ray).sub(Fx::one());

    let discriminant: Fx = b.mul(b).sub(four.mul(a).mul(c));

    if discriminant.raw < 0 {
        None
    } else {
        let sq: Fx = discriminant.sqrt();
        let t1: Fx = b.neg().sub(sq).div(two.mul(a));
        let t2: Fx = b.neg().add(sq).div(two.mul(a));
        let object: Shape = *sphere;

        let mut xs: Intersections = Intersections { list: Vec::new() };
        proof {
            assert(ts_of(xs.list@) =~= Seq::<int>::empty());
        }
        insert_t(&mut xs, t1, object);
        insert_t(&mut xs, t2, object);
        Some(xs)
    }
}

/// Local normal; see `Shape::normal_at`.
pub fn object_normal_at(_sphere: &Shape, object_point: Point) -> (r: Vector)
    ensures
        r@ == sphere_normal(object_point@),
{
    object_point.subtract(&crate::math::point::origin())
}

/// Returns a `Shape` with `shape_type` `Sphere`, equivalent to
/// `Shape::new(transformation, material, ShapeType::Sphere)`.
pub fn new(transformation: Transformation, material: Material) -> (r: Shape)
    ensures
        r == (Shape { uid: 0, transformation, material, shape_type: ShapeType::Sphere }),
{
    Shape::new(transformation, material, ShapeType::Sphere)
}

/// Returns a default-material, identity-transform sphere.
pub fn default() -> (r: Shape)
    ensures
        r.uid == 0,
        r.transformation@ =~= crate::math::matrix::m_identity(),
        r.material == crate::graphics::materials::default_material(),
        r.shape_type == ShapeType::Sphere,
{
    Shape::default()
}

/// Returns a glassy sphere: the default sphere, but with transparency 1
/// and refractive index 1.5.
pub fn glass() -> (r: Shape)
    ensures
        r.uid == 0,
        r.transformation@ =~= crate::math::matrix::m_identity(),
        r.material == (Material {
            transparency: Fx { raw: FX_SCALE },
            refractive_index: Fx { raw: 6442450944 },
            ..crate::graphics::materials::default_material()
        }),
        r.shape_type == ShapeType::Sphere,
{
    let mut m: Material = Material::default();
    m.transparency = Fx::one();
    m.refractive_index = Fx { raw: 6442450944 };
    new(Transformation::identity(), m)
}

} // verus!
