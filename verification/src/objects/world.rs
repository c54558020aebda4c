//! A world of shapes and one point light: merged intersection lists,
//! shadow tests, and the recursive shade / reflect / refract computation,
//! terminated solely by the remaining-bounces counter.

use vstd::prelude::*;

use crate::constants::FX_SCALE;
use crate::fx::Fx;
use crate::fx::fx_div;
use crate::fx::fx_mul;
use crate::fx::fx_sqrt;
use crate::fx::fx_sub;
use crate::graphics::color::C3;
use crate::graphics::color::Color;
use crate::graphics::color::c_add;
use crate::graphics::color::c_black;
use crate::graphics::color::c_scale;
use crate::graphics::lights::PointLight;
use crate::graphics::materials::Material;
use crate::graphics::materials::default_material;
use crate::graphics::materials::spec_lighting;
use crate::math::matrix::m_identity;
use crate::math::point::Point;
use crate::math::ray::Ray;
use crate::math::ray::RayV;
use crate::math::transformations::Transformation;
use crate::math::transformations::t_scaling;
use crate::math::vector::V3;
use crate::math::vector::Vector;
use crate::math::vector::v_dot;
use crate::math::vector::v_magnitude;
use crate::math::vector::v_normalize;
use crate::math::vector::v_scale;
use crate::math::vector::v_sub;
use crate::objects::intersections::Intersection;
use crate::objects::intersections::Intersections;
use crate::objects::intersections::PreCompV;
use crate::objects::intersections::PreComputed;
use crate::objects::intersections::ins_sorted;
use crate::objects::intersections::insert_sorted;
use crate::objects::intersections::sorted_xs;
use crate::objects::intersections::spec_hit;
use crate::objects::intersections::spec_prepare;
use crate::objects::intersections::spec_schlick;
use crate::objects::intersections::ts_of;
use crate::objects::shape::Shape;
use crate::objects::shape::new_shape_id;
use crate::objects::shape::spec_intersects;
use crate::objects::sphere;

verus! {

/// A world of shapes and zero-or-one point light.
#[derive(Clone, Debug, PartialEq)]
pub struct World {
    pub objects: Vec<Shape>,
    pub light: Option<PointLight>,
}

/// Fold one shape's intersection distances into a sorted accumulator, in
/// the order the local algorithm produced them.
pub open spec fn xs_after_shape(acc: Seq<Intersection>, shape: Shape, ts: Seq<int>) -> Seq<
    Intersection,
>
    decreases ts.len(),
{
    if ts.len() == 0 {
        acc
    } else {
        xs_after_shape(
            ins_sorted(acc, Intersection { intersects_at: Fx { raw: ts.first() as i64 }, object: shape }),
            shape,
            ts.drop_first(),
        )
    }
}

/// Fold every shape's intersections into a sorted accumulator, in object
/// order; shapes that meet nothing (or have a singular transform)
/// contribute nothing.
pub open spec fn world_xs(acc: Seq<Intersection>, objects: Seq<Shape>, ray: RayV) -> Seq<
    Intersection,
>
    decreases objects.len(),
{
    if objects.len() == 0 {
        acc
    } else {
        let shape = objects.first();
        let acc2 = match spec_intersects(shape, ray) {
            None => acc,
            Some(ts) => xs_after_shape(acc, shape, ts),
        };
        world_xs(acc2, objects.drop_first(), ray)
    }
}

/// The world's full sorted intersection list for a ray.
pub open spec fn spec_world_intersect(w: World, ray: RayV) -> Seq<Intersection> {
    world_xs(Seq::empty(), w.objects@, ray)
}

/// A point is shadowed when something stands strictly between it and the
/// light; with no light there is no shadow.
pub open spec fn spec_is_shadowed(w: World, point: V3) -> bool {
    match w.light {
        None => false,
        Some(light) => {
            let v = v_sub(light.position@, point);
            let distance = v_magnitude(v);
            let direction = v_normalize(v);
            let xs = spec_world_intersect(w, RayV { origin: point, direction });
            match spec_hit(xs) {
                Some(h) => h.intersects_at@ < distance,
                None => false,
            }
        },
    }
}

/// The color seen along a ray: black on a miss, else the shaded hit.  (A
/// hit always comes from a shape whose transform could be inverted, so
/// the prepared context exists; black stands in for the impossible
/// fallback to keep the function total.)
pub open spec fn spec_color_at(w: World, ray: RayV, remaining: nat) -> C3
    decreases remaining, 3int,
{
    let xs = spec_world_intersect(w, ray);
    match spec_hit(xs) {
        None => c_black(),
        Some(h) => match spec_prepare(h, ray, xs) {
            None => c_black(),
            Some(c) => spec_shade_hit(w, c, remaining),
        },
    }
}

/// The shaded color at a prepared hit: the Phong surface color plus the
/// reflected and refracted contributions; a material both reflective and
/// transparent blends the latter two by the Schlick reflectance.  With no
/// light the world shades to black.
pub open spec fn spec_shade_hit(w: World, c: PreCompV, remaining: nat) -> C3
    decreases remaining, 2int,
{
    match w.light {
        None => c_black(),
        Some(light) => {
            let shadowed = spec_is_shadowed(w, c.over_point);
            let surface = spec_lighting(
                c.object.material,
                c.object,
                light,
                c.over_point,
                c.eyev,
                c.normalv,
                shadowed,
            );
            let reflected = spec_reflected_color(w, c, remaining);
            let refracted = spec_refracted_color(w, c, remaining);
            if c.object.material.reflective@ > 0 && c.object.material.transparency@ > 0 {
                let reflectance = spec_schlick(c);
                c_add(
                    c_add(surface, c_scale(reflected, reflectance)),
                    c_scale(refracted, fx_sub(FX_SCALE as int, reflectance)),
                )
            } else {
                c_add(c_add(reflected, surface), refracted)
            }
        },
    }
}

/// The reflected contribution: black for a non-reflective material or an
/// exhausted bounce budget, else the color along the reflection ray from
/// the over point, with one fewer bounce, scaled by the reflectivity.
pub open spec fn spec_reflected_color(w: World, c: PreCompV, remaining: nat) -> C3
    decreases remaining, 1int,
{
    if c.object.material.reflective@ == 0 || remaining == 0 {
        c_black()
    } else {
        c_scale(
            spec_color_at(
                w,
                RayV { origin: c.over_point, direction: c.reflectv },
                (remaining - 1) as nat,
            ),
            c.object.material.reflective@,
        )
    }
}

/// The refracted contribution: black for an opaque material, an
/// exhausted bounce budget, or total internal reflection; else the color
/// along the Snell refraction ray from the under point, with one fewer
/// bounce, scaled by the transparency.
pub open spec fn spec_refracted_color(w: World, c: PreCompV, remaining: nat) -> C3
    decreases remaining, 1int,
{
    let one = FX_SCALE as int;
    let n_ratio = fx_div(c.n_exit, c.n_enter);
    let cos_i = v_dot(c.eyev, c.normalv);
    let sin2_t = fx_mul(fx_mul(n_ratio, n_ratio), fx_sub(one, fx_mul(cos_i, cos_i)));
    if c.object.material.transparency@ == 0 || remaining == 0 || sin2_t > one {
        c_black()
    } else {
        let cos_t = fx_sqrt(fx_sub(one, sin2_t));
        let direction = v_sub(
            v_scale(c.normalv, fx_sub(fx_mul(n_ratio, cos_i), cos_t)),
            v_scale(c.eyev, n_ratio),
        );
        c_scale(
            spec_color_at(
                w,
                RayV { origin: c.under_point, direction },
                (remaining - 1) as nat,
            ),
            c.object.material.transparency@,
        )
    }
}

impl World {
    /// An empty new world.
    pub fn new() -> (r: World)
        ensures
            r.objects@ =~= Seq::<Shape>::empty(),
            r.light is None,
    {
        World { objects: Vec::new(), light: None }
    }

    /// Intersects every object in the world with the ray; returns the
    /// merged, ascending-sorted intersection list.
    pub fn intersect(&self, ray: Ray) -> (r: Intersections)
        ensures
            r.list@ == spec_world_intersect(*self, ray@),
            sorted_xs(r.list@),
    {
        let mut result: Vec<Intersection> = Vec::new();
        let mut i: usize = 0;
        proof {
            assert(self.objects@.skip(0int) =~= self.objects@);
            assert(result@ =~= Seq::<Intersection>::empty());
        }
        while i < self.objects.len()
            invariant
                0 <= i <= self.objects@.len(),
                sorted_xs(result@),
                world_xs(result@, self.objects@.skip(i as int), ray@) == spec_world_intersect(
                    *self,
                    ray@,
                ),
            decreases self.objects@.len() - i,
        {
            proof {
                assert(self.objects@.skip(i as int).first() == self.objects@[i as int]);
                assert(self.objects@.skip(i as int).drop_first() =~= self.objects@.skip(
                    i as int + 1,
                ));
            }
            let shape: Shape = self.objects[i];
            match shape.intersects(&ray) {
                None => {},
                Some(lxs) => {
                    let ghost ts = spec_intersects(shape, ray@)->Some_0;
                    let mut j: usize = 0;
                    proof {
                        assert(ts.skip(0int) =~= ts);
                    }
                    while j < lxs.list.len()
                        invariant
                            0 <= j <= lxs.list@.len(),
                            ts_of(lxs.list@) == ts,
                            crate::objects::intersections::all_object(lxs.list@, shape),
                            sorted_xs(result@),
                            world_xs(
                                xs_after_shape(result@, shape, ts.skip(j as int)),
                                self.objects@.skip(i as int + 1),
                                ray@,
                            ) == spec_world_intersect(*self, ray@),
                        decreases lxs.list@.len() - j,
                    {
                        proof {
                            assert(ts.skip(j as int).first() == ts[j as int]);
                            assert(ts.skip(j as int).drop_first() =~= ts.skip(j as int + 1));
                            assert(ts_of(lxs.list@)[j as int] == lxs.list@[j as int].intersects_at@);
                            assert(lxs.list@[j as int].intersects_at.raw as int == ts[j as int]);
                            assert(lxs.list@[j as int].intersects_at.raw == ts[j as int] as i64);
                            assert(lxs.list@[j as int].intersects_at == (Fx {
                                raw: ts[j as int] as i64,
                            }));
                            assert(lxs.list@[j as int].object == shape);
                            assert(lxs.list@[j as int] == (Intersection {
                                intersects_at: Fx { raw: ts[j as int] as i64 },
                                object: shape,
                            }));
                        }
                        insert_sorted(&mut result, lxs.list[j]);
                        j = j + 1;
                    }
                    proof {
                        assert(ts.skip(j as int) =~= Seq::<int>::empty());
                    }
                },
            }
            i = i + 1;
        }
        proof {
            assert(self.objects@.skip(i as int) =~= Seq::<Shape>::empty());
        }
        Intersections { list: result }
    }

    /// Returns true if the point lies in shadow.
    pub fn is_shadowed(&self, point: Point) -> (r: bool)
        ensures
            r == spec_is_shadowed(*self, point@),
    {
        match self.light {
            Some(light) => {
                let v: Vector = light.position.subtract(&point);
                let distance: Fx = v.magnitude();
                let direction: Vector = v.normalize();
                let ray: Ray = Ray::new(point, direction);
                let intersections: Intersections = self.intersect(ray);
                match intersections.hit() {
                    Some(hit) => hit.intersects_at.raw < distance.raw,
                    None => false,
                }
            },
            None => false,  // no light, no shadow
        }
    }

    /// Intersects the world with the ray and returns the color at the
    /// resulting hit; `remaining` is the bounce budget that stops the
    /// recursion.
    pub fn color_at(&self, ray: Ray, remaining: usize) -> (r: Color)
        ensures
            r@ == spec_color_at(*self, ray@, remaining as nat),
        decreases remaining, 3int,
    {
        let is: Intersections = self.intersect(ray);
        match is.hit() {
            Some(hit) => {
                match hit.prepare_computations(ray, &is) {
                    Some(comp) => self.shade_hit(&comp, remaining),
                    None => crate::graphics::color::black(),
                }
            },
            None => crate::graphics::color::black(),
        }
    }

    /// Calculates the color at a prepared hit; see `spec_shade_hit`.
    pub fn shade_hit(&self, comps: &PreComputed, remaining: usize) -> (r: Color)
        ensures
            r@ == spec_shade_hit(*self, comps@, remaining as nat),
        decreases remaining, 2int,
    {
        let light: PointLight = match self.light {
            Some(light) => light,
            None => {
                return crate::graphics::color::black();
            },
        };
        let shadowed: bool = self.is_shadowed(comps.over_point);

        // color from the surface
        let surface: Color = comps.object.material.lighting(
            comps.object,
            light,
            comps.over_point,
            comps.eyev,
            comps.normalv,
            shadowed,
        );
        // colors from reflection and refraction
        let reflected: Color = self.reflected_color(comps, remaining);
        let refracted: Color = self.refracted_color(comps, remaining);

        let material: Material = comps.object.material;

        // both reflective and transparent: blend with the Schlick
        // reflectance for the Fresnel effect
        if material.reflective.raw > 0 && material.transparency.raw > 0 {
            let reflectance: Fx = comps.schlick();
            surface.add(&reflected.scale(reflectance)).add(
                &refracted.scale(Fx::one().sub(reflectance)),
            )
        } else {
            reflected.add(&surface).add(&refracted)
        }
    }

    /// The color contributed by the reflected ray; black once `remaining`
    /// reaches zero.  See `spec_reflected_color`.
    pub fn reflected_color(&self, comps: &PreComputed, remaining: usize) -> (r: Color)
        ensures
            r@ == spec_reflected_color(*self, comps@, remaining as nat),
        decreases remaining, 1int,
    {
        if comps.object.material.reflective.raw == 0 || remaining == 0 {
            crate::graphics::color::black()
        } else {
            let reflect_ray: Ray = Ray::new(comps.over_point, comps.reflectv);
            let color: Color = self.color_at(reflect_ray, remaining - 1);
            // "dilute" the color by the reflectivity
            color.scale(comps.object.material.reflective)
        }
    }

    /// The color contributed by the refracted ray; black once `remaining`
    /// reaches zero or under total internal reflection.  See
    /// `spec_refracted_color`.
    pub fn refracted_color(&self, comps: &PreComputed, remaining: usize) -> (r: Color)
        ensures
            r@ == spec_refracted_color(*self, comps@, remaining as nat),
        decreases remaining, 1int,
    {
        // ratio of the refractive index exited to the one entered
        let n_ratio: Fx = comps.refractive_exited.div(comps.refractive_entered);
        let cos_i: Fx = comps.eyev.dot_product(&comps.normalv);
        let sin2_t: Fx = n_ratio.mul(n_ratio).mul(Fx::one().sub(cos_i.mul(cos_i)));

        if comps.object.material.transparency.raw == 0 || remaining == 0 || sin2_t.raw > FX_SCALE {
            crate::graphics::color::black()
        } else {
            // the refracted ray direction, Snell's law in vector form
            let cos_t: Fx = Fx::one().sub(sin2_t).sqrt();
            let direction: Vector = comps.normalv.scale(n_ratio.mul(cos_i).sub(cos_t)).sub(
                &comps.eyev.scale(n_ratio),
            );
            let refract_ray: Ray = Ray::new(comps.under_point, direction);
            self.color_at(refract_ray, remaining - 1).scale(comps.object.material.transparency)
        }
    }
}

impl Default for World {
    /// The canonical default world: a light at `(-10, 10, -10)` and two
    /// concentric spheres, the outer colored `(0.8, 1.0, 0.6)` with
    /// diffuse 0.7 and specular 0.2, the inner scaled by one half.
    fn default() -> (r: World)
        ensures
            r.light == Some(PointLight {
                position: Point {
                    x: Fx { raw: (-42949672960) as i64 },
                    y: Fx { raw: 42949672960 },
                    z: Fx { raw: (-42949672960) as i64 },
                },
                color: Color {
                    red: Fx { raw: FX_SCALE },
                    green: Fx { raw: FX_SCALE },
                    blue: Fx { raw: FX_SCALE },
                },
            }),
            r.objects@.len() == 2,
            r.objects@[0].uid == 1,
            r.objects@[0].transformation@ =~= m_identity(),
            r.objects@[0].material == (Material {
                color: Color {
                    red: Fx { raw: 3435973837 },
                    green: Fx { raw: FX_SCALE },
                    blue: Fx { raw: 2576980378 },
                },
                diffuse: Fx { raw: 3006477107 },
                specular: Fx { raw: 858993459 },
                ..default_material()
            }),
            r.objects@[0].shape_type == crate::objects::shape::ShapeType::Sphere,
            r.objects@[1].uid == 2,
            r.objects@[1].transformation@ =~= t_scaling(2147483648, 2147483648, 2147483648),
            r.objects@[1].material == default_material(),
            r.objects@[1].shape_type == crate::objects::shape::ShapeType::Sphere,
    {
        let mut counter: u128 = 0;
        let light: PointLight = PointLight::new(
            Point::new(Fx::from_int(-10), Fx::from_int(10), Fx::from_int(-10)),
            crate::graphics::color::white(),
        );
        let mut s1: Shape = Shape::default();
        s1.uid = new_shape_id(&mut counter);
        // color (0.8, 1.0, 0.6)
        s1.material.color = Color {
            red: Fx { raw: 3435973837 },
            green: Fx::one(),
            blue: Fx { raw: 2576980378 },
        };
        // diffuse 0.7, specular 0.2
        s1.material.diffuse = Fx { raw: 3006477107 };
        s1.material.specular = Fx { raw: 858993459 };

        let half: Fx = Fx { raw: 2147483648 };
        let mut s2: Shape = sphere::new(
            Transformation::scaling(half, half, half),
            Material::default(),
        );
        s2.uid = new_shape_id(&mut counter);

        let objects: Vec<Shape> = vec![s1, s2];
        World { objects, light: Some(light) }
    }
}

/// The world's light is absent or black.
pub open spec fn black_light(w: World) -> bool {
    match w.light {
        None => true,
        Some(light) => light.color@ == c_black(),
    }
}

/// With a black (or absent) light, every ray shades to black for every
/// recursion budget: the remaining-bounces counter, checked at every
/// recursive call site, terminates even mirror-facing-mirror scenes, and
/// nothing else contributes color.
pub proof fn lemma_black_light_color_at(w: World, ray: RayV, remaining: nat)
    requires
        black_light(w),
    ensures
        spec_color_at(w, ray, remaining) == c_black(),
    decreases remaining, 3int,
{
    let xs = spec_world_intersect(w, ray);
    match spec_hit(xs) {
        None => {},
        Some(h) => {
            match spec_prepare(h, ray, xs) {
                None => {},
                Some(c) => {
                    lemma_black_light_shade_hit(w, c, remaining);
                },
            }
        },
    }
}

/// With a black light a prepared hit shades to black; see
/// `lemma_black_light_color_at`.
pub proof fn lemma_black_light_shade_hit(w: World, c: PreCompV, remaining: nat)
    requires
        black_light(w),
    ensures
        spec_shade_hit(w, c, remaining) == c_black(),
    decreases remaining, 2int,
{
    match w.light {
        None => {},
        Some(light) => {
            crate::graphics::materials::lemma_lighting_black(
                c.object.material,
                c.object,
                light,
                c.over_point,
                c.eyev,
                c.normalv,
                spec_is_shadowed(w, c.over_point),
            );
            lemma_black_light_reflected(w, c, remaining);
            lemma_black_light_refracted(w, c, remaining);
            crate::graphics::color::lemma_scale_black(spec_schlick(c));
            crate::graphics::color::lemma_scale_black(
                fx_sub(FX_SCALE as int, spec_schlick(c)),
            );
        },
    }
}

/// With a black light the reflected contribution is black.
pub proof fn lemma_black_light_reflected(w: World, c: PreCompV, remaining: nat)
    requires
        black_light(w),
    ensures
        spec_reflected_color(w, c, remaining) == c_black(),
    decreases remaining, 1int,
{
    if !(c.object.material.reflective@ == 0 || remaining == 0) {
        lemma_black_light_color_at(
            w,
            RayV { origin: c.over_point, direction: c.reflectv },
            (remaining - 1) as nat,
        );
        crate::graphics::color::lemma_scale_black(c.object.material.reflective@);
    }
}

/// With a black light the refracted contribution is black.
pub proof fn lemma_black_light_refracted(w: World, c: PreCompV, remaining: nat)
    requires
        black_light(w),
    ensures
        spec_refracted_color(w, c, remaining) == c_black(),
    decreases remaining, 1int,
{
    let one = FX_SCALE as int;
    let n_ratio = fx_div(c.n_exit, c.n_enter);
    let cos_i = v_dot(c.eyev, c.normalv);
    let sin2_t = fx_mul(fx_mul(n_ratio, n_ratio), fx_sub(one, fx_mul(cos_i, cos_i)));
    if !(c.object.material.transparency@ == 0 || remaining == 0 || sin2_t > one) {
        let cos_t = fx_sqrt(fx_sub(one, sin2_t));
        let direction = v_sub(
            v_scale(c.normalv, fx_sub(fx_mul(n_ratio, cos_i), cos_t)),
            v_scale(c.eyev, n_ratio),
        );
        lemma_black_light_color_at(
            w,
            RayV { origin: c.under_point, direction },
            (remaining - 1) as nat,
        );
        crate::graphics::color::lemma_scale_black(c.object.material.transparency@);
    }
}

} // verus!
