//! Phong materials and the local illumination formula.

use vstd::prelude::*;

use crate::constants::FX_SCALE;
use crate::fx::Fx;
use crate::fx::fx_mul;
use crate::fx::fx_powi;
use crate::graphics::color::C3;
use crate::graphics::color::Color;
use crate::graphics::color::c_add;
use crate::graphics::color::c_black;
use crate::graphics::color::c_mul;
use crate::graphics::color::c_scale;
use crate::graphics::lights::PointLight;
use crate::graphics::patterns::Pattern;
use crate::math::point::Point;
use crate::math::vector::V3;
use crate::math::vector::Vector;
use crate::math::vector::v_dot;
use crate::math::vector::v_neg;
use crate::math::vector::v_normalize;
use crate::math::vector::v_reflect;
use crate::math::vector::v_sub;
use crate::objects::shape::Shape;
use crate::objects::shape::spec_pattern_at;

verus! {

/// Bui Tuong Phong material.
#[derive(Clone, Copy, Debug, PartialEq)]
pub struct Material {
    pub color: Color,
    /// Value between 0 and 1, default: 0.1.
    pub ambient: Fx,
    /// Value between 0 and 1, default: 0.9.
    pub diffuse: Fx,
    /// Value between 0 and 1, default: 0.9.
    pub specular: Fx,
    /// Values between 10 and 200 work best; default: 200.
    pub shininess: Fx,
    /// Value between 0 and 1: 0 is non-reflective, 1 a perfect mirror.
    pub reflective: Fx,
    /// Transparency: 0 is opaque, 1 is (perfectly) transparent.
    pub transparency: Fx,
    /// Refractive index.
    pub refractive_index: Fx,
    /// Optional pattern; when set it replaces the flat color.
    pub pattern: Option<Pattern>,
}

/// The specular exponent taken from the shininess scalar: its whole-unit
/// part, never negative, capped so that exponentiation stays cheap.
pub open spec fn s_shin_exp(sh: int) -> nat {
    if sh < 0 {
        0
    } else {
        let u = sh / (FX_SCALE as int);
        if u > 100000 {
            100000
        } else {
            u as nat
        }
    }
}

/// The default material: white, ambient 0.1, diffuse 0.9, specular 0.9,
/// shininess 200, neither reflective nor transparent, refractive index 1.
pub open spec fn default_material() -> Material {
    Material {
        color: Color {
            red: Fx { raw: FX_SCALE },
            green: Fx { raw: FX_SCALE },
            blue: Fx { raw: FX_SCALE },
        },
        ambient: Fx { raw: 429496730 },
        diffuse: Fx { raw: 3865470566 },
        specular: Fx { raw: 3865470566 },
        shininess: Fx { raw: 858993459200 },
        reflective: Fx { raw: 0 },
        transparency: Fx { raw: 0 },
        refractive_index: Fx { raw: FX_SCALE },
        pattern: None,
    }
}

/// The Phong lighting formula: the pattern or flat color is combined with
/// the light's color; the ambient term always contributes; the diffuse and
/// specular terms vanish in shadow or when the light is behind the
/// surface; the specular term additionally vanishes when the reflected
/// light points away from the eye.  A degenerate pattern transform leaves
/// the flat color (a hit shape itself always has an invertible transform).
pub open spec fn spec_lighting(
    m: Material,
    object: Shape,
    light: PointLight,
    position: V3,
    eye: V3,
    normal: V3,
    in_shadow: bool,
) -> C3 {
    let color = if m.pattern is Some {
        match spec_pattern_at(object, position) {
            Some(c) => c,
            None => m.color@,
        }
    } else {
        m.color@
    };
    let effective = c_mul(color, light.color@);
    let lightv = v_normalize(v_sub(light.position@, position));
    let ambient = c_scale(effective, m.ambient@);
    let ldn = v_dot(lightv, normal);
    if in_shadow || ldn < 0 {
        c_add(c_add(ambient, c_black()), c_black())
    } else {
        let diffuse = c_scale(c_scale(effective, m.diffuse@), ldn);
        let reflectv = v_neg(v_reflect(lightv, normal));
        let rde = v_dot(reflectv, eye);
        let specular = if rde <= 0 {
            c_black()
        } else {
            c_scale(c_scale(light.color@, m.specular@), fx_powi(rde, s_shin_exp(m.shininess@)))
        };
        c_add(c_add(ambient, diffuse), specular)
    }
}

impl Material {
    pub fn new(
        color: Color,
        ambient: Fx,
        diffuse: Fx,
        specular: Fx,
        shininess: Fx,
        reflective: Fx,
        transparency: Fx,
        refractive_index: Fx,
        pattern: Option<Pattern>,
    ) -> (r: Material)
        ensures
            r == (Material {
                color,
                ambient,
                diffuse,
                specular,
                shininess,
                reflective,
                transparency,
                refractive_index,
                pattern,
            }),
    {
        Material {
            ambient,
            color,
            diffuse,
            specular,
            shininess,
            reflective,
            transparency,
            refractive_index,
            pattern,
        }
    }

    /// The default material.
    pub fn default() -> (r: Material)
        ensures
            r == default_material(),
    {
        Material {
            color: Color {
                red: Fx { raw: FX_SCALE },
                green: Fx { raw: FX_SCALE },
                blue: Fx { raw: FX_SCALE },
            },
            ambient: Fx { raw: 429496730 },
            diffuse: Fx { raw: 3865470566 },
            specular: Fx { raw: 3865470566 },
            shininess: Fx { raw: 858993459200 },
            reflective: Fx { raw: 0 },
            transparency: Fx { raw: 0 },
            refractive_index: Fx { raw: FX_SCALE },
            pattern: None,
        }
    }

    /// Phong local illumination at `position` on `object`.
    pub fn lighting(
        &self,
        object: Shape,
        light: PointLight,
        position: Point,
        eye: Vector,
        normal: Vector,
        in_shadow: bool,
    ) -> (r: Color)
        ensures
            r@ == spec_lighting(*self, object, light, position@, eye@, normal@, in_shadow),
    {
        let color: Color = if self.pattern.is_some() {
            match object.pattern_at(position) {
                Some(c) => c,
                None => self.color,
            }
        } else {
            self.color
        };
        // combine the surface color with the light's color
        let effective_color: Color = color.mul(&light.color);
        // find the direction to the light source
        let lightv: Vector = light.position.subtract(&position).normalize();
        // the ambient contribution
        let ambient: Color = effective_color.scale(self.ambient);
        // the cosine of the angle between the light vector and the normal;
        // negative means the light is on the other side of the surface
        let light_dot_normal: Fx = lightv.dot_product(&normal);
        let diffuse: Color;
        let specular: Color;
        if in_shadow || light_dot_normal.raw < 0 {
            diffuse = crate::graphics::color::black();
            specular = crate::graphics::color::black();
        } else {
            diffuse = effective_color.scale(self.diffuse).scale(light_dot_normal);
            // the cosine of the angle between the reflected light and the
            // eye; negative means the light reflects away from the eye
            let reflectv: Vector = lightv.reflect(normal).negate();
            let reflect_dot_eye: Fx = reflectv.dot_product(&eye);
            if reflect_dot_eye.raw <= 0 {
                specular = crate::graphics::color::black();
            } else {
                let factor: Fx = reflect_dot_eye.powi(self.shininess_exponent());
                specular = light.color.scale(self.specular).scale(factor);
            }
        }
        ambient.add(&diffuse).add(&specular)
    }

    /// The whole-unit part of the shininess, as the specular exponent.
    fn shininess_exponent(&self) -> (e: u64)
        ensures
            e as nat == s_shin_exp(self.shininess@),
    {
        if self.shininess.raw < 0 {
            0
        } else {
            let u: i64 = self.shininess.raw / FX_SCALE;
            if u > 100000 {
                100000
            } else {
                u as u64
            }
        }
    }
}

/// With a black light the Phong formula yields black whatever the
/// material, the point, the vectors and the shadow flag: every term is a
/// product with a channel of the light's color (or of the effective
/// color, which the light's color already zeroes).
pub proof fn lemma_lighting_black(
    m: Material,
    object: Shape,
    light: PointLight,
    position: V3,
    eye: V3,
    normal: V3,
    in_shadow: bool,
)
    requires
        light.color@ == c_black(),
    ensures
        spec_lighting(m, object, light, position, eye, normal, in_shadow) == c_black(),
{
    let color = if m.pattern is Some {
        match spec_pattern_at(object, position) {
            Some(c) => c,
            None => m.color@,
        }
    } else {
        m.color@
    };
    crate::graphics::color::lemma_mul_black(color);
    crate::graphics::color::lemma_scale_black(m.ambient@);
    crate::graphics::color::lemma_scale_black(m.diffuse@);
    let lightv = v_normalize(v_sub(light.position@, position));
    let ldn = v_dot(lightv, normal);
    crate::graphics::color::lemma_scale_black(ldn);
    crate::graphics::color::lemma_scale_black(m.specular@);
    let reflectv = v_neg(v_reflect(lightv, normal));
    let rde = v_dot(reflectv, eye);
    crate::graphics::color::lemma_scale_black(fx_powi(rde, s_shin_exp(m.shininess@)));
}

} // verus!
