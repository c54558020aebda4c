//! Procedural, spatially periodic color patterns, sampled in the pattern's
//! own local space.

use vstd::prelude::*;

use crate::fx::Fx;
use crate::fx::fx_add;
use crate::fx::fx_floor;
use crate::fx::fx_floor_even;
use crate::fx::fx_mul;
use crate::fx::fx_sqrt;
use crate::fx::fx_sub;
use crate::fx::fx_units_floor;
use crate::fx::s_abs;
use crate::graphics::color::C3;
use crate::graphics::color::Color;
use crate::graphics::color::c_add;
use crate::graphics::color::c_scale;
use crate::graphics::color::c_sub;
use crate::math::point::Point;
use crate::math::transformations::Transformation;
use crate::math::vector::V3;

verus! {

/// Holds the pattern kind; each samples its two colors differently.
#[derive(Clone, Copy, Debug, PartialEq, Eq, Structural)]
pub enum PatternType {
    /// Zebra-like stripes, alternating along x.
    Stripped,
    /// Gradient between two colors along x's fractional part.
    Gradient,
    /// Circular stripes around the y axis.
    Ring,
    /// Checkers, like chess, but in 3D space too.
    Checker,
}

#[derive(Clone, Copy, Debug, PartialEq, Eq)]
pub struct Pattern {
    pub a: Color,
    pub b: Color,
    pub transformation: Transformation,
    pub pattern_type: PatternType,
}

/// Color of the stripe pattern at a local-space point: `a` where
/// `floor(x)` is even, `b` elsewhere.
pub open spec fn p_stripped(pattern: Pattern, point: V3) -> C3 {
    if fx_floor_even(point.x) {
        pattern.a@
    } else {
        pattern.b@
    }
}

/// Color of the gradient pattern: `a + (b - a) * (x - floor(x))`.
pub open spec fn p_gradient(pattern: Pattern, point: V3) -> C3 {
    let distance = c_sub(pattern.b@, pattern.a@);
    let fraction = fx_sub(point.x, fx_floor(point.x));
    c_add(pattern.a@, c_scale(distance, fraction))
}

/// Color of the ring pattern: alternating with the floor of the distance
/// from the y axis.
pub open spec fn p_ring(pattern: Pattern, point: V3) -> C3 {
    let radius = fx_sqrt(fx_add(fx_mul(point.x, point.x), fx_mul(point.z, point.z)));
    if fx_floor_even(radius) {
        pattern.a@
    } else {
        pattern.b@
    }
}

/// Color of the checker pattern: alternating with the parity of
/// `floor(x) + floor(y) + floor(z)`.
pub open spec fn p_checker(pattern: Pattern, point: V3) -> C3 {
    let u = fx_units_floor(point.x) + fx_units_floor(point.y) + fx_units_floor(point.z);
    if s_abs(u) % 2 == 0 {
        pattern.a@
    } else {
        pattern.b@
    }
}

/// Color of a pattern at a point already in the pattern's local space.
pub open spec fn p_at(pattern: Pattern, point: V3) -> C3 {
    match pattern.pattern_type {
        PatternType::Stripped => p_stripped(pattern, point),
        PatternType::Gradient => p_gradient(pattern, point),
        PatternType::Ring => p_ring(pattern, point),
        PatternType::Checker => p_checker(pattern, point),
    }
}

impl Pattern {
    /// A new `Pattern`.
    pub fn new(a: Color, b: Color, transformation: Transformation, pattern_type: PatternType) -> (r:
        Pattern)
        ensures
            r == (Pattern { a, b, transformation, pattern_type }),
    {
        Pattern { a, b, transformation, pattern_type }
    }

    /// A new `Stripped` pattern.
    pub fn stripped(a: Color, b: Color, transformation: Transformation) -> (r: Pattern)
        ensures
            r == (Pattern { a, b, transformation, pattern_type: PatternType::Stripped }),
    {
        Pattern::new(a, b, transformation, PatternType::Stripped)
    }

    /// A new `Gradient` pattern.
    pub fn gradient(a: Color, b: Color, transformation: Transformation) -> (r: Pattern)
        ensures
            r == (Pattern { a, b, transformation, pattern_type: PatternType::Gradient }),
    {
        Pattern::new(a, b, transformation, PatternType::Gradient)
    }

    /// A new `Ring` pattern.
    pub fn ring(a: Color, b: Color, transformation: Transformation) -> (r: Pattern)
        ensures
            r == (Pattern { a, b, transformation, pattern_type: PatternType::Ring }),
    {
        Pattern::new(a, b, transformation, PatternType::Ring)
    }

    /// A new `Checker` pattern.
    pub fn checker(a: Color, b: Color, transformation: Transformation) -> (r: Pattern)
        ensures
            r == (Pattern { a, b, transformation, pattern_type: PatternType::Checker }),
    {
        Pattern::new(a, b, transformation, PatternType::Checker)
    }

    /// Samples the pattern at a point in the pattern's own local space
    /// (not world or object space).
    pub fn at(&self, pattern_point: Point) -> (r: Color)
        ensures
            r@ == p_at(*self, pattern_point@),
    {
        match self.pattern_type {
            PatternType::Stripped => {
                if pattern_point.x.floor_is_even() {
                    self.a
                } else {
                    self.b
                }
            },
            PatternType::Gradient => {
                let distance: Color = self.b.sub(&self.a);
                let fraction: Fx = pattern_point.x.sub(pattern_point.x.floor());
                self.a.add(&distance.scale(fraction))
            },
            PatternType::Ring => {
                let d: Fx = pattern_point.x.mul(pattern_point.x).add(
                    pattern_point.z.mul(pattern_point.z),
                );
                let radius: Fx = d.sqrt();
                if radius.floor_is_even() {
                    self.a
                } else {
                    self.b
                }
            },
            PatternType::Checker => {
                let ux: i128 = pattern_point.x.units_floor();
                let uy: i128 = pattern_point.y.units_floor();
                let uz: i128 = pattern_point.z.units_floor();
                let u: i128 = ux + uy + uz;
                let m: u128 = if u < 0 {
                    (-u) as u128
                } else {
                    u as u128
                };
                if m % 2 == 0 {
                    self.a
                } else {
                    self.b
                }
            },
        }
    }
}

impl Default for Pattern {
    /// The default pattern: white and black stripes, identity transform.
    fn default() -> (r: Pattern)
        ensures
            r.a@ == (C3 {
                red: crate::constants::FX_SCALE as int,
                green: crate::constants::FX_SCALE as int,
                blue: crate::constants::FX_SCALE as int,
            }),
            r.b@ == crate::graphics::color::c_black(),
            r.transformation@ =~= crate::math::matrix::m_identity(),
            r.pattern_type == PatternType::Stripped,
    {
        Pattern::new(
            crate::graphics::color::white(),
            crate::graphics::color::black(),
            Transformation::identity(),
            PatternType::Stripped,
        )
    }
}

} // verus!
