//! Direction vectors in three-dimensional space.

use vstd::prelude::*;

use crate::constants::EPSILON_RAW;
use crate::constants::FX_SCALE;
use crate::fx::Fx;
use crate::fx::fx_add;
use crate::fx::fx_div;
use crate::fx::fx_mul;
use crate::fx::fx_neg;
use crate::fx::fx_sqrt;
use crate::fx::fx_sub;
use crate::fx::is_isqrt;
use crate::fx::lemma_fx_sqrt_is_isqrt;
use crate::fx::s_abs;

verus! {

/// Mathematical model of a vector or point: the three raw coordinates.
pub struct V3 {
    pub x: int,
    pub y: int,
    pub z: int,
}

/// A direction in three-dimensional space.
#[derive(Clone, Copy, Debug, PartialEq, Eq, Structural)]
pub struct Vector {
    pub x: Fx,
    pub y: Fx,
    pub z: Fx,
}

impl View for Vector {
    type V = V3;

    open spec fn view(&self) -> V3 {
        V3 { x: self.x@, y: self.y@, z: self.z@ }
    }
}

pub open spec fn v_add(a: V3, b: V3) -> V3 {
    V3 { x: fx_add(a.x, b.x), y: fx_add(a.y, b.y), z: fx_add(a.z, b.z) }
}

pub open spec fn v_sub(a: V3, b: V3) -> V3 {
    V3 { x: fx_sub(a.x, b.x), y: fx_sub(a.y, b.y), z: fx_sub(a.z, b.z) }
}

pub open spec fn v_neg(a: V3) -> V3 {
    V3 { x: fx_neg(a.x), y: fx_neg(a.y), z: fx_neg(a.z) }
}

pub open spec fn v_scale(a: V3, s: int) -> V3 {
    V3 { x: fx_mul(a.x, s), y: fx_mul(a.y, s), z: fx_mul(a.z, s) }
}

pub open spec fn v_dot(a: V3, b: V3) -> int {
    fx_add(fx_add(fx_mul(a.x, b.x), fx_mul(a.y, b.y)), fx_mul(a.z, b.z))
}

pub open spec fn v_cross(a: V3, b: V3) -> V3 {
    V3 {
        x: fx_sub(fx_mul(a.y, b.z), fx_mul(a.z, b.y)),
        y: fx_sub(fx_mul(a.z, b.x), fx_mul(a.x, b.z)),
        z: fx_sub(fx_mul(a.x, b.y), fx_mul(a.y, b.x)),
    }
}

pub open spec fn v_magnitude(a: V3) -> int {
    fx_sqrt(v_dot(a, a))
}

/// Each coordinate divided by the magnitude; the zero vector maps to itself.
pub open spec fn v_normalize(a: V3) -> V3 {
    let m = v_magnitude(a);
    V3 { x: fx_div(a.x, m), y: fx_div(a.y, m), z: fx_div(a.z, m) }
}

/// Reflect `a` about the normal `n`: `a - n * (2 * dot(a, n))`.
pub open spec fn v_reflect(a: V3, n: V3) -> V3 {
    let d = v_dot(a, n);
    v_sub(a, v_scale(n, fx_add(d, d)))
}


/// The hypotheses under which normalization is numerically clean: every
/// coordinate small enough that its square cannot saturate (at most
/// about thirty-two thousand in value), and a squared length of at
/// least `2^20` raw units (a magnitude of at least about `0.016`).
pub open spec fn normalizable(a: V3) -> bool {
    &&& s_abs(a.x) <= 70368744177664
    &&& s_abs(a.y) <= 70368744177664
    &&& s_abs(a.z) <= 70368744177664
    &&& v_dot(a, a) >= 1048576
}

/// A fixed-point square under the coordinate bound: exactly the true
/// square scaled down (truncating), well below saturation.
proof fn lemma_sq_fact(x: int)
    requires
        s_abs(x) <= 70368744177664,
    ensures
        0 <= fx_mul(x, x) <= 1152921504606846976,
        0 <= x * x <= 4951760157141521099596496896,
        s_abs(x) * s_abs(x) == x * x,
        (FX_SCALE as int) * fx_mul(x, x) <= x * x,
        x * x < (FX_SCALE as int) * (fx_mul(x, x) + 1),
{
    let s = FX_SCALE as int;
    assert(s_abs(x) * s_abs(x) == x * x) by (nonlinear_arith);
    assert(0 <= x * x <= 4951760157141521099596496896) by (nonlinear_arith)
        requires
            s_abs(x) <= 70368744177664,
            s_abs(x) * s_abs(x) == x * x,
    ;
    let q = (x * x) / s;
    vstd::arithmetic::div_mod::lemma_fundamental_div_mod(x * x, s);
    assert(s * q <= x * x && x * x < s * (q + 1));
    assert(0 <= q <= 1152921504606846976);
    assert(crate::fx::s_clip_mag(q) == q);
}

/// A fixed-point division by the magnitude under the length hypotheses:
/// exactly the scaled-up true quotient (truncating), with its magnitude
/// barely above one.
proof fn lemma_div_fact(x: int, m: int)
    requires
        67108864 <= m < 140737488355328,
        x * x <= (m + 1) * (m + 1) + 3 * (FX_SCALE as int),
    ensures
        ({
            let s = FX_SCALE as int;
            let q = (s_abs(x) * s) / m;
            &&& s_abs(fx_div(x, m)) == q
            &&& fx_div(x, m) * fx_div(x, m) == q * q
            &&& 0 <= q <= s + 8388608
            &&& m * q <= s_abs(x) * s
            &&& s_abs(x) * s < m * (q + 1)
        }),
{
    let s = FX_SCALE as int;
    let ax = s_abs(x);
    assert(ax * ax == x * x) by (nonlinear_arith)
        requires
            ax == x || ax == -x,
    ;
    assert(ax <= m + 131072) by (nonlinear_arith)
        requires
            0 <= ax,
            ax * ax <= (m + 1) * (m + 1) + 3 * (FX_SCALE as int),
            m >= 67108864,
    ;
    let q = (ax * s) / m;
    vstd::arithmetic::div_mod::lemma_fundamental_div_mod(ax * s, m);
    vstd::arithmetic::div_mod::lemma_mod_division_less_than_divisor(ax * s, m);
    assert(m * q <= ax * s && ax * s < m * (q + 1)) by (nonlinear_arith)
        requires
            ax * s == m * q + (ax * s) % m,
            0 <= (ax * s) % m < m,
    ;
    assert(0 <= q) by (nonlinear_arith)
        requires
            ax * s < m * (q + 1),
            0 <= ax * s,
            m >= 1,
    ;
    assert(q <= s + 8388608) by (nonlinear_arith)
        requires
            m * q <= ax * s,
            ax <= m + 131072,
            m >= 67108864,
            s == 4294967296,
    ;
    assert(crate::fx::s_clip_mag(q) == q);
    assert(fx_div(x, m) * fx_div(x, m) == q * q) by (nonlinear_arith)
        requires
            fx_div(x, m) == q || fx_div(x, m) == -q,
    ;
}

/// Normalizing a well-conditioned vector yields a vector whose magnitude
/// is exactly one up to a few thousand raw units, far within the
/// geometric epsilon: the general unit-length guarantee behind surface
/// normals and camera rays.
#[verifier::rlimit(100)]
#[verifier::spinoff_prover]
pub proof fn lemma_normalize_unit(a: V3)
    requires
        normalizable(a),
    ensures
        (FX_SCALE as int) - 8320 <= v_magnitude(v_normalize(a)),
        v_magnitude(v_normalize(a)) <= (FX_SCALE as int) + 8320,
        s_abs(v_magnitude(v_normalize(a)) - FX_SCALE as int) < EPSILON_RAW as int,
{
    let s = FX_SCALE as int;
    lemma_sq_fact(a.x);
    lemma_sq_fact(a.y);
    lemma_sq_fact(a.z);
    let qq = a.x * a.x + a.y * a.y + a.z * a.z;
    let d = v_dot(a, a);
    assert(d == fx_mul(a.x, a.x) + fx_mul(a.y, a.y) + fx_mul(a.z, a.z));
    assert(s * d <= qq && qq < s * (d + 3));
    assert(d >= 1048576);

    // the magnitude of the input
    lemma_fx_sqrt_is_isqrt(d);
    let m = fx_sqrt(d);
    assert(m >= 0 && m * m <= d * s && d * s < (m + 1) * (m + 1));
    assert(m >= 67108864) by (nonlinear_arith)
        requires
            d * s < (m + 1) * (m + 1),
            d >= 1048576,
            s == 4294967296,
            m >= 0,
    ;
    assert(m < 140737488355328) by (nonlinear_arith)
        requires
            m * m <= d * s,
            s * d <= qq,
            qq <= 3 * 4951760157141521099596496896,
            m >= 0,
    ;

    // the normalized components are scaled-up true quotients
    assert(a.x * a.x <= (m + 1) * (m + 1) + 3 * s);
    assert(a.y * a.y <= (m + 1) * (m + 1) + 3 * s);
    assert(a.z * a.z <= (m + 1) * (m + 1) + 3 * s);
    lemma_div_fact(a.x, m);
    lemma_div_fact(a.y, m);
    lemma_div_fact(a.z, m);
    let qx = (s_abs(a.x) * s) / m;
    let qy = (s_abs(a.y) * s) / m;
    let qz = (s_abs(a.z) * s) / m;
    let r = v_normalize(a);
    assert(r.x == fx_div(a.x, m) && r.y == fx_div(a.y, m) && r.z == fx_div(a.z, m));

    // the squared length of the result
    lemma_sq_fact(r.x);
    lemma_sq_fact(r.y);
    lemma_sq_fact(r.z);
    let dd = v_dot(r, r);
    assert(dd == fx_mul(r.x, r.x) + fx_mul(r.y, r.y) + fx_mul(r.z, r.z));
    let q2 = qx * qx + qy * qy + qz * qz;
    assert(r.x * r.x == qx * qx && r.y * r.y == qy * qy && r.z * r.z == qz * qz);
    assert(s * dd <= q2 && q2 < s * (dd + 3));

    // upper bound: the result's squared length barely exceeds one
    assert((m * m) * (qx * qx) <= (a.x * a.x) * (s * s)) by (nonlinear_arith)
        requires
            m * qx <= s_abs(a.x) * s,
            0 <= m,
            0 <= qx,
            0 <= s_abs(a.x) * s,
            s_abs(a.x) * s_abs(a.x) == a.x * a.x,
            s == 4294967296,
    ;
    assert((m * m) * (qy * qy) <= (a.y * a.y) * (s * s)) by (nonlinear_arith)
        requires
            m * qy <= s_abs(a.y) * s,
            0 <= m,
            0 <= qy,
            0 <= s_abs(a.y) * s,
            s_abs(a.y) * s_abs(a.y) == a.y * a.y,
            s == 4294967296,
    ;
    assert((m * m) * (qz * qz) <= (a.z * a.z) * (s * s)) by (nonlinear_arith)
        requires
            m * qz <= s_abs(a.z) * s,
            0 <= m,
            0 <= qz,
            0 <= s_abs(a.z) * s,
            s_abs(a.z) * s_abs(a.z) == a.z * a.z,
            s == 4294967296,
    ;
    assert((m * m) * (s * dd) <= (m * m) * q2) by (nonlinear_arith)
        requires
            s * dd <= q2,
            0 <= m,
    ;
    assert((m * m) * q2 == (m * m) * (qx * qx) + (m * m) * (qy * qy) + (m * m) * (qz * qz)) by (nonlinear_arith)
        requires
            q2 == qx * qx + qy * qy + qz * qz,
    ;
    assert(qq * (s * s) == (a.x * a.x) * (s * s) + (a.y * a.y) * (s * s) + (a.z * a.z) * (s * s))
        by (nonlinear_arith)
        requires
            qq == a.x * a.x + a.y * a.y + a.z * a.z,
    ;
    assert((m * m) * (s * dd) <= qq * (s * s));
    assert(qq * (s * s) < (s * d + 3 * s) * (s * s)) by (nonlinear_arith)
        requires
            qq < s * (d + 3),
            s == 4294967296,
    ;
    assert((s * d + 3 * s) * (s * s) <= ((m + 1) * (m + 1) + 3 * s) * (s * s)) by (nonlinear_arith)
        requires
            s * d < (m + 1) * (m + 1),
            s == 4294967296,
    ;
    assert(m * m * dd < s * (m + 1) * (m + 1) + 3 * s * s) by (nonlinear_arith)
        requires
            (m * m) * (s * dd) < ((m + 1) * (m + 1) + 3 * s) * (s * s),
            s == 4294967296,
            m >= 1,
    ;
    assert(s * (2 * m + 1) <= 256 * (m * m)) by (nonlinear_arith)
        requires
            m >= 67108864,
            s == 4294967296,
    ;
    assert(3 * s * s <= 16384 * (m * m)) by (nonlinear_arith)
        requires
            m >= 67108864,
            s == 4294967296,
    ;
    assert(dd <= s + 16640) by (nonlinear_arith)
        requires
            m * m * dd < s * (m + 1) * (m + 1) + 3 * s * s,
            s * (2 * m + 1) <= 256 * (m * m),
            3 * s * s <= 16384 * (m * m),
            m >= 1,
            s == 4294967296,
    ;

    // lower bound: the result's squared length barely undercuts one
    assert((a.x * a.x) * (s * s) < (m * m) * ((qx + 1) * (qx + 1))) by (nonlinear_arith)
        requires
            s_abs(a.x) * s < m * (qx + 1),
            0 <= s_abs(a.x) * s,
            0 <= m,
            s_abs(a.x) * s_abs(a.x) == a.x * a.x,
            s == 4294967296,
    ;
    assert((a.y * a.y) * (s * s) < (m * m) * ((qy + 1) * (qy + 1))) by (nonlinear_arith)
        requires
            s_abs(a.y) * s < m * (qy + 1),
            0 <= s_abs(a.y) * s,
            0 <= m,
            s_abs(a.y) * s_abs(a.y) == a.y * a.y,
            s == 4294967296,
    ;
    assert((a.z * a.z) * (s * s) < (m * m) * ((qz + 1) * (qz + 1))) by (nonlinear_arith)
        requires
            s_abs(a.z) * s < m * (qz + 1),
            0 <= s_abs(a.z) * s,
            0 <= m,
            s_abs(a.z) * s_abs(a.z) == a.z * a.z,
            s == 4294967296,
    ;
    assert(qq * (s * s) >= (m * m) * (s * s)) by (nonlinear_arith)
        requires
            m * m <= s * d,
            s * d <= qq,
            s == 4294967296,
    ;
    assert((m * m) * ((qx + 1) * (qx + 1)) + (m * m) * ((qy + 1) * (qy + 1)) + (m * m) * ((qz + 1)
        * (qz + 1)) == (m * m) * (q2 + 2 * (qx + qy + qz) + 3)) by (nonlinear_arith)
        requires
            q2 == qx * qx + qy * qy + qz * qz,
    ;
    assert((m * m) * (s * s) < (m * m) * (q2 + 2 * (qx + qy + qz) + 3));
    assert(s * s < q2 + 2 * (qx + qy + qz) + 3) by (nonlinear_arith)
        requires
            (m * m) * (s * s) < (m * m) * (q2 + 2 * (qx + qy + qz) + 3),
            m >= 1,
    ;
    assert(qx + qy + qz <= 3 * s + 25165824);
    assert(s * s < s * dd + 3 * s + 2 * (3 * s + 25165824) + 3);
    assert(s * dd > s * s - 10 * s) by (nonlinear_arith)
        requires
            s * s < s * dd + 9 * s + 50331651,
            s == 4294967296,
    ;
    assert(dd >= s - 9) by (nonlinear_arith)
        requires
            s * dd > s * s - 10 * s,
            s == 4294967296,
    ;

    // the result's magnitude
    lemma_fx_sqrt_is_isqrt(dd);
    let bigm = fx_sqrt(dd);
    assert(v_magnitude(r) == bigm);
    assert(bigm >= 0 && bigm * bigm <= dd * s && dd * s < (bigm + 1) * (bigm + 1));
    assert(bigm >= s - 5) by (nonlinear_arith)
        requires
            dd * s < (bigm + 1) * (bigm + 1),
            dd >= s - 9,
            s == 4294967296,
            bigm >= 0,
    ;
    assert(bigm <= s + 8320) by (nonlinear_arith)
        requires
            bigm * bigm <= dd * s,
            dd <= s + 16640,
            s == 4294967296,
            bigm >= 0,
    ;
}

impl Vector {
    /// Creates a new `Vector`.
    pub fn new(x: Fx, y: Fx, z: Fx) -> (r: Vector)
        ensures
            r@ == (V3 { x: x@, y: y@, z: z@ }),
    {
        Vector { x, y, z }
    }

    /// Adds two `Vector`s together producing a `Vector`.
    pub fn add(&self, vector2: &Vector) -> (r: Vector)
        ensures
            r@ == v_add(self@, vector2@),
    {
        Vector { x: self.x.add(vector2.x), y: self.y.add(vector2.y), z: self.z.add(vector2.z) }
    }

    /// Subtracts `vector2` from this vector.
    pub fn sub(&self, vector2: &Vector) -> (r: Vector)
        ensures
            r@ == v_sub(self@, vector2@),
    {
        Vector { x: self.x.sub(vector2.x), y: self.y.sub(vector2.y), z: self.z.sub(vector2.z) }
    }

    /// The opposite direction.
    pub fn negate(&self) -> (r: Vector)
        ensures
            r@ == v_neg(self@),
    {
        Vector { x: self.x.neg(), y: self.y.neg(), z: self.z.neg() }
    }

    /// Scales every coordinate by `s`.
    pub fn scale(&self, s: Fx) -> (r: Vector)
        ensures
            r@ == v_scale(self@, s@),
    {
        Vector { x: self.x.mul(s), y: self.y.mul(s), z: self.z.mul(s) }
    }

    /// Dot product of two vectors, producing a scalar; order doesn't matter.
    pub fn dot_product(&self, vector2: &Vector) -> (r: Fx)
        ensures
            r@ == v_dot(self@, vector2@),
    {
        self.x.mul(vector2.x).add(self.y.mul(vector2.y)).add(self.z.mul(vector2.z))
    }

    /// Vector product of two vectors, producing a vector; order matters.
    pub fn cross_product(&self, vector2: &Vector) -> (r: Vector)
        ensures
            r@ == v_cross(self@, vector2@),
    {
        Vector {
            x: self.y.mul(vector2.z).sub(self.z.mul(vector2.y)),
            y: self.z.mul(vector2.x).sub(self.x.mul(vector2.z)),
            z: self.x.mul(vector2.y).sub(self.y.mul(vector2.x)),
        }
    }

    /// Returns the magnitude (length) of the vector.
    pub fn magnitude(&self) -> (r: Fx)
        ensures
            r@ == v_magnitude(self@),
            is_isqrt(v_dot(self@, self@) * (crate::constants::FX_SCALE as int), r@),
    {
        let d: Fx = self.dot_product(self);
        d.sqrt()
    }

    /// Normalizes the vector to (approximately) unit length; the zero
    /// vector stays zero.  For a well-conditioned input the result's
    /// magnitude is within the geometric epsilon of exactly one; see
    /// `lemma_normalize_unit`.
    pub fn normalize(&self) -> (r: Vector)
        ensures
            r@ == v_normalize(self@),
            normalizable(self@) ==> s_abs(v_magnitude(r@) - FX_SCALE as int) < EPSILON_RAW as int,
    {
        proof {
            if normalizable(self@) {
                lemma_normalize_unit(self@);
            }
        }
        let m: Fx = self.magnitude();
        Vector { x: self.x.div(m), y: self.y.div(m), z: self.z.div(m) }
    }

    /// Reflects the vector about the normal `n`.
    pub fn reflect(&self, n: Vector) -> (r: Vector)
        ensures
            r@ == v_reflect(self@, n@),
    {
        let d: Fx = self.dot_product(&n);
        self.sub(&n.scale(d.add(d)))
    }
}

} // verus!
