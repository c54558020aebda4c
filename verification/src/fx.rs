//! Fixed-point scalars.
//!
//! A scalar holds an `i64` raw value and denotes `raw / FX_SCALE` (32
//! fractional bits).  Every operation saturates at `MAX_RAW` / `-MAX_RAW`
//! instead of overflowing, and divisions by zero saturate by the sign of the
//! dividend, so all operations are total.  Each executable operation is
//! verified to return exactly the value of its specification mirror
//! (`fx_add`, `fx_mul`, ...), which together form an exact mathematical
//! model of the arithmetic used everywhere else in the crate.

use vstd::prelude::*;

use crate::constants::FX_SCALE;
use crate::constants::MAX_RAW;

verus! {

/// A fixed-point scalar: denotes `raw / FX_SCALE`.
#[derive(Clone, Copy, Debug, PartialEq, Eq, Structural)]
pub struct Fx {
    pub raw: i64,
}

impl View for Fx {
    type V = int;

    open spec fn view(&self) -> int {
        self.raw as int
    }
}

/// Absolute value of a mathematical integer.
pub open spec fn s_abs(a: int) -> int {
    if a < 0 {
        -a
    } else {
        a
    }
}

/// Whether a product or quotient of two values of these signs is negative.
pub open spec fn s_sign_neg(a: int, b: int) -> bool {
    (a < 0) != (b < 0)
}

/// Saturate a non-negative magnitude at `MAX_RAW`.
pub open spec fn s_clip_mag(m: int) -> int {
    if m > MAX_RAW as int {
        MAX_RAW as int
    } else {
        m
    }
}

/// Give a non-negative magnitude a sign.
pub open spec fn s_signed(neg: bool, m: int) -> int {
    if neg {
        -m
    } else {
        m
    }
}

/// Saturate a raw value into `[-MAX_RAW, MAX_RAW]`.
pub open spec fn fx_clip(v: int) -> int {
    if v > MAX_RAW as int {
        MAX_RAW as int
    } else if v < -(MAX_RAW as int) {
        -(MAX_RAW as int)
    } else {
        v
    }
}

/// Raw value of the saturating sum.
pub open spec fn fx_add(a: int, b: int) -> int {
    fx_clip(a + b)
}

/// Raw value of the saturating difference.
pub open spec fn fx_sub(a: int, b: int) -> int {
    fx_clip(a - b)
}

/// Raw value of the negation.
pub open spec fn fx_neg(a: int) -> int {
    fx_clip(-a)
}

/// Raw value of the absolute value.
pub open spec fn fx_abs(a: int) -> int {
    fx_clip(s_abs(a))
}

/// Raw value of the saturating product: magnitudes are multiplied, scaled
/// down (truncating), saturated, and given the sign of the product.
pub open spec fn fx_mul(a: int, b: int) -> int {
    s_signed(s_sign_neg(a, b), s_clip_mag((s_abs(a) * s_abs(b)) / (FX_SCALE as int)))
}

/// Raw value of the saturating quotient.  Division by zero saturates by the
/// sign of the dividend (and `0 / 0` is `0`), standing in for the infinities
/// that the slab method and the unbounded cylinder rely on.
pub open spec fn fx_div(a: int, b: int) -> int {
    if b == 0 {
        if a == 0 {
            0
        } else {
            s_signed(a < 0, MAX_RAW as int)
        }
    } else {
        s_signed(s_sign_neg(a, b), s_clip_mag((s_abs(a) * (FX_SCALE as int)) / s_abs(b)))
    }
}

/// Raw value of a scalar divided by a positive machine integer
/// (truncating toward zero).
pub open spec fn fx_divi(a: int, d: int) -> int {
    s_signed(a < 0, s_clip_mag(s_abs(a) / d))
}

pub open spec fn fx_min(a: int, b: int) -> int {
    if a <= b {
        a
    } else {
        b
    }
}

pub open spec fn fx_max(a: int, b: int) -> int {
    if a <= b {
        b
    } else {
        a
    }
}

/// Floor division of a raw value by `FX_SCALE`: the whole-unit part of the
/// scalar, rounded toward negative infinity.
pub open spec fn fx_units_floor(a: int) -> int {
    if a >= 0 {
        a / (FX_SCALE as int)
    } else {
        -(((-a) + (FX_SCALE as int) - 1) / (FX_SCALE as int))
    }
}

/// Raw value of the floor of a scalar.
pub open spec fn fx_floor(a: int) -> int {
    fx_clip(fx_units_floor(a) * (FX_SCALE as int))
}

/// Whether the floor of the scalar is an even number of units.
pub open spec fn fx_floor_even(a: int) -> bool {
    s_abs(fx_units_floor(a)) % 2 == 0
}

/// `r` is the integer square root of `n`.
pub open spec fn is_isqrt(n: int, r: int) -> bool {
    &&& 0 <= r
    &&& r * r <= n
    &&& n < (r + 1) * (r + 1)
}

/// Raw value of the square root of a non-negative scalar: the integer
/// square root of the raw value rescaled by `FX_SCALE`.
pub open spec fn fx_sqrt(a: int) -> int {
    choose|r: int| #[trigger] is_isqrt(a * (FX_SCALE as int), r)
}

/// Raw value of a scalar raised to a machine-integer power.
pub open spec fn fx_powi(b: int, e: nat) -> int
    decreases e,
{
    if e == 0 {
        FX_SCALE as int
    } else {
        fx_mul(fx_powi(b, (e - 1) as nat), b)
    }
}


/// Every non-negative integer has an integer square root.
pub proof fn lemma_isqrt_exists(n: int)
    requires
        n >= 0,
    ensures
        exists|r: int| #[trigger] is_isqrt(n, r),
    decreases n,
{
    if n == 0 {
        assert(is_isqrt(0, 0));
    } else {
        lemma_isqrt_exists(n - 1);
        let r = choose|r: int| #[trigger] is_isqrt(n - 1, r);
        if (r + 1) * (r + 1) <= n {
            assert(is_isqrt(n, r + 1)) by (nonlinear_arith)
                requires
                    is_isqrt(n - 1, r),
                    (r + 1) * (r + 1) <= n,
            ;
        } else {
            assert(is_isqrt(n, r));
        }
    }
}

/// `fx_sqrt` of a non-negative value really is the integer square root
/// of the rescaled value.
pub proof fn lemma_fx_sqrt_is_isqrt(a: int)
    requires
        a >= 0,
    ensures
        is_isqrt(a * (FX_SCALE as int), fx_sqrt(a)),
{
    assert(a * (FX_SCALE as int) >= 0) by (nonlinear_arith)
        requires
            a >= 0,
    ;
    lemma_isqrt_exists(a * (FX_SCALE as int));
}

/// The integer square root is unique.
pub proof fn lemma_isqrt_unique(n: int, a: int, b: int)
    by (nonlinear_arith)
    requires
        is_isqrt(n, a),
        is_isqrt(n, b),
    ensures
        a == b,
{
}


/// A product with a zero factor is zero.
pub proof fn lemma_fx_mul_zero(x: int)
    ensures
        fx_mul(0, x) == 0,
        fx_mul(x, 0) == 0,
{
    vstd::arithmetic::div_mod::lemma_div_basics(FX_SCALE as int);
    assert(s_abs(0) == 0);
    assert(s_abs(0) * s_abs(x) == 0);
    assert(s_abs(x) * s_abs(0) == 0);
    assert((s_abs(0) * s_abs(x)) / (FX_SCALE as int) == 0);
    assert((s_abs(x) * s_abs(0)) / (FX_SCALE as int) == 0);
    assert(s_clip_mag(0) == 0);
}

/// Saturate an `i128` into the raw range.
fn clamp128(v: i128) -> (r: i64)
    ensures
        r as int == fx_clip(v as int),
{
    if v > MAX_RAW as i128 {
        MAX_RAW
    } else if v < -(MAX_RAW as i128) {
        -MAX_RAW
    } else {
        v as i64
    }
}

/// Magnitude of a raw value, as an unsigned 128-bit integer.
fn mag(x: i64) -> (m: u128)
    ensures
        m as int == s_abs(x as int),
{
    if x < 0 {
        (-(x as i128)) as u128
    } else {
        x as u128
    }
}

/// Saturate a magnitude and give it a sign.
fn signed_from_mag(neg: bool, m: u128) -> (r: i64)
    ensures
        r as int == s_signed(neg, s_clip_mag(m as int)),
{
    let c: u128 = if m > MAX_RAW as u128 {
        MAX_RAW as u128
    } else {
        m
    };
    if neg {
        -(c as i64)
    } else {
        c as i64
    }
}

impl Fx {
    /// The scalar with this raw value (saturated into range).
    pub fn from_raw(raw: i64) -> (r: Fx)
        ensures
            r@ == fx_clip(raw as int),
    {
        if raw == i64::MIN {
            Fx { raw: -MAX_RAW }
        } else {
            Fx { raw }
        }
    }

    /// The scalar denoting the integer `n`.
    pub fn from_int(n: i64) -> (r: Fx)
        ensures
            r@ == fx_clip(n * FX_SCALE),
    {
        proof {
            assert(-170141183460469231731687303715884105728 <= (n as int) * (FX_SCALE as int)
                < 170141183460469231731687303715884105728) by (nonlinear_arith)
                requires
                    -9223372036854775808 <= n as int <= 9223372036854775807,
            ;
        }
        let v: i128 = (n as i128) * (FX_SCALE as i128);
        Fx { raw: clamp128(v) }
    }

    /// The scalar denoting the unsigned integer `n`.
    pub fn from_usize(n: usize) -> (r: Fx)
        ensures
            r@ == fx_clip(n * FX_SCALE),
    {
        proof {
            assert(0 <= (n as int) * (FX_SCALE as int)
                < 170141183460469231731687303715884105728) by (nonlinear_arith)
                requires
                    0 <= n as int <= 18446744073709551615,
            ;
        }
        let v: i128 = (n as i128) * (FX_SCALE as i128);
        Fx { raw: clamp128(v) }
    }

    pub fn zero() -> (r: Fx)
        ensures
            r@ == 0,
    {
        Fx { raw: 0 }
    }

    pub fn one() -> (r: Fx)
        ensures
            r@ == FX_SCALE as int,
    {
        Fx { raw: FX_SCALE }
    }

    pub fn add(self, o: Fx) -> (r: Fx)
        ensures
            r@ == fx_add(self@, o@),
    {
        let v: i128 = self.raw as i128 + o.raw as i128;
        Fx { raw: clamp128(v) }
    }

    pub fn sub(self, o: Fx) -> (r: Fx)
        ensures
            r@ == fx_sub(self@, o@),
    {
        let v: i128 = self.raw as i128 - o.raw as i128;
        Fx { raw: clamp128(v) }
    }

    pub fn neg(self) -> (r: Fx)
        ensures
            r@ == fx_neg(self@),
    {
        if self.raw == i64::MIN {
            Fx { raw: MAX_RAW }
        } else {
            Fx { raw: -self.raw }
        }
    }

    pub fn abs(self) -> (r: Fx)
        ensures
            r@ == fx_abs(self@),
    {
        if self.raw < 0 {
            self.neg()
        } else {
            self
        }
    }

    pub fn min(self, o: Fx) -> (r: Fx)
        ensures
            r@ == fx_min(self@, o@),
    {
        if self.raw <= o.raw {
            self
        } else {
            o
        }
    }

    pub fn max(self, o: Fx) -> (r: Fx)
        ensures
            r@ == fx_max(self@, o@),
    {
        if self.raw <= o.raw {
            o
        } else {
            self
        }
    }

    pub fn mul(self, o: Fx) -> (r: Fx)
        ensures
            r@ == fx_mul(self@, o@),
    {
        let neg: bool = (self.raw < 0) != (o.raw < 0);
        let ma: u128 = mag(self.raw);
        let mb: u128 = mag(o.raw);
        proof {
            assert((ma as int) * (mb as int)
                <= 340282366920938463463374607431768211455) by (nonlinear_arith)
                requires
                    0 <= ma as int <= 9223372036854775808,
                    0 <= mb as int <= 9223372036854775808,
            ;
        }
        let m: u128 = ma * mb;
        let q: u128 = m / (FX_SCALE as u128);
        Fx { raw: signed_from_mag(neg, q) }
    }

    pub fn div(self, o: Fx) -> (r: Fx)
        ensures
            r@ == fx_div(self@, o@),
    {
        if o.raw == 0 {
            if self.raw == 0 {
                Fx { raw: 0 }
            } else if self.raw < 0 {
                Fx { raw: -MAX_RAW }
            } else {
                Fx { raw: MAX_RAW }
            }
        } else {
            let neg: bool = (self.raw < 0) != (o.raw < 0);
            let ma: u128 = mag(self.raw);
            proof {
                assert((ma as int) * (FX_SCALE as int)
                    <= 340282366920938463463374607431768211455) by (nonlinear_arith)
                    requires
                        0 <= ma as int <= 9223372036854775808,
                ;
            }
            let m: u128 = ma * (FX_SCALE as u128);
            let d: u128 = mag(o.raw);
            let q: u128 = m / d;
            Fx { raw: signed_from_mag(neg, q) }
        }
    }

    /// Divide by a positive machine integer (truncating toward zero).
    pub fn divi(self, d: i64) -> (r: Fx)
        requires
            d > 0,
        ensures
            r@ == fx_divi(self@, d as int),
    {
        let neg: bool = self.raw < 0;
        let ma: u128 = mag(self.raw);
        let q: u128 = ma / (d as u128);
        Fx { raw: signed_from_mag(neg, q) }
    }

    /// Floor to a whole number of units.
    pub fn floor(self) -> (r: Fx)
        ensures
            r@ == fx_floor(self@),
    {
        let u: i128 = self.units_floor();
        proof {
            assert(-170141183460469231731687303715884105728 <= (u as int) * (FX_SCALE as int)
                < 170141183460469231731687303715884105728) by (nonlinear_arith)
                requires
                    -4294967296 <= u as int <= 4294967296,
            ;
        }
        Fx { raw: clamp128(u * (FX_SCALE as i128)) }
    }

    /// Whether the floor of this scalar is an even number of units.
    pub fn floor_is_even(self) -> (r: bool)
        ensures
            r == fx_floor_even(self@),
    {
        let u: i128 = self.units_floor();
        let m: u128 = if u < 0 {
            (-u) as u128
        } else {
            u as u128
        };
        m % 2 == 0
    }

    /// Whole-unit part, rounded toward negative infinity.
    pub fn units_floor(self) -> (u: i128)
        ensures
            u as int == fx_units_floor(self@),
            -4294967296 <= u as int <= 4294967296,
    {
        proof {
            if self.raw >= 0 {
                vstd::arithmetic::div_mod::lemma_fundamental_div_mod(self@, FX_SCALE as int);
            } else {
                vstd::arithmetic::div_mod::lemma_fundamental_div_mod(
                    -(self@) + (FX_SCALE as int) - 1,
                    FX_SCALE as int,
                );
            }
        }
        if self.raw >= 0 {
            (self.raw / FX_SCALE) as i128
        } else {
            let n: i128 = -(self.raw as i128);
            -((n + (FX_SCALE as i128) - 1) / (FX_SCALE as i128))
        }
    }

    /// Square root of a non-negative scalar, by binary search on the
    /// integer square root of the rescaled raw value.
    pub fn sqrt(self) -> (r: Fx)
        requires
            self@ >= 0,
        ensures
            r@ == fx_sqrt(self@),
            is_isqrt(self@ * (FX_SCALE as int), r@),
    {
        let n: u128 = (self.raw as u128) * (FX_SCALE as u128);
        proof {
            assert(n as int == self@ * (FX_SCALE as int));
            assert((n as int) < 281474976710656int * 281474976710656int) by (nonlinear_arith)
                requires
                    n as int == self@ * (FX_SCALE as int),
                    0 <= self@ <= MAX_RAW as int,
            ;
        }
        let mut lo: u128 = 0;
        let mut hi: u128 = 281474976710656;
        while lo + 1 < hi
            invariant
                (lo as int) * (lo as int) <= n as int,
                (n as int) < (hi as int) * (hi as int),
                lo < hi,
                hi <= 281474976710656,
            decreases hi - lo,
        {
            let mid: u128 = lo + (hi - lo) / 2;
            proof {
                assert(mid as int * mid as int <= 281474976710656int * 281474976710656int)
                    by (nonlinear_arith)
                    requires
                        0 <= mid as int <= 281474976710656int,
                ;
            }
            if mid * mid <= n {
                lo = mid;
            } else {
                hi = mid;
            }
        }
        proof {
            assert(hi == lo + 1);
            assert(is_isqrt(n as int, lo as int));
            assert(is_isqrt(self@ * (FX_SCALE as int), fx_sqrt(self@))) by {
                assert(is_isqrt(self@ * (FX_SCALE as int), lo as int));
            }
            lemma_isqrt_unique(self@ * (FX_SCALE as int), lo as int, fx_sqrt(self@));
        }
        Fx { raw: lo as i64 }
    }

    /// Raise to a machine-integer power by repeated multiplication.
    pub fn powi(self, e: u64) -> (r: Fx)
        ensures
            r@ == fx_powi(self@, e as nat),
    {
        let mut acc: Fx = Fx::one();
        let mut k: u64 = 0;
        while k < e
            invariant
                k <= e,
                acc@ == fx_powi(self@, k as nat),
            decreases e - k,
        {
            acc = acc.mul(self);
            k = k + 1;
        }
        acc
    }
}

} // verus!
