//! Sine, cosine and tangent on fixed-point scalars.
//!
//! The argument is reduced into `[-pi, pi)` and the Taylor series is summed
//! for a fixed number of rounds; by then the terms are far below one raw
//! unit, so further rounds would not change the result.  As everywhere in
//! the crate, each executable function returns exactly the value of its
//! specification mirror.

use vstd::prelude::*;

use crate::constants::FX_SCALE;
use crate::fx::Fx;
use crate::fx::fx_add;
use crate::fx::fx_div;
use crate::fx::fx_divi;
use crate::fx::fx_mul;
use crate::fx::fx_neg;

verus! {

/// Raw value of pi (rounded to the nearest raw unit).
pub const PI_RAW: i64 = 13493037705;

/// Raw value of two pi.
pub const TWO_PI_RAW: i64 = 26986075409;

/// Number of Taylor rounds summed after the leading term.
pub const TRIG_ROUNDS: u64 = 24;

/// Floor division for a positive divisor.
pub open spec fn s_fdiv(a: int, b: int) -> int {
    if a >= 0 {
        a / b
    } else {
        -(((-a) + b - 1) / b)
    }
}

/// Reduce an angle's raw value into `[-pi, pi)` by subtracting whole turns.
pub open spec fn reduce_rad(x: int) -> int {
    x - (TWO_PI_RAW as int) * s_fdiv(x + PI_RAW as int, TWO_PI_RAW as int)
}

/// One Taylor state step for the sine: consume `m` more terms, where the
/// next term divides by `(2k) * (2k + 1)`.
pub open spec fn sin_go(x2: int, term: int, acc: int, k: nat, m: nat) -> int
    decreases m,
{
    if m == 0 {
        acc
    } else {
        let t = fx_neg(fx_divi(fx_mul(term, x2), (2 * k * (2 * k + 1)) as int));
        sin_go(x2, t, fx_add(acc, t), k + 1, (m - 1) as nat)
    }
}

/// One Taylor state step for the cosine: the next term divides by
/// `(2k - 1) * (2k)`.
pub open spec fn cos_go(x2: int, term: int, acc: int, k: nat, m: nat) -> int
    decreases m,
{
    if m == 0 {
        acc
    } else {
        let t = fx_neg(fx_divi(fx_mul(term, x2), ((2 * k - 1) * (2 * k)) as int));
        cos_go(x2, t, fx_add(acc, t), k + 1, (m - 1) as nat)
    }
}

/// Raw value of the sine of a reduced angle.
pub open spec fn fx_sin_poly(y: int) -> int {
    sin_go(fx_mul(y, y), y, y, 1, TRIG_ROUNDS as nat)
}

/// Raw value of the cosine of a reduced angle.
pub open spec fn fx_cos_poly(y: int) -> int {
    cos_go(fx_mul(y, y), FX_SCALE as int, FX_SCALE as int, 1, TRIG_ROUNDS as nat)
}

/// Raw value of the sine of an angle in radians.
pub open spec fn fx_sin(x: int) -> int {
    fx_sin_poly(reduce_rad(x))
}

/// Raw value of the cosine of an angle in radians.
pub open spec fn fx_cos(x: int) -> int {
    fx_cos_poly(reduce_rad(x))
}

/// Raw value of the tangent of an angle in radians.
pub open spec fn fx_tan(x: int) -> int {
    fx_div(fx_sin(x), fx_cos(x))
}

/// Reduce an angle into `[-pi, pi)`.
fn reduce(x: Fx) -> (y: Fx)
    ensures
        y@ == reduce_rad(x@),
        -(PI_RAW as int) <= y@ < PI_RAW as int,
{
    let t: i128 = x.raw as i128 + PI_RAW as i128;
    let k: i128 = if t >= 0 {
        t / (TWO_PI_RAW as i128)
    } else {
        -(((-t) + (TWO_PI_RAW as i128) - 1) / (TWO_PI_RAW as i128))
    };
    proof {
        if t >= 0 {
            vstd::arithmetic::div_mod::lemma_fundamental_div_mod(t as int, TWO_PI_RAW as int);
        } else {
            vstd::arithmetic::div_mod::lemma_fundamental_div_mod(
                -(t as int) + (TWO_PI_RAW as int) - 1,
                TWO_PI_RAW as int,
            );
        }
    }
    let y: i128 = t - k * (TWO_PI_RAW as i128) - (PI_RAW as i128);
    Fx { raw: y as i64 }
}

impl Fx {
    /// Sine of an angle in radians.
    pub fn sin(self) -> (r: Fx)
        ensures
            r@ == fx_sin(self@),
    {
        let y: Fx = reduce(self);
        let x2: Fx = y.mul(y);
        let mut term: Fx = y;
        let mut acc: Fx = y;
        let mut k: u64 = 1;
        while k <= TRIG_ROUNDS
            invariant
                1 <= k <= TRIG_ROUNDS + 1,
                x2@ == fx_mul(y@, y@),
                sin_go(x2@, term@, acc@, k as nat, (TRIG_ROUNDS + 1 - k) as nat) == fx_sin_poly(
                    y@,
                ),
            decreases TRIG_ROUNDS + 1 - k,
        {
            proof {
                assert(1 <= 2 * (k as int) * (2 * (k as int) + 1) <= 2352) by (nonlinear_arith)
                    requires
                        1 <= k as int <= 24,
                ;
            }
            let d: u64 = 2 * k * (2 * k + 1);
            let t: Fx = term.mul(x2).divi(d as i64).neg();
            acc = acc.add(t);
            term = t;
            k = k + 1;
        }
        acc
    }

    /// Cosine of an angle in radians.
    pub fn cos(self) -> (r: Fx)
        ensures
            r@ == fx_cos(self@),
    {
        let y: Fx = reduce(self);
        let x2: Fx = y.mul(y);
        let mut term: Fx = Fx::one();
        let mut acc: Fx = Fx::one();
        let mut k: u64 = 1;
        while k <= TRIG_ROUNDS
            invariant
                1 <= k <= TRIG_ROUNDS + 1,
                x2@ == fx_mul(y@, y@),
                cos_go(x2@, term@, acc@, k as nat, (TRIG_ROUNDS + 1 - k) as nat) == fx_cos_poly(
                    y@,
                ),
            decreases TRIG_ROUNDS + 1 - k,
        {
            proof {
                assert(1 <= (2 * (k as int) - 1) * (2 * (k as int)) <= 2256) by (nonlinear_arith)
                    requires
                        1 <= k as int <= 24,
                ;
            }
            let d: u64 = (2 * k - 1) * (2 * k);
            let t: Fx = term.mul(x2).divi(d as i64).neg();
            acc = acc.add(t);
            term = t;
            k = k + 1;
        }
        acc
    }

    /// Tangent of an angle in radians: sine over cosine.
    pub fn tan(self) -> (r: Fx)
        ensures
            r@ == fx_tan(self@),
    {
        self.sin().div(self.cos())
    }
}

} // verus!
