//! Tunable constants of the renderer.

use vstd::prelude::*;

verus! {

/// Number of fractional bits of a scalar is 32; a scalar with raw
/// representation `r` denotes the real number `r / FX_SCALE`.
pub const FX_SCALE: i64 = 4294967296;

/// Largest raw value a scalar may hold; `-MAX_RAW` is the smallest.
/// (`i64::MIN` is left out so that negation never overflows.)
pub const MAX_RAW: i64 = 9223372036854775807;

/// Raw value of the geometric epsilon (about `1e-5`): rays closer than this
/// to parallel are treated as parallel, and hit points are nudged by this
/// amount along the normal to avoid self-shadowing acne.
pub const EPSILON_RAW: i64 = 42950;

/// Recursion budget for reflected and refracted rays: every recursive color
/// computation decrements it and stops at zero.
pub const MAX_REFLECTION_RECRUSTION: usize = 5;

} // verus!
