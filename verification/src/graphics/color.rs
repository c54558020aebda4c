//! RGB color triplets.  Channel values nominally lie between 0 and 1 but
//! are not restricted; clamping happens only at image-encoding time.

use vstd::prelude::*;

use crate::constants::FX_SCALE;
use crate::fx::Fx;
use crate::fx::fx_add;
use crate::fx::fx_mul;
use crate::fx::fx_sub;

verus! {

/// Mathematical model of a color: the three raw channel values.
pub struct C3 {
    pub red: int,
    pub green: int,
    pub blue: int,
}

/// RGB color triplet.
#[derive(Clone, Copy, Debug, PartialEq, Eq, Structural)]
pub struct Color {
    pub red: Fx,
    pub green: Fx,
    pub blue: Fx,
}

impl View for Color {
    type V = C3;

    open spec fn view(&self) -> C3 {
        C3 { red: self.red@, green: self.green@, blue: self.blue@ }
    }
}

pub open spec fn c_black() -> C3 {
    C3 { red: 0, green: 0, blue: 0 }
}

pub open spec fn c_add(a: C3, b: C3) -> C3 {
    C3 { red: fx_add(a.red, b.red), green: fx_add(a.green, b.green), blue: fx_add(a.blue, b.blue) }
}

pub open spec fn c_sub(a: C3, b: C3) -> C3 {
    C3 { red: fx_sub(a.red, b.red), green: fx_sub(a.green, b.green), blue: fx_sub(a.blue, b.blue) }
}

/// Componentwise (Hadamard) product.
pub open spec fn c_mul(a: C3, b: C3) -> C3 {
    C3 {
        red: fx_mul(a.red, b.red),
        green: fx_mul(a.green, b.green),
        blue: fx_mul(a.blue, b.blue),
    }
}

pub open spec fn c_scale(a: C3, s: int) -> C3 {
    C3 { red: fx_mul(a.red, s), green: fx_mul(a.green, s), blue: fx_mul(a.blue, s) }
}

/// A channel scaled to 0..=255 and clamped, rounding to nearest.
pub open spec fn c_byte(c: int) -> int {
    if c <= 0 {
        0
    } else {
        let t = (c * 255 + (FX_SCALE as int) / 2) / (FX_SCALE as int);
        if t > 255 {
            255
        } else {
            t
        }
    }
}


/// Scaling black yields black.
pub proof fn lemma_scale_black(s: int)
    ensures
        c_scale(c_black(), s) == c_black(),
{
    crate::fx::lemma_fx_mul_zero(s);
}

/// A componentwise product with black yields black.
pub proof fn lemma_mul_black(c: C3)
    ensures
        c_mul(c, c_black()) == c_black(),
{
    crate::fx::lemma_fx_mul_zero(c.red);
    crate::fx::lemma_fx_mul_zero(c.green);
    crate::fx::lemma_fx_mul_zero(c.blue);
}

/// Black, equivalent to `Color::new(0, 0, 0)`.
pub fn black() -> (r: Color)
    ensures
        r@ == c_black(),
{
    Color { red: Fx::zero(), green: Fx::zero(), blue: Fx::zero() }
}

/// White, equivalent to `Color::new(1, 1, 1)`.
pub fn white() -> (r: Color)
    ensures
        r@ == (C3 { red: FX_SCALE as int, green: FX_SCALE as int, blue: FX_SCALE as int }),
{
    Color { red: Fx::one(), green: Fx::one(), blue: Fx::one() }
}

impl Color {
    /// Generates a new `Color`.
    pub fn new(red: Fx, green: Fx, blue: Fx) -> (r: Color)
        ensures
            r@ == (C3 { red: red@, green: green@, blue: blue@ }),
    {
        Color { red, green, blue }
    }

    /// Adds two `Color`s channel by channel.
    pub fn add(&self, rhs: &Color) -> (r: Color)
        ensures
            r@ == c_add(self@, rhs@),
    {
        Color {
            red: self.red.add(rhs.red),
            green: self.green.add(rhs.green),
            blue: self.blue.add(rhs.blue),
        }
    }

    /// Subtracts two `Color`s channel by channel.
    pub fn sub(&self, rhs: &Color) -> (r: Color)
        ensures
            r@ == c_sub(self@, rhs@),
    {
        Color {
            red: self.red.sub(rhs.red),
            green: self.green.sub(rhs.green),
            blue: self.blue.sub(rhs.blue),
        }
    }

    /// Componentwise (Hadamard) product of two colors.
    pub fn mul(&self, rhs: &Color) -> (r: Color)
        ensures
            r@ == c_mul(self@, rhs@),
    {
        Color {
            red: self.red.mul(rhs.red),
            green: self.green.mul(rhs.green),
            blue: self.blue.mul(rhs.blue),
        }
    }

    /// Scales every channel by `s`.
    pub fn scale(&self, s: Fx) -> (r: Color)
        ensures
            r@ == c_scale(self@, s@),
    {
        Color { red: self.red.mul(s), green: self.green.mul(s), blue: self.blue.mul(s) }
    }

    /// The three channels scaled into `0..=255` and clamped, as used by the
    /// image encoder.
    pub fn to_rgb255(&self) -> (r: (u8, u8, u8))
        ensures
            r.0 as int == c_byte(self@.red),
            r.1 as int == c_byte(self@.green),
            r.2 as int == c_byte(self@.blue),
    {
        (channel_byte(self.red), channel_byte(self.green), channel_byte(self.blue))
    }
}

/// One channel scaled into `0..=255` and clamped.
fn channel_byte(c: Fx) -> (r: u8)
    ensures
        r as int == c_byte(c@),
{
    if c.raw <= 0 {
        0
    } else {
        let t: i128 = ((c.raw as i128) * 255 + (FX_SCALE as i128) / 2) / (FX_SCALE as i128);
        if t > 255 {
            255
        } else {
            t as u8
        }
    }
}

} // verus!
