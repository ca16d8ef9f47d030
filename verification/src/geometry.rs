//! Plain-value geometry types exchanged with the foreign engine.
//!
//! The engine's own scalar type is a machine float; on this side every scalar
//! quantity (a coordinate, a zoom factor, an outline thickness) is carried as
//! a [`Fixed`] value holding thousandths of a unit, so that the arithmetic
//! the wrappers perform is exact and provable.

use vstd::prelude::*;
use vstd::arithmetic::div_mod::{lemma_fundamental_div_mod, lemma_fundamental_div_mod_converse};

verus! {

/// Floor division of `p` by a small positive divisor, exact to the
/// specification-level `/` on `int` for either sign of `p`.
pub(crate) fn floor_div(p: i128, d: u128) -> (r: i128)
    requires
        2 <= d <= 1_000_000,
    ensures
        r == (p as int) / (d as int),
{
    if p >= 0 {
        let q: u128 = (p as u128) / d;
        proof {
            assert(q == (p as int) / (d as int));
            assert(q <= p as u128);
        }
        q as i128
    } else {
        let k: u128 = ((-(p + 1)) as u128) + 1;
        let q: u128 = k / d;
        let rem: u128 = k % d;
        proof {
            assert(k as int == -(p as int));
            lemma_fundamental_div_mod(k as int, d as int);
            assert(q == (k as int) / (d as int));
            assert(rem == (k as int) % (d as int));
            assert((q as int) * 2 <= k as int) by (nonlinear_arith)
                requires
                    k as int == (q as int) * (d as int) + (rem as int),
                    rem as int >= 0,
                    d as int >= 2,
                    q as int >= 0,
            ;
        }
        if rem == 0 {
            proof {
                assert((p as int) == (-(q as int)) * (d as int) + 0) by (nonlinear_arith)
                    requires
                        k as int == (q as int) * (d as int),
                        p as int == -(k as int),
                ;
                lemma_fundamental_div_mod_converse(p as int, d as int, -(q as int), 0);
            }
            -(q as i128)
        } else {
            proof {
                assert((p as int) == (-(q as int) - 1) * (d as int) + ((d - rem) as int))
                    by (nonlinear_arith)
                    requires
                        k as int == (q as int) * (d as int) + (rem as int),
                        p as int == -(k as int),
                ;
                lemma_fundamental_div_mod_converse(
                    p as int,
                    d as int,
                    -(q as int) - 1,
                    (d - rem) as int,
                );
            }
            -(q as i128) - 1
        }
    }
}

/// The Euclidean remainder of `p` modulo a small positive divisor, exact to
/// the specification-level `%` on `int`: always in `[0, d)`.
pub(crate) fn euclid_mod(p: i128, d: u128) -> (r: u128)
    requires
        2 <= d <= 1_000_000,
    ensures
        r == (p as int) % (d as int),
        r < d,
{
    if p >= 0 {
        let rem: u128 = (p as u128) % d;
        proof {
            assert(rem == (p as int) % (d as int));
        }
        rem
    } else {
        let k: u128 = ((-(p + 1)) as u128) + 1;
        let q: u128 = k / d;
        let rem: u128 = k % d;
        proof {
            assert(k as int == -(p as int));
            lemma_fundamental_div_mod(k as int, d as int);
            assert(q == (k as int) / (d as int));
            assert(rem == (k as int) % (d as int));
        }
        if rem == 0 {
            proof {
                assert((p as int) == (-(q as int)) * (d as int) + 0) by (nonlinear_arith)
                    requires
                        k as int == (q as int) * (d as int),
                        p as int == -(k as int),
                ;
                lemma_fundamental_div_mod_converse(p as int, d as int, -(q as int), 0);
            }
            0
        } else {
            proof {
                assert((p as int) == (-(q as int) - 1) * (d as int) + ((d - rem) as int))
                    by (nonlinear_arith)
                    requires
                        k as int == (q as int) * (d as int) + (rem as int),
                        p as int == -(k as int),
                ;
                lemma_fundamental_div_mod_converse(
                    p as int,
                    d as int,
                    -(q as int) - 1,
                    (d - rem) as int,
                );
            }
            d - rem
        }
    }
}

/// A scalar quantity in thousandths of a unit.
///
/// `Fixed { milli: 2500 }` stands for 2.5 units.
#[derive(Clone, Copy, PartialEq, Eq, Structural, Debug)]
pub struct Fixed {
    pub milli: i64,
}

impl Fixed {
    /// The scalar for a whole number of units.
    pub fn from_int(v: i64) -> (r: Fixed)
        requires
            -9_223_372_036_854_775 <= v <= 9_223_372_036_854_775,
        ensures
            r.milli == v * 1000,
    {
        Fixed { milli: v * 1000 }
    }

    /// The scalar holding exactly `m` thousandths of a unit.
    pub fn from_milli(m: i64) -> (r: Fixed)
        ensures
            r.milli == m,
    {
        Fixed { milli: m }
    }

    /// The value in thousandths of a unit.
    pub fn milli(&self) -> (r: i64)
        ensures
            r == self.milli,
    {
        self.milli
    }

    /// The sum of two scalars.
    pub fn add(self, other: Fixed) -> (r: Fixed)
        requires
            i64::MIN <= self.milli + other.milli <= i64::MAX,
        ensures
            r.milli == self.milli + other.milli,
    {
        Fixed { milli: self.milli + other.milli }
    }

    /// Half of a scalar, rounded toward negative infinity.
    pub fn half(self) -> (r: Fixed)
        ensures
            r.milli == self.milli / 2,
    {
        let h: i128 = floor_div(self.milli as i128, 2);
        proof {
            assert(i64::MIN <= (self.milli as int) / 2 <= i64::MAX);
        }
        Fixed { milli: h as i64 }
    }

    /// The product of two scalars, rounded toward negative infinity to a
    /// thousandth of a unit.
    pub fn scale(self, factor: Fixed) -> (r: Fixed)
        requires
            i64::MIN <= (self.milli * factor.milli) / 1000 <= i64::MAX,
        ensures
            r.milli == (self.milli * factor.milli) / 1000,
    {
        let p: i128 = (self.milli as i128) * (factor.milli as i128);
        let q: i128 = floor_div(p, 1000);
        Fixed { milli: q as i64 }
    }
}

/// A two-dimensional vector of scalars, the shape in which the engine takes
/// positions and sizes.
#[derive(Clone, Copy, PartialEq, Eq, Structural, Debug)]
pub struct Vector2 {
    pub x: Fixed,
    pub y: Fixed,
}

impl Vector2 {
    /// The vector with the given components.
    pub fn new(x: Fixed, y: Fixed) -> (r: Vector2)
        ensures
            r.x == x,
            r.y == y,
    {
        Vector2 { x, y }
    }
}

/// An axis-aligned rectangle of scalars: position of the top-left corner and
/// extent.
#[derive(Clone, Copy, PartialEq, Eq, Structural, Debug)]
pub struct Rect {
    pub left: Fixed,
    pub top: Fixed,
    pub width: Fixed,
    pub height: Fixed,
}

impl Rect {
    /// The rectangle with the given corner and extent.
    pub fn new(left: Fixed, top: Fixed, width: Fixed, height: Fixed) -> (r: Rect)
        ensures
            r.left == left,
            r.top == top,
            r.width == width,
            r.height == height,
    {
        Rect { left, top, width, height }
    }
}

/// An axis-aligned rectangle of whole pixels, the shape in which the engine
/// takes texture sub-areas.
#[derive(Clone, Copy, PartialEq, Eq, Structural, Debug)]
pub struct IntRect {
    pub left: i32,
    pub top: i32,
    pub width: i32,
    pub height: i32,
}

impl IntRect {
    /// The rectangle with the given corner and extent.
    pub fn new(left: i32, top: i32, width: i32, height: i32) -> (r: IntRect)
        ensures
            r.left == left,
            r.top == top,
            r.width == width,
            r.height == height,
    {
        IntRect { left, top, width, height }
    }
}

/// A color in the engine's 8-bit-per-channel representation.
#[derive(Clone, Copy, PartialEq, Eq, Structural, Debug)]
pub struct Color {
    pub red: u8,
    pub green: u8,
    pub blue: u8,
    pub alpha: u8,
}

impl Color {
    /// Opaque white, the engine's default fill color.
    pub open spec fn spec_white() -> Color {
        Color { red: 255, green: 255, blue: 255, alpha: 255 }
    }

    /// The opaque color with the given channels.
    pub fn rgb(red: u8, green: u8, blue: u8) -> (r: Color)
        ensures
            r.red == red,
            r.green == green,
            r.blue == blue,
            r.alpha == 255,
    {
        Color { red, green, blue, alpha: 255 }
    }

    /// Opaque white, the engine's default fill color.
    pub fn white() -> (r: Color)
        ensures
            r == Color::spec_white(),
    {
        Color { red: 255, green: 255, blue: 255, alpha: 255 }
    }
}

} // verus!
