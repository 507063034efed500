//! Fixed-point scalars.
//!
//! Every fractional quantity in the value system (alpha channels, lengths,
//! percentages, HSL coordinates) is a `Fixed`: a signed count of millionths
//! of a unit. One unit is `1_000_000` micro; the representable magnitude used
//! by the value system is capped at one million units, far beyond any CSS
//! quantity, so that products of two in-range scalars stay exact in wide
//! intermediate arithmetic.

use vstd::prelude::*;

verus! {

/// A scalar in units of one millionth: `micro == 1_500_000` is the value 1.5.
#[derive(Clone, Copy, PartialEq, Eq, Structural, Debug)]
pub struct Fixed {
    pub micro: i64,
}

/// Magnitude bound kept by every scalar the value system computes with.
pub open spec fn fixed_in_range(m: int) -> bool {
    -1_000_000_000_000 <= m <= 1_000_000_000_000
}

/// Division of `n` by a positive `d`, rounded to nearest, ties away from zero.
pub open spec fn round_div(n: int, d: int) -> int {
    if n >= 0 {
        (n + d / 2) / d
    } else {
        -((-n + d / 2) / d)
    }
}

/// `m` clamped to the value system's magnitude bound.
pub open spec fn fixed_clamp(m: int) -> int {
    if m > 1_000_000_000_000 {
        1_000_000_000_000
    } else if m < -1_000_000_000_000 {
        -1_000_000_000_000
    } else {
        m
    }
}

/// The product of two scalars, in micro units, clamped to the magnitude
/// bound.
pub open spec fn fixed_mul_micro(a: int, b: int) -> int {
    fixed_clamp(round_div(a * b, 1_000_000))
}

/// `a` scaled by `b` read as a percentage, in micro units, clamped to the
/// magnitude bound.
pub open spec fn fixed_pct_micro(a: int, b: int) -> int {
    fixed_clamp(round_div(a * b, 100_000_000))
}

impl Fixed {
    /// The scalar holding the whole number `i`.
    pub fn of_int(i: i64) -> (r: Fixed)
        requires
            -1_000_000 <= i <= 1_000_000,
        ensures
            r.micro == i * 1_000_000,
    {
        Fixed { micro: i * 1_000_000 }
    }

    /// The scalar holding `m` millionths.
    pub fn of_micro(m: i64) -> (r: Fixed)
        ensures
            r.micro == m,
    {
        Fixed { micro: m }
    }

    /// Whether the scalar is within the value system's magnitude bound.
    pub fn in_range(self) -> (r: bool)
        ensures
            r == fixed_in_range(self.micro as int),
    {
        -1_000_000_000_000 <= self.micro && self.micro <= 1_000_000_000_000
    }

    /// The product of two scalars, rounded to the nearest micro unit, ties
    /// away from zero, clamped to the magnitude bound.
    pub fn mul(self, other: Fixed) -> (r: Fixed)
        requires
            fixed_in_range(self.micro as int),
            fixed_in_range(other.micro as int),
        ensures
            r.micro == fixed_mul_micro(self.micro as int, other.micro as int),
            fixed_in_range(r.micro as int),
    {
        scaled_product(self, other, 1_000_000)
    }

    /// `self` scaled by `pct` read as a percentage (`pct` of value 100
    /// leaves `self` unchanged), rounded to the nearest micro unit, ties
    /// away from zero, clamped to the magnitude bound.
    pub fn scale_percent(self, pct: Fixed) -> (r: Fixed)
        requires
            fixed_in_range(self.micro as int),
            fixed_in_range(pct.micro as int),
        ensures
            r.micro == fixed_pct_micro(self.micro as int, pct.micro as int),
            fixed_in_range(r.micro as int),
    {
        scaled_product(self, pct, 100_000_000)
    }
}

/// Shared body of `mul` and `scale_percent`: `a * b / d` rounded to nearest,
/// ties away from zero, clamped, computed sign-and-magnitude in wide
/// arithmetic.
fn scaled_product(a: Fixed, b: Fixed, d: u64) -> (r: Fixed)
    requires
        fixed_in_range(a.micro as int),
        fixed_in_range(b.micro as int),
        d == 1_000_000 || d == 100_000_000,
    ensures
        r.micro == fixed_clamp(round_div(a.micro as int * b.micro as int, d as int)),
        fixed_in_range(r.micro as int),
{
    let neg: bool = (a.micro < 0) != (b.micro < 0);
    let ma: u64 = if a.micro < 0 { (-a.micro) as u64 } else { a.micro as u64 };
    let mb: u64 = if b.micro < 0 { (-b.micro) as u64 } else { b.micro as u64 };
    assert(ma * mb <= 1_000_000_000_000_000_000_000_000u128) by (nonlinear_arith)
        requires
            ma <= 1_000_000_000_000,
            mb <= 1_000_000_000_000,
    ;
    let p: u128 = (ma as u128) * (mb as u128);
    let mut q: u128 = (p + (d / 2) as u128) / (d as u128);
    if q > 1_000_000_000_000 {
        q = 1_000_000_000_000;
    }
    let qi: i64 = q as i64;
    proof {
        assert(a.micro as int * b.micro as int == if neg {
            -(ma as int * mb as int)
        } else {
            ma as int * mb as int
        }) by (nonlinear_arith)
            requires
                ma == if a.micro < 0 { -(a.micro as int) } else { a.micro as int },
                mb == if b.micro < 0 { -(b.micro as int) } else { b.micro as int },
                neg == ((a.micro < 0) != (b.micro < 0)),
        ;
    }
    if neg && qi > 0 {
        Fixed { micro: -qi }
    } else {
        Fixed { micro: qi }
    }
}

} // verus!
