//! Decimal fixed-point numbers with six fractional digits.
//!
//! Lengths, speeds and curve values are counted in millionths of a unit, and
//! time in microseconds, so that a speed times a time is a length on the same
//! scale. Results that leave the representable range stop at its ends, which
//! lie symmetrically around zero.

use vstd::prelude::*;

verus! {

/// Raw counts per whole unit, and microseconds per second.
pub const SCALE: i64 = 1_000_000;

/// `v` held to the range from `-i64::MAX` to `i64::MAX`.
pub open spec fn saturate(v: int) -> int {
    if v > i64::MAX {
        i64::MAX as int
    } else if v < -i64::MAX {
        -(i64::MAX as int)
    } else {
        v
    }
}

/// The raw count of the product of two numbers given by their raw counts,
/// rounded down.
pub open spec fn scaled_product(a: int, b: int) -> int {
    (a * b) / (SCALE as int)
}

/// A fixed-point number: `raw` counts millionths of a unit.
#[derive(Clone, Copy, Debug, PartialEq, Eq, Structural)]
pub struct Fixed {
    pub raw: i64,
}

impl View for Fixed {
    type V = int;

    open spec fn view(&self) -> int {
        self.raw as int
    }
}

/// The fixed-point number nearest to `v` in the representable range.
pub(crate) fn saturated(v: i128) -> (r: Fixed)
    ensures
        r@ == saturate(v as int),
{
    if v > i64::MAX as i128 {
        Fixed { raw: i64::MAX }
    } else if v < -(i64::MAX as i128) {
        Fixed { raw: -i64::MAX }
    } else {
        Fixed { raw: v as i64 }
    }
}

/// `v` divided by `SCALE`, rounded down.
fn descale(v: i128) -> (r: i128)
    ensures
        r == (v as int) / (SCALE as int),
{
    v.checked_div_euclid(SCALE as i128).unwrap()
}

impl Fixed {
    /// The number with the given raw count.
    pub fn from_raw(raw: i64) -> (r: Fixed)
        ensures
            r@ == raw,
    {
        Fixed { raw }
    }

    /// The whole number `units`.
    pub fn from_int(units: i32) -> (r: Fixed)
        ensures
            r@ == units * SCALE,
    {
        Fixed { raw: units as i64 * SCALE }
    }

    /// Zero.
    pub fn zero() -> (r: Fixed)
        ensures
            r@ == 0,
    {
        Fixed { raw: 0 }
    }

    /// One.
    pub fn one() -> (r: Fixed)
        ensures
            r@ == SCALE,
    {
        Fixed { raw: SCALE }
    }

    /// The raw count.
    pub fn raw(self) -> (r: i64)
        ensures
            r == self@,
    {
        self.raw
    }

    /// The number with the sign turned.
    pub fn saturating_neg(self) -> (r: Fixed)
        ensures
            r@ == saturate(-self@),
    {
        saturated(-(self.raw as i128))
    }

    /// The sum.
    pub fn saturating_add(self, rhs: Fixed) -> (r: Fixed)
        ensures
            r@ == saturate(self@ + rhs@),
    {
        saturated(self.raw as i128 + rhs.raw as i128)
    }

    /// The difference.
    pub fn saturating_sub(self, rhs: Fixed) -> (r: Fixed)
        ensures
            r@ == saturate(self@ - rhs@),
    {
        saturated(self.raw as i128 - rhs.raw as i128)
    }

    /// The product, rounded down to a millionth.
    pub fn saturating_mul(self, rhs: Fixed) -> (r: Fixed)
        ensures
            r@ == saturate(scaled_product(self@, rhs@)),
    {
        let a: i128 = self.raw as i128;
        let b: i128 = rhs.raw as i128;
        proof {
            lemma_product_fits(a as int, b as int);
        }
        saturated(descale(a * b))
    }

    /// What a rate of `self` per second comes to over `micros` microseconds,
    /// rounded down to a millionth.
    pub fn over_time(self, micros: u64) -> (r: Fixed)
        ensures
            r@ == saturate(scaled_product(self@, micros as int)),
    {
        let a: i128 = self.raw as i128;
        let b: i128 = micros as i128;
        proof {
            lemma_product_fits(a as int, b as int);
        }
        saturated(descale(a * b))
    }
}

/// A product of a 64-bit signed count with a 64-bit count of either kind
/// fits in 128 bits.
proof fn lemma_product_fits(a: int, b: int)
    requires
        -0x8000_0000_0000_0000 <= a <= 0x7fff_ffff_ffff_ffff,
        -0x8000_0000_0000_0000 <= b <= 0xffff_ffff_ffff_ffff,
    ensures
        i128::MIN <= a * b <= i128::MAX,
{
    if a >= 0 && b >= 0 {
        assert(0 <= a * b <= 0x7fff_ffff_ffff_ffff * 0xffff_ffff_ffff_ffff) by (nonlinear_arith)
            requires
                0 <= a <= 0x7fff_ffff_ffff_ffff,
                0 <= b <= 0xffff_ffff_ffff_ffff,
        ;
    } else if a >= 0 {
        assert(0x7fff_ffff_ffff_ffff * -0x8000_0000_0000_0000 <= a * b <= 0) by (nonlinear_arith)
            requires
                0 <= a <= 0x7fff_ffff_ffff_ffff,
                -0x8000_0000_0000_0000 <= b <= 0,
        ;
    } else if b >= 0 {
        assert(-0x8000_0000_0000_0000 * 0xffff_ffff_ffff_ffff <= a * b <= 0) by (nonlinear_arith)
            requires
                -0x8000_0000_0000_0000 <= a <= 0,
                0 <= b <= 0xffff_ffff_ffff_ffff,
        ;
    } else {
        assert(0 <= a * b <= 0x8000_0000_0000_0000 * 0x8000_0000_0000_0000) by (nonlinear_arith)
            requires
                -0x8000_0000_0000_0000 <= a <= 0,
                -0x8000_0000_0000_0000 <= b <= 0,
        ;
    }
}

/// The product is the exact product of the two numbers rounded down: it
/// lies at most a millionth below it and never above.
pub proof fn lemma_scaled_product_rounds_down(a: int, b: int)
    ensures
        scaled_product(a, b) * SCALE <= a * b < (scaled_product(a, b) + 1) * SCALE,
{
}

/// A product does not depend on how its second factor is cut in two by more
/// than one rounding: the two parts together fall short of the whole by at
/// most a millionth.
pub proof fn lemma_scaled_product_splits(a: int, first: int, second: int)
    ensures
        scaled_product(a, first) + scaled_product(a, second) <= scaled_product(a, first + second)
            <= scaled_product(a, first) + scaled_product(a, second) + 1,
{
    assert(a * (first + second) == a * first + a * second) by (nonlinear_arith);
}

} // verus!
