//! The easing curve: a cubic Bezier curve over the unit range of time, of
//! which only the heights matter.

use vstd::prelude::*;
use crate::fixed::{Fixed, SCALE};

verus! {

/// The cube of `SCALE`: the sum of the four weights of the curve.
pub const SCALE_CUBED: i128 = 1_000_000_000_000_000_000;

/// The heights of the four control points of a cubic easing curve. Time is
/// the curve's parameter, so the points carry no horizontal part.
#[derive(Clone, Copy, Debug, PartialEq, Eq, Structural)]
pub struct ControlPoints {
    pub p0: Fixed,
    pub p1: Fixed,
    pub p2: Fixed,
    pub p3: Fixed,
}

/// `t` held to the range from zero to one.
pub open spec fn clamp_unit(t: int) -> int {
    if t < 0 {
        0
    } else if t > SCALE {
        SCALE as int
    } else {
        t
    }
}

/// The weight of the first control point at `t`, with `0 <= t <= SCALE`.
pub open spec fn weight0(t: int) -> int {
    (SCALE - t) * (SCALE - t) * (SCALE - t)
}

/// The weight of the second control point.
pub open spec fn weight1(t: int) -> int {
    3 * ((SCALE - t) * (SCALE - t) * t)
}

/// The weight of the third control point.
pub open spec fn weight2(t: int) -> int {
    3 * ((SCALE - t) * t * t)
}

/// The weight of the last control point.
pub open spec fn weight3(t: int) -> int {
    t * t * t
}

/// The cubic curve through `p0` and `p3`, drawn towards `p1` and `p2`, at
/// the time `t` held to the unit range: the weighted mean of the four
/// points, rounded down to a millionth.
pub open spec fn bezier_value(t: int, p0: int, p1: int, p2: int, p3: int) -> int {
    let c = clamp_unit(t);
    (weight0(c) * p0 + weight1(c) * p1 + weight2(c) * p2 + weight3(c) * p3) / (SCALE_CUBED as int)
}

/// The value at `t` of the cubic curve with control heights `p0` to `p3`.
/// A `t` outside the unit range counts as the nearer end of it.
pub fn cubic_bezier(t: Fixed, p0: Fixed, p1: Fixed, p2: Fixed, p3: Fixed) -> (r: Fixed)
    ensures
        r@ == bezier_value(t@, p0@, p1@, p2@, p3@),
{
    let c: i128 = if t.raw < 0 {
        0
    } else if t.raw > SCALE {
        SCALE as i128
    } else {
        t.raw as i128
    };
    let u: i128 = SCALE as i128 - c;
    proof {
        lemma_weights(c as int);
        assert(0 <= u * u <= 1_000_000_000_000 && 0 <= u * c <= 1_000_000_000_000 && 0 <= c * c
            <= 1_000_000_000_000) by (nonlinear_arith)
            requires
                0 <= u <= 1_000_000,
                0 <= c <= 1_000_000,
        ;
        assert(0 <= u * u * c && 0 <= u * c * c) by (nonlinear_arith)
            requires
                0 <= u,
                0 <= c,
        ;
    }
    let w0: i128 = u * u * u;
    let w1: i128 = 3 * (u * u * c);
    let w2: i128 = 3 * (u * c * c);
    let w3: i128 = c * c * c;
    proof {
        lemma_term_fits(w0 as int, p0@);
        lemma_term_fits(w1 as int, p1@);
        lemma_term_fits(w2 as int, p2@);
        lemma_term_fits(w3 as int, p3@);
        lemma_bezier_within(t@, p0@, p1@, p2@, p3@, i64::MIN as int, i64::MAX as int);
    }
    let sum: i128 = w0 * (p0.raw as i128) + w1 * (p1.raw as i128) + w2 * (p2.raw as i128) + w3 * (
    p3.raw as i128);
    let mean: i128 = sum.checked_div_euclid(SCALE_CUBED).unwrap();
    Fixed { raw: mean as i64 }
}

/// The four weights are never negative and sum to the cube of `SCALE`.
pub proof fn lemma_weights(t: int)
    requires
        0 <= t <= SCALE,
    ensures
        0 <= weight0(t) <= SCALE_CUBED,
        0 <= weight1(t) <= SCALE_CUBED,
        0 <= weight2(t) <= SCALE_CUBED,
        0 <= weight3(t) <= SCALE_CUBED,
        weight0(t) + weight1(t) + weight2(t) + weight3(t) == SCALE_CUBED,
{
    let u = SCALE - t;
    lemma_scale_cubed();
    assert(u * u * u + 3 * (u * u * t) + 3 * (u * t * t) + t * t * t == (u + t) * (u + t) * (u + t))
        by (nonlinear_arith);
    assert(0 <= u * u * u && 0 <= u * u * t && 0 <= u * t * t && 0 <= t * t * t)
        by (nonlinear_arith)
        requires
            0 <= u,
            0 <= t,
    ;
}

/// The curve's value is the exact weighted mean of the control points
/// rounded down: it lies at most a millionth below it and never above.
pub proof fn lemma_bezier_rounds_down(t: int, p0: int, p1: int, p2: int, p3: int)
    ensures
        ({
            let c = clamp_unit(t);
            let sum = weight0(c) * p0 + weight1(c) * p1 + weight2(c) * p2 + weight3(c) * p3;
            bezier_value(t, p0, p1, p2, p3) * SCALE_CUBED <= sum < (bezier_value(t, p0, p1, p2, p3)
                + 1) * SCALE_CUBED
        }),
{
}

/// The curve stays between any two bounds that hold its control points.
pub proof fn lemma_bezier_within(t: int, p0: int, p1: int, p2: int, p3: int, lo: int, hi: int)
    requires
        lo <= p0 <= hi,
        lo <= p1 <= hi,
        lo <= p2 <= hi,
        lo <= p3 <= hi,
    ensures
        lo <= bezier_value(t, p0, p1, p2, p3) <= hi,
{
    let c = clamp_unit(t);
    let w0 = weight0(c);
    let w1 = weight1(c);
    let w2 = weight2(c);
    let w3 = weight3(c);
    lemma_weights(c);
    lemma_weighted_between(w0, p0, lo, hi);
    lemma_weighted_between(w1, p1, lo, hi);
    lemma_weighted_between(w2, p2, lo, hi);
    lemma_weighted_between(w3, p3, lo, hi);
    let sum = w0 * p0 + w1 * p1 + w2 * p2 + w3 * p3;
    assert(w0 * lo + w1 * lo + w2 * lo + w3 * lo == (w0 + w1 + w2 + w3) * lo) by (nonlinear_arith);
    assert(w0 * hi + w1 * hi + w2 * hi + w3 * hi == (w0 + w1 + w2 + w3) * hi) by (nonlinear_arith);
    assert(1_000_000_000_000_000_000 * lo <= sum <= 1_000_000_000_000_000_000 * hi);
}

/// The curve starts at its first control point.
pub proof fn lemma_bezier_starts_at_p0(t: int, p0: int, p1: int, p2: int, p3: int)
    requires
        t <= 0,
    ensures
        bezier_value(t, p0, p1, p2, p3) == p0,
{
    lemma_scale_cubed();
    assert(weight1(0) == 0 && weight2(0) == 0 && weight3(0) == 0) by (nonlinear_arith);
    lemma_lone_weight(weight0(0), p0, weight1(0), p1, weight2(0), p2, weight3(0), p3);
    let sum = weight0(0) * p0 + weight1(0) * p1 + weight2(0) * p2 + weight3(0) * p3;
    assert(sum == 1_000_000_000_000_000_000 * p0);
}

/// The curve ends at its last control point.
pub proof fn lemma_bezier_ends_at_p3(t: int, p0: int, p1: int, p2: int, p3: int)
    requires
        t >= SCALE,
    ensures
        bezier_value(t, p0, p1, p2, p3) == p3,
{
    let s = SCALE as int;
    lemma_scale_cubed();
    assert(weight0(s) == 0 && weight1(s) == 0 && weight2(s) == 0) by (nonlinear_arith)
        requires
            s == 1_000_000,
    ;
    lemma_lone_weight(weight3(s), p3, weight0(s), p0, weight1(s), p1, weight2(s), p2);
    let sum = weight0(s) * p0 + weight1(s) * p1 + weight2(s) * p2 + weight3(s) * p3;
    assert(sum == 1_000_000_000_000_000_000 * p3);
}

/// Run backwards, the curve is the curve through the control points in
/// reverse order.
pub proof fn lemma_bezier_reverses(t: int, p0: int, p1: int, p2: int, p3: int)
    requires
        0 <= t <= SCALE,
    ensures
        bezier_value(SCALE - t, p0, p1, p2, p3) == bezier_value(t, p3, p2, p1, p0),
{
    let s = SCALE as int;
    let u = s - t;
    assert(weight0(u) == weight3(t) && weight1(u) == weight2(t) && weight2(u) == weight1(t)
        && weight3(u) == weight0(t)) by (nonlinear_arith)
        requires
            s == 1_000_000,
            u == s - t,
    ;
}

/// A curve whose control points mirror each other takes the same value at
/// equal distances from its two ends.
pub proof fn lemma_bezier_mirrors(t: int, outer: int, inner: int)
    requires
        0 <= t <= SCALE,
    ensures
        bezier_value(SCALE - t, outer, inner, inner, outer) == bezier_value(
            t,
            outer,
            inner,
            inner,
            outer,
        ),
{
    lemma_bezier_reverses(t, outer, inner, inner, outer);
}

/// The cube of `SCALE`, multiplied out.
proof fn lemma_scale_cubed()
    ensures
        SCALE * SCALE * SCALE == SCALE_CUBED,
{
    assert(1_000_000int * 1_000_000int * 1_000_000int == 1_000_000_000_000_000_000int)
        by (nonlinear_arith);
}

/// A weighted value lies between the weighted bounds.
proof fn lemma_weighted_between(w: int, p: int, lo: int, hi: int)
    requires
        0 <= w,
        lo <= p <= hi,
    ensures
        w * lo <= w * p <= w * hi,
{
    assert(w * lo <= w * p <= w * hi) by (nonlinear_arith)
        requires
            0 <= w,
            lo <= p <= hi,
    ;
}

/// Where one point has all the weight, the weighted sum is that point's
/// value times the weight.
proof fn lemma_lone_weight(w: int, p: int, wa: int, a: int, wb: int, b: int, wc: int, c: int)
    requires
        w == SCALE_CUBED,
        wa == 0,
        wb == 0,
        wc == 0,
    ensures
        w * p == 1_000_000_000_000_000_000 * p,
        wa * a == 0,
        wb * b == 0,
        wc * c == 0,
{
    assert(w * p == 1_000_000_000_000_000_000 * p && wa * a == 0 && wb * b == 0 && wc * c == 0)
        by (nonlinear_arith)
        requires
            w == 1_000_000_000_000_000_000,
            wa == 0,
            wb == 0,
            wc == 0,
    ;
}

/// One weighted control point stays within a quarter of the 128-bit range.
proof fn lemma_term_fits(w: int, p: int)
    requires
        0 <= w <= SCALE_CUBED,
        i64::MIN <= p <= i64::MAX,
    ensures
        -0x1000_0000_0000_0000_0000_0000_0000_0000 <= w * p
            <= 0x1000_0000_0000_0000_0000_0000_0000_0000,
{
    lemma_weighted_between(w, p, i64::MIN as int, i64::MAX as int);
    assert(w * (i64::MIN as int) >= 1_000_000_000_000_000_000 * (i64::MIN as int)
        && w * (i64::MAX as int) <= 1_000_000_000_000_000_000 * (i64::MAX as int));
}

} // verus!
