//! The mathematical model of the fan-curve spline.
//!
//! A curve is a list of `(temperature, fan percent)` knots. The temperature of
//! every knot is shifted onto the EC's temperature scale, the curve is
//! interpolated with a monotone cubic Hermite spline (Fritsch–Carlson tangent
//! limiting), and the spline is sampled at every integer temperature between
//! the first and the last knot.
//!
//! All arithmetic here is exact: slopes and tangents are fractions
//! `(numerator, denominator)` with a positive denominator.
use vstd::prelude::*;

verus! {

/// Why a list of knots does not describe a fan curve.
#[derive(Clone, Copy, Debug, PartialEq, Eq, Structural)]
pub enum CurveError {
    /// Fewer than two knots: there is no start and end.
    TooFewPoints,
    /// The first knot's fan speed is above 100%.
    StartYOutOfRange,
    /// The last knot's fan speed is above 100%.
    EndYOutOfRange,
    /// The shifted temperatures are not strictly increasing.
    NotIncreasing,
    /// Some knot's fan speed is above 100%.
    YOutOfRange,
}

/// A knot temperature moved onto the EC's scale (`+73`, saturating at 255).
pub open spec fn shifted_x(x: u8) -> int {
    if x as int + 73 > 255 {
        255
    } else {
        x as int + 73
    }
}

/// Shifted temperature of knot `i`.
pub open spec fn px(pts: Seq<(u8, u8)>, i: int) -> int {
    shifted_x(pts[i].0)
}

/// Fan speed of knot `i`.
pub open spec fn py(pts: Seq<(u8, u8)>, i: int) -> int {
    pts[i].1 as int
}

/// Knot `i + 1` lies strictly to the right of knot `i`.
pub open spec fn x_step_ok(pts: Seq<(u8, u8)>, i: int) -> bool {
    px(pts, i) < px(pts, i + 1)
}

/// Knot `i` has a fan speed of at most 100%.
pub open spec fn y_ok(pts: Seq<(u8, u8)>, i: int) -> bool {
    pts[i].1 <= 100
}

pub open spec fn xs_increasing(pts: Seq<(u8, u8)>) -> bool {
    forall|i: int| 0 <= i < pts.len() - 1 ==> #[trigger] x_step_ok(pts, i)
}

pub open spec fn ys_in_range(pts: Seq<(u8, u8)>) -> bool {
    forall|i: int| 0 <= i < pts.len() ==> #[trigger] y_ok(pts, i)
}

/// The first check a list of knots fails, in the order the checks are made.
pub open spec fn curve_error(pts: Seq<(u8, u8)>) -> Option<CurveError> {
    if pts.len() < 2 {
        Some(CurveError::TooFewPoints)
    } else if pts[0].1 > 100 {
        Some(CurveError::StartYOutOfRange)
    } else if pts[pts.len() - 1].1 > 100 {
        Some(CurveError::EndYOutOfRange)
    } else if !xs_increasing(pts) {
        Some(CurveError::NotIncreasing)
    } else if !ys_in_range(pts) {
        Some(CurveError::YOutOfRange)
    } else {
        None
    }
}

pub open spec fn valid_curve(pts: Seq<(u8, u8)>) -> bool {
    curve_error(pts) is None
}

/// Rise of segment `i` (from knot `i` to knot `i + 1`).
pub open spec fn seg_dy(pts: Seq<(u8, u8)>, i: int) -> int {
    py(pts, i + 1) - py(pts, i)
}

/// Run of segment `i`.
pub open spec fn seg_dx(pts: Seq<(u8, u8)>, i: int) -> int {
    px(pts, i + 1) - px(pts, i)
}

/// Tangent at knot `k` before limiting: the slope of the adjoining segment at
/// either end, the mean of the two adjoining slopes inside.
pub open spec fn init_tangent(pts: Seq<(u8, u8)>, k: int) -> (int, int) {
    let n = pts.len() as int;
    if k == 0 {
        (seg_dy(pts, 0), seg_dx(pts, 0))
    } else if k == n - 1 {
        (seg_dy(pts, n - 2), seg_dx(pts, n - 2))
    } else {
        (
            seg_dy(pts, k - 1) * seg_dx(pts, k) + seg_dy(pts, k) * seg_dx(pts, k - 1),
            2 * seg_dx(pts, k - 1) * seg_dx(pts, k),
        )
    }
}

pub open spec fn abs(v: int) -> int {
    if v < 0 {
        -v
    } else {
        v
    }
}

/// Fritsch–Carlson limiting of tangent `t` against a segment of slope
/// `dy / dx`: zero on a flat segment or where the signs disagree, at most
/// three times the slope in magnitude otherwise.
pub open spec fn limit_tangent(t: (int, int), dy: int, dx: int) -> (int, int) {
    if dy == 0 {
        (0, 1)
    } else if t.0 * dy <= 0 {
        (0, 1)
    } else if abs(t.0) * dx > 3 * abs(dy) * t.1 {
        (3 * dy, dx)
    } else {
        t
    }
}

/// Tangent at knot `k` after the segments on both sides have limited it, the
/// left one first.
pub open spec fn final_tangent(pts: Seq<(u8, u8)>, k: int) -> (int, int) {
    let t = init_tangent(pts, k);
    let a = if k > 0 {
        limit_tangent(t, seg_dy(pts, k - 1), seg_dx(pts, k - 1))
    } else {
        t
    };
    if k < pts.len() - 1 {
        limit_tangent(a, seg_dy(pts, k), seg_dx(pts, k))
    } else {
        a
    }
}

pub open spec fn h00(d: int, u: int) -> int {
    2 * u * u * u - 3 * u * u * d + d * d * d
}

pub open spec fn h01(d: int, u: int) -> int {
    -2 * u * u * u + 3 * u * u * d
}

pub open spec fn h10(d: int, u: int) -> int {
    u * u * u - 2 * u * u * d + u * d * d
}

pub open spec fn h11(d: int, u: int) -> int {
    u * u * u - u * u * d
}

/// Numerator of the Hermite segment from `(0, y0)` to `(d, y1)` with tangents
/// `m0`, `m1`, evaluated at `u`; the value is this over [`hermite_den`].
pub open spec fn hermite_num(y0: int, y1: int, d: int, u: int, m0: (int, int), m1: (int, int)) -> int {
    (h00(d, u) * y0 + h01(d, u) * y1) * (m0.1 * m1.1) + d * (h10(d, u) * m0.0 * m1.1 + h11(d, u)
        * m1.0 * m0.1)
}

pub open spec fn hermite_den(d: int, m0: (int, int), m1: (int, int)) -> int {
    d * d * d * (m0.1 * m1.1)
}

/// `n / den` rounded to the nearest integer, halves away from zero.
pub open spec fn round_half_away(n: int, den: int) -> int {
    if n >= 0 {
        (2 * n + den) / (2 * den)
    } else {
        -((den - 2 * n) / (2 * den))
    }
}

pub open spec fn clamp_percent(v: int) -> int {
    if v < 0 {
        0
    } else if v > 100 {
        100
    } else {
        v
    }
}

/// The segment used for temperature `x`: the first one, from `k` on, whose
/// right end is not below `x` (the last segment if none is).
pub open spec fn seg_from(pts: Seq<(u8, u8)>, x: int, k: int) -> int
    decreases pts.len() - k,
{
    if k + 2 >= pts.len() {
        k
    } else if x <= px(pts, k + 1) {
        k
    } else {
        seg_from(pts, x, k + 1)
    }
}

/// Spline value on segment `k` at temperature `x`, before the knot rule.
pub open spec fn seg_value(pts: Seq<(u8, u8)>, k: int, x: int) -> int {
    let m0 = final_tangent(pts, k);
    let m1 = final_tangent(pts, k + 1);
    let d = seg_dx(pts, k);
    clamp_percent(
        round_half_away(
            hermite_num(py(pts, k), py(pts, k + 1), d, x - px(pts, k), m0, m1),
            hermite_den(d, m0, m1),
        ),
    )
}

/// Fan speed the curve gives at (shifted) temperature `x`.
pub open spec fn lut_value(pts: Seq<(u8, u8)>, x: int) -> int {
    let k = seg_from(pts, x, 0);
    if x == px(pts, k) {
        py(pts, k)
    } else if x == px(pts, k + 1) {
        py(pts, k + 1)
    } else {
        seg_value(pts, k, x)
    }
}

/// Number of entries of the lookup table: one per shifted degree from the
/// first knot to the last.
pub open spec fn lut_len(pts: Seq<(u8, u8)>) -> int {
    px(pts, pts.len() - 1) - px(pts, 0) + 1
}

/// The lookup table of a valid curve: entry `j` is the fan speed at the
/// first knot's shifted temperature plus `j`.
pub open spec fn spec_lut(pts: Seq<(u8, u8)>) -> Seq<u8> {
    Seq::new(lut_len(pts) as nat, |j: int| lut_value(pts, px(pts, 0) + j) as u8)
}

} // verus!

verus! {

/// Coordinates of a valid curve stay within the EC's scale.
pub proof fn lemma_valid_bounds(pts: Seq<(u8, u8)>)
    requires
        valid_curve(pts),
    ensures
        pts.len() >= 2,
        forall|i: int| 0 <= i < pts.len() ==> 73 <= #[trigger] px(pts, i) <= 255,
        forall|i: int| 0 <= i < pts.len() ==> 0 <= #[trigger] py(pts, i) <= 100,
        forall|i: int| 0 <= i < pts.len() - 1 ==> 1 <= #[trigger] seg_dx(pts, i) <= 182,
        forall|i: int| 0 <= i < pts.len() - 1 ==> -100 <= #[trigger] seg_dy(pts, i) <= 100,
{
    assert forall|i: int| 0 <= i < pts.len() implies 0 <= #[trigger] py(pts, i) <= 100 by {
        assert(y_ok(pts, i));
    }
    assert forall|i: int| 0 <= i < pts.len() - 1 implies 1 <= #[trigger] seg_dx(pts, i) <= 182 by {
        assert(x_step_ok(pts, i));
    }
    assert forall|i: int| 0 <= i < pts.len() - 1 implies -100 <= #[trigger] seg_dy(pts, i) <= 100 by {
        assert(y_ok(pts, i));
        assert(y_ok(pts, i + 1));
    }
}

/// Tangents of a valid curve have small numerators and positive denominators.
pub open spec fn tangent_in_bounds(t: (int, int)) -> bool {
    &&& 1 <= t.1 <= 66248
    &&& -36400 <= t.0 <= 36400
}

pub proof fn lemma_limit_bounds(t: (int, int), dy: int, dx: int)
    requires
        tangent_in_bounds(t),
        -100 <= dy <= 100,
        1 <= dx <= 182,
    ensures
        tangent_in_bounds(limit_tangent(t, dy, dx)),
{
}

pub proof fn lemma_tangent_bounds(pts: Seq<(u8, u8)>, k: int)
    requires
        valid_curve(pts),
        0 <= k < pts.len(),
    ensures
        tangent_in_bounds(init_tangent(pts, k)),
        tangent_in_bounds(final_tangent(pts, k)),
{
    lemma_valid_bounds(pts);
    let n = pts.len() as int;
    if k != 0 && k != n - 1 {
        let a = seg_dy(pts, k - 1);
        let b = seg_dx(pts, k);
        let c = seg_dy(pts, k);
        let d = seg_dx(pts, k - 1);
        assert(-18200 <= a * b <= 18200) by (nonlinear_arith)
            requires
                -100 <= a <= 100,
                1 <= b <= 182,
        ;
        assert(-18200 <= c * d <= 18200) by (nonlinear_arith)
            requires
                -100 <= c <= 100,
                1 <= d <= 182,
        ;
        assert(2 <= 2 * d * b <= 66248) by (nonlinear_arith)
            requires
                1 <= b <= 182,
                1 <= d <= 182,
        ;
    }
    let t = init_tangent(pts, k);
    if k > 0 {
        lemma_limit_bounds(t, seg_dy(pts, k - 1), seg_dx(pts, k - 1));
    }
    let a = if k > 0 {
        limit_tangent(t, seg_dy(pts, k - 1), seg_dx(pts, k - 1))
    } else {
        t
    };
    if k < n - 1 {
        lemma_limit_bounds(a, seg_dy(pts, k), seg_dx(pts, k));
    }
}

} // verus!

verus! {

/// The Hermite basis polynomials in the nested-product form the evaluator
/// computes them in.
pub proof fn lemma_basis_forms(d: int, u: int)
    ensures
        h00(d, u) == 2 * (u * u * u) - 3 * ((u * u) * d) + (d * d) * d,
        h01(d, u) == -2 * (u * u * u) + 3 * ((u * u) * d),
        h10(d, u) == u * u * u - 2 * ((u * u) * d) + u * (d * d),
        h11(d, u) == u * u * u - (u * u) * d,
{
    assert(2 * u * u * u == 2 * (u * u * u)) by (nonlinear_arith);
    assert(3 * u * u * d == 3 * ((u * u) * d)) by (nonlinear_arith);
    assert(-2 * u * u * u == -2 * (u * u * u)) by (nonlinear_arith);
    assert(2 * u * u * d == 2 * ((u * u) * d)) by (nonlinear_arith);
    assert(u * d * d == u * (d * d)) by (nonlinear_arith);
}

} // verus!

verus! {

pub proof fn lemma_mul_le(x: int, xb: int, y: int, yb: int)
    by (nonlinear_arith)
    requires
        0 <= x <= xb,
        0 <= y <= yb,
    ensures
        0 <= x * y <= xb * yb,
{
}

pub proof fn lemma_mul_pos(x: int, y: int)
    by (nonlinear_arith)
    requires
        1 <= x,
        1 <= y,
    ensures
        1 <= x * y,
{
}

} // verus!

verus! {

/// Shifted temperatures increase along the knots.
pub proof fn lemma_px_increasing(pts: Seq<(u8, u8)>, i: int, j: int)
    requires
        xs_increasing(pts),
        0 <= i <= j < pts.len(),
    ensures
        px(pts, i) <= px(pts, j),
        i < j ==> px(pts, i) < px(pts, j),
    decreases j - i,
{
    if i < j {
        lemma_px_increasing(pts, i, j - 1);
        assert(x_step_ok(pts, j - 1));
    }
}

} // verus!

verus! {

/// Tangent `t` respects a segment of slope `dy / dx`: same sign as the slope
/// (zero on a flat segment) and at most three times its magnitude.
pub open spec fn fits(t: (int, int), dy: int, dx: int) -> bool {
    &&& t.1 >= 1
    &&& t.0 * dy >= 0
    &&& abs(t.0) * dx <= 3 * abs(dy) * t.1
}

/// A zero tangent fits every segment.
pub proof fn lemma_zero_fits(dy: int, dx: int)
    requires
        dx >= 1,
    ensures
        fits((0, 1), dy, dx),
{
    assert(abs(0) == 0);
    assert(0 * dy == 0) by (nonlinear_arith);
    assert(0 * dx == 0) by (nonlinear_arith);
    assert(3 * abs(dy) * 1 >= 0) by (nonlinear_arith);
}

/// Limiting against a segment makes a tangent fit that segment.
pub proof fn lemma_limit_fits(t: (int, int), dy: int, dx: int)
    requires
        t.1 >= 1,
        dx >= 1,
    ensures
        fits(limit_tangent(t, dy, dx), dy, dx),
{
    let r = limit_tangent(t, dy, dx);
    if dy == 0 || t.0 * dy <= 0 {
        lemma_zero_fits(dy, dx);
    } else if abs(t.0) * dx > 3 * abs(dy) * t.1 {
        assert(r == (3 * dy, dx));
        assert((3 * dy) * dy >= 0) by (nonlinear_arith);
        assert(abs(3 * dy) == 3 * abs(dy));
    } else {
        assert(r == t);
    }
}

/// Limiting a fitting tangent against a neighbouring segment keeps it fitting.
pub proof fn lemma_limit_keeps_fit(t: (int, int), dy: int, dx: int, dy2: int, dx2: int)
    requires
        fits(t, dy, dx),
        dx >= 1,
        dx2 >= 1,
    ensures
        fits(limit_tangent(t, dy2, dx2), dy, dx),
{
    lemma_zero_fits(dy, dx);
    if dy2 != 0 && t.0 * dy2 > 0 && abs(t.0) * dx2 > 3 * abs(dy2) * t.1 {
        // The limited value 3 * dy2 / dx2 has the sign of t and a smaller magnitude.
        let a = abs(t.0);
        let b = t.1;
        let c = abs(dy2);
        let e = abs(dy);
        assert(t.0 != 0) by (nonlinear_arith)
            requires
                t.0 * dy2 > 0,
        ;
        assert(dy != 0) by (nonlinear_arith)
            requires
                t.0 != 0,
                abs(t.0) * dx <= 3 * abs(dy) * t.1,
                dx >= 1,
                abs(t.0) > 0,
        ;
        assert((t.0 > 0) == (dy2 > 0)) by (nonlinear_arith)
            requires
                t.0 * dy2 > 0,
        ;
        assert((t.0 > 0) == (dy > 0)) by (nonlinear_arith)
            requires
                t.0 * dy >= 0,
                t.0 != 0,
                dy != 0,
        ;
        assert(3 * c * dx <= 3 * e * dx2) by (nonlinear_arith)
            requires
                a * dx2 > 3 * c * b,
                a * dx <= 3 * e * b,
                b >= 1,
                dx >= 1,
                dx2 >= 1,
                c >= 0,
                e >= 0,
                a >= 0,
        ;
        assert(3 * dy2 * dy >= 0) by (nonlinear_arith)
            requires
                (dy2 > 0) == (dy > 0),
                dy != 0,
                dy2 != 0,
        ;
        assert(abs(3 * dy2) == 3 * c);
    }
}

/// Both tangents of every segment fit that segment.
pub proof fn lemma_segment_tangents_fit(pts: Seq<(u8, u8)>, k: int)
    requires
        valid_curve(pts),
        0 <= k < pts.len() - 1,
    ensures
        fits(final_tangent(pts, k), seg_dy(pts, k), seg_dx(pts, k)),
        fits(final_tangent(pts, k + 1), seg_dy(pts, k), seg_dx(pts, k)),
{
    lemma_valid_bounds(pts);
    lemma_tangent_bounds(pts, k);
    lemma_tangent_bounds(pts, k + 1);
    let n = pts.len() as int;
    // Left end: the last limiting of tangent k is against segment k itself.
    let t = init_tangent(pts, k);
    let a = if k > 0 {
        limit_tangent(t, seg_dy(pts, k - 1), seg_dx(pts, k - 1))
    } else {
        t
    };
    if k > 0 {
        lemma_limit_bounds(t, seg_dy(pts, k - 1), seg_dx(pts, k - 1));
    }
    lemma_limit_fits(a, seg_dy(pts, k), seg_dx(pts, k));
    // Right end: limited against segment k, then possibly against segment k + 1.
    let t2 = init_tangent(pts, k + 1);
    let a2 = limit_tangent(t2, seg_dy(pts, k), seg_dx(pts, k));
    lemma_limit_fits(t2, seg_dy(pts, k), seg_dx(pts, k));
    if k + 1 < n - 1 {
        lemma_limit_keeps_fit(a2, seg_dy(pts, k), seg_dx(pts, k), seg_dy(pts, k + 1), seg_dx(pts, k + 1));
    }
}

} // verus!
