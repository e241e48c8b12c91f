//! What every fan-curve lookup table satisfies.
use vstd::prelude::*;

use crate::hermite::{
    lemma_hermite_ends, lemma_hermite_negate, lemma_hermite_rising, lemma_round_exact,
    lemma_round_monotone,
};
use crate::spline::{
    abs, clamp_percent, final_tangent, fits, h00, h01, h10, h11, hermite_den, init_tangent,
    limit_tangent, hermite_num, lemma_basis_forms,
    lemma_mul_pos, lemma_px_increasing, lemma_segment_tangents_fit, lemma_valid_bounds, lut_len,
    lut_value, px, py, round_half_away, seg_dx, seg_dy, seg_from, seg_value, spec_lut, valid_curve,
    xs_increasing,
};

use crate::fan_curve::clamp_u8;

verus! {

/// Fan speed on segment `k` at temperature `x`, knots included.
pub open spec fn seg_point(pts: Seq<(u8, u8)>, k: int, x: int) -> int {
    if x == px(pts, k) {
        py(pts, k)
    } else if x == px(pts, k + 1) {
        py(pts, k + 1)
    } else {
        seg_value(pts, k, x)
    }
}

proof fn lemma_seg_from_from(pts: Seq<(u8, u8)>, x: int, k: int)
    requires
        xs_increasing(pts),
        pts.len() >= 2,
        0 <= k <= pts.len() - 2,
        px(pts, k) <= x <= px(pts, pts.len() - 1),
    ensures
        k <= seg_from(pts, x, k) <= pts.len() - 2,
        px(pts, seg_from(pts, x, k)) <= x <= px(pts, seg_from(pts, x, k) + 1),
        seg_from(pts, x, k) > k ==> x > px(pts, seg_from(pts, x, k)),
    decreases pts.len() - k,
{
    if k + 2 >= pts.len() {
    } else if x <= px(pts, k + 1) {
    } else {
        lemma_seg_from_from(pts, x, k + 1);
    }
}

/// The segment the evaluator picks for `x` contains `x`, and only starts at
/// `x` when it is the first one.
pub proof fn lemma_seg_from_contains(pts: Seq<(u8, u8)>, x: int)
    requires
        valid_curve(pts),
        px(pts, 0) <= x <= px(pts, pts.len() - 1),
    ensures
        0 <= seg_from(pts, x, 0) <= pts.len() - 2,
        px(pts, seg_from(pts, x, 0)) <= x <= px(pts, seg_from(pts, x, 0) + 1),
        seg_from(pts, x, 0) > 0 ==> x > px(pts, seg_from(pts, x, 0)),
{
    lemma_valid_bounds(pts);
    lemma_seg_from_from(pts, x, 0);
}

/// Anywhere on segment `k`, the table's value is the segment's value.
pub proof fn lemma_lut_value_on_segment(pts: Seq<(u8, u8)>, k: int, x: int)
    requires
        valid_curve(pts),
        0 <= k <= pts.len() - 2,
        px(pts, k) <= x <= px(pts, k + 1),
    ensures
        lut_value(pts, x) == seg_point(pts, k, x),
{
    lemma_valid_bounds(pts);
    lemma_px_increasing(pts, 0, k);
    lemma_px_increasing(pts, k + 1, pts.len() - 1);
    lemma_seg_from_contains(pts, x);
    let s = seg_from(pts, x, 0);
    if s < k {
        lemma_px_increasing(pts, s + 1, k);
        if s + 1 < k {
            assert(false);
        }
        lemma_px_increasing(pts, s, s + 1);
    } else if s > k {
        lemma_px_increasing(pts, k + 1, s);
        assert(false);
    }
}

/// With both tangents zero and equal knot values, the numerator is the knot
/// value times the denominator.
proof fn lemma_hermite_flat(y: int, d: int, u: int, m0: (int, int), m1: (int, int))
    requires
        m0.0 == 0,
        m1.0 == 0,
    ensures
        hermite_num(y, y, d, u, m0, m1) == y * hermite_den(d, m0, m1),
{
    lemma_basis_forms(d, u);
    let bb = m0.1 * m1.1;
    assert(h00(d, u) + h01(d, u) == (d * d) * d);
    assert((h00(d, u) * y + h01(d, u) * y) * bb == ((d * d) * d) * y * bb) by (nonlinear_arith)
        requires
            h00(d, u) + h01(d, u) == (d * d) * d,
    ;
    assert(d * (crate::spline::h10(d, u) * 0 * m1.1 + crate::spline::h11(d, u) * 0 * m0.1) == 0)
        by (nonlinear_arith);
    assert(((d * d) * d) * y * bb == y * (d * d * d * bb)) by (nonlinear_arith);
}

/// On a segment, the spline value lies between the two knot values, and it
/// moves in the direction of the segment: it never falls on a rising
/// segment and never rises on a falling one.
pub proof fn lemma_segment_shape(pts: Seq<(u8, u8)>, k: int, x1: int, x2: int)
    requires
        valid_curve(pts),
        0 <= k <= pts.len() - 2,
        px(pts, k) <= x1 <= x2 <= px(pts, k + 1),
    ensures
        py(pts, k) <= py(pts, k + 1) ==> py(pts, k) <= seg_point(pts, k, x1) <= py(pts, k + 1),
        py(pts, k) >= py(pts, k + 1) ==> py(pts, k + 1) <= seg_point(pts, k, x1) <= py(pts, k),
        py(pts, k) <= py(pts, k + 1) ==> seg_point(pts, k, x1) <= seg_point(pts, k, x2),
        py(pts, k) >= py(pts, k + 1) ==> seg_point(pts, k, x1) >= seg_point(pts, k, x2),
{
    lemma_valid_bounds(pts);
    lemma_segment_tangents_fit(pts, k);
    let y0 = py(pts, k);
    let y1 = py(pts, k + 1);
    let d = seg_dx(pts, k);
    let dy = seg_dy(pts, k);
    let m0 = final_tangent(pts, k);
    let m1 = final_tangent(pts, k + 1);
    let den = hermite_den(d, m0, m1);
    let u1 = x1 - px(pts, k);
    let u2 = x2 - px(pts, k);
    lemma_mul_pos(m0.1, m1.1);
    assert(d * d * d >= 1) by (nonlinear_arith)
        requires
            d >= 1,
    ;
    lemma_mul_pos(d * d * d, m0.1 * m1.1);
    assert(den >= 1);
    lemma_hermite_ends(y0, y1, d, m0, m1);
    lemma_round_exact(y0, den);
    lemma_round_exact(y1, den);
    let n1 = hermite_num(y0, y1, d, u1, m0, m1);
    let n2 = hermite_num(y0, y1, d, u2, m0, m1);
    // Bounds and order of the numerators at u1 <= u2.
    if dy > 0 {
        lemma_hermite_rising(y0, y1, d, 0, u1, m0, m1);
        lemma_hermite_rising(y0, y1, d, u1, u2, m0, m1);
        lemma_hermite_rising(y0, y1, d, u2, d, m0, m1);
        assert(y0 * den >= 0) by (nonlinear_arith)
            requires
                y0 >= 0,
                den >= 1,
        ;
        lemma_round_monotone(y0 * den, n1, den);
        lemma_round_monotone(n1, n2, den);
        lemma_round_monotone(n2, y1 * den, den);
    } else if dy < 0 {
        let nm0 = (-m0.0, m0.1);
        let nm1 = (-m1.0, m1.1);
        assert(fits(nm0, -y1 - -y0, d) && fits(nm1, -y1 - -y0, d)) by {
            assert(-y1 - -y0 == -dy);
            assert((-m0.0) * (-dy) == m0.0 * dy) by (nonlinear_arith);
            assert((-m1.0) * (-dy) == m1.0 * dy) by (nonlinear_arith);
            assert(abs(-m0.0) == abs(m0.0) && abs(-m1.0) == abs(m1.0) && abs(-dy) == abs(dy));
        }
        lemma_hermite_negate(y0, y1, d, 0, m0, m1);
        lemma_hermite_negate(y0, y1, d, u1, m0, m1);
        lemma_hermite_negate(y0, y1, d, u2, m0, m1);
        lemma_hermite_negate(y0, y1, d, d, m0, m1);
        lemma_hermite_rising(-y0, -y1, d, 0, u1, nm0, nm1);
        lemma_hermite_rising(-y0, -y1, d, u1, u2, nm0, nm1);
        lemma_hermite_rising(-y0, -y1, d, u2, d, nm0, nm1);
        assert(y1 * den >= 0) by (nonlinear_arith)
            requires
                y1 >= 0,
                den >= 1,
        ;
        lemma_round_monotone(y1 * den, n2, den);
        lemma_round_monotone(n2, n1, den);
        lemma_round_monotone(n1, y0 * den, den);
    } else {
        assert(m0.0 == 0 && m1.0 == 0) by (nonlinear_arith)
            requires
                abs(m0.0) * d <= 3 * abs(dy) * m0.1,
                abs(m1.0) * d <= 3 * abs(dy) * m1.1,
                dy == 0,
                d >= 1,
        ;
        lemma_hermite_flat(y0, d, u1, m0, m1);
        lemma_hermite_flat(y0, d, u2, m0, m1);
    }
}

/// A table entry is the value at the first knot's temperature plus its index.
pub proof fn lemma_lut_entry(pts: Seq<(u8, u8)>, j: int)
    requires
        valid_curve(pts),
        0 <= j < lut_len(pts),
    ensures
        spec_lut(pts)[j] as int == lut_value(pts, px(pts, 0) + j),
        0 <= lut_value(pts, px(pts, 0) + j) <= 100,
{
    lemma_valid_bounds(pts);
    let x = px(pts, 0) + j;
    lemma_seg_from_contains(pts, x);
    let s = seg_from(pts, x, 0);
    assert(0 <= py(pts, s) <= 100);
    assert(0 <= py(pts, s + 1) <= 100);
    assert(0 <= clamp_percent(
        round_half_away(
            hermite_num(
                py(pts, s),
                py(pts, s + 1),
                seg_dx(pts, s),
                x - px(pts, s),
                final_tangent(pts, s),
                final_tangent(pts, s + 1),
            ),
            hermite_den(seg_dx(pts, s), final_tangent(pts, s), final_tangent(pts, s + 1)),
        ),
    ) <= 100);
}

/// The table has one entry per shifted degree from the first knot to the
/// last, and every entry is a fan speed between 0 and 100.
pub proof fn lemma_lut_in_range(pts: Seq<(u8, u8)>)
    requires
        valid_curve(pts),
    ensures
        spec_lut(pts).len() == px(pts, pts.len() - 1) - px(pts, 0) + 1,
        forall|j: int| 0 <= j < spec_lut(pts).len() ==> #[trigger] spec_lut(pts)[j] <= 100,
{
    lemma_valid_bounds(pts);
    lemma_px_increasing(pts, 0, pts.len() - 1);
    assert forall|j: int| 0 <= j < spec_lut(pts).len() implies #[trigger] spec_lut(pts)[j] <= 100 by {
        lemma_lut_entry(pts, j);
    }
}

/// The table passes exactly through every knot.
pub proof fn lemma_lut_hits_knots(pts: Seq<(u8, u8)>, k: int)
    requires
        valid_curve(pts),
        0 <= k < pts.len(),
    ensures
        0 <= px(pts, k) - px(pts, 0) < spec_lut(pts).len(),
        spec_lut(pts)[px(pts, k) - px(pts, 0)] as int == py(pts, k),
{
    lemma_valid_bounds(pts);
    lemma_px_increasing(pts, 0, k);
    lemma_px_increasing(pts, k, pts.len() - 1);
    lemma_lut_entry(pts, px(pts, k) - px(pts, 0));
    if k <= pts.len() - 2 {
        lemma_px_increasing(pts, k, k + 1);
        lemma_lut_value_on_segment(pts, k, px(pts, k));
    } else {
        lemma_px_increasing(pts, k - 1, k);
        lemma_lut_value_on_segment(pts, k - 1, px(pts, k));
    }
}

/// Between two neighbouring knots the table stays between their fan speeds:
/// the curve never overshoots a knot.
pub proof fn lemma_lut_overshoot_free(pts: Seq<(u8, u8)>, k: int, x: int)
    requires
        valid_curve(pts),
        0 <= k < pts.len() - 1,
        px(pts, k) <= x <= px(pts, k + 1),
    ensures
        0 <= x - px(pts, 0) < spec_lut(pts).len(),
        py(pts, k) <= py(pts, k + 1) ==> py(pts, k) <= spec_lut(pts)[x - px(pts, 0)] <= py(
            pts,
            k + 1,
        ),
        py(pts, k) >= py(pts, k + 1) ==> py(pts, k + 1) <= spec_lut(pts)[x - px(pts, 0)] <= py(
            pts,
            k,
        ),
{
    lemma_valid_bounds(pts);
    lemma_px_increasing(pts, 0, k);
    lemma_px_increasing(pts, k + 1, pts.len() - 1);
    lemma_lut_entry(pts, x - px(pts, 0));
    lemma_lut_value_on_segment(pts, k, x);
    lemma_segment_shape(pts, k, x, x);
}

/// A curve whose fan speeds never fall gives a table that never falls.
pub proof fn lemma_lut_nondecreasing(pts: Seq<(u8, u8)>)
    requires
        valid_curve(pts),
        forall|i: int| 0 <= i < pts.len() - 1 ==> #[trigger] pts[i].1 <= pts[i + 1].1,
    ensures
        forall|j: int|
            0 <= j < spec_lut(pts).len() - 1 ==> #[trigger] spec_lut(pts)[j] <= spec_lut(pts)[j
                + 1],
{
    lemma_valid_bounds(pts);
    lemma_px_increasing(pts, 0, pts.len() - 1);
    assert forall|j: int| 0 <= j < spec_lut(pts).len() - 1 implies #[trigger] spec_lut(pts)[j]
        <= spec_lut(pts)[j + 1] by {
        let x = px(pts, 0) + j;
        lemma_seg_from_contains(pts, x + 1);
        let s = seg_from(pts, x + 1, 0);
        assert(pts[s].1 <= pts[s + 1].1);
        lemma_lut_entry(pts, j);
        lemma_lut_entry(pts, j + 1);
        lemma_lut_value_on_segment(pts, s, x);
        lemma_lut_value_on_segment(pts, s, x + 1);
        lemma_segment_shape(pts, s, x, x + 1);
    }
}

/// A Hermite segment whose tangents both equal its own slope is the
/// straight line between its ends.
proof fn lemma_linear_segment(y0: int, y1: int, d: int, u: int)
    requires
        d > 0,
    ensures
        hermite_num(y0, y1, d, u, (y1 - y0, d), (y1 - y0, d)) == (d * d) * ((d * d) * (y0 * d + (
        y1 - y0) * u)),
        hermite_den(d, (y1 - y0, d), (y1 - y0, d)) == (d * d) * ((d * d) * d),
{
    crate::spline::lemma_basis_forms(d, u);
    let m = y1 - y0;
    let a = h00(d, u);
    let b = h01(d, u);
    let c = h10(d, u);
    let e = h11(d, u);
    let dd = d * d;
    assert(a == dd * d - b);
    assert(c + e == u * dd - b);
    assert(a * y0 == dd * d * y0 - b * y0) by (nonlinear_arith)
        requires
            a == dd * d - b,
    ;
    assert(m * (c + e) == m * u * dd - m * b) by (nonlinear_arith)
        requires
            c + e == u * dd - b,
    ;
    assert(m * b == b * y1 - b * y0) by (nonlinear_arith)
        requires
            m == y1 - y0,
    ;
    let br = a * y0 + b * y1 + m * (c + e);
    assert(br == dd * d * y0 + m * u * dd);
    assert(dd * (y0 * d + m * u) == dd * d * y0 + m * u * dd) by (nonlinear_arith);
    assert((a * y0 + b * y1) * dd + d * (c * m * d + e * m * d) == dd * br) by (nonlinear_arith)
        requires
            br == a * y0 + b * y1 + m * (c + e),
            dd == d * d,
    ;
    assert(d * d * d * dd == dd * (dd * d)) by (nonlinear_arith)
        requires
            dd == d * d,
    ;
}

/// A Hermite segment with both tangents flat between equal ends stays at
/// their height.
proof fn lemma_flat_segment(y0: int, d: int, u: int)
    requires
        d > 0,
    ensures
        hermite_num(y0, y0, d, u, (0, 1), (0, 1)) == (d * d) * (y0 * d),
        hermite_den(d, (0, 1), (0, 1)) == (d * d) * d,
{
    crate::spline::lemma_basis_forms(d, u);
    let a = h00(d, u);
    let b = h01(d, u);
    assert(a + b == (d * d) * d);
    assert(a * y0 + b * y0 == (a + b) * y0) by (nonlinear_arith);
    assert(((d * d) * d) * y0 == (d * d) * (y0 * d)) by (nonlinear_arith);
    let c = h10(d, u);
    let e = h11(d, u);
    assert((a * y0 + b * y0) * (1 * 1) + d * (c * 0 * 1 + e * 0 * 1) == a * y0 + b * y0)
        by (nonlinear_arith);
    assert(d * d * d * (1 * 1) == (d * d) * d) by (nonlinear_arith);
}

/// Scaling numerator and denominator alike does not change the rounding.
proof fn lemma_round_scale(k: int, a: int, b: int)
    requires
        k > 0,
        a >= 0,
        b > 0,
    ensures
        round_half_away(k * a, k * b) == round_half_away(a, b),
{
    assert(k * a >= 0) by (nonlinear_arith)
        requires
            k > 0,
            a >= 0,
    ;
    assert(2 * (k * a) + k * b == k * (2 * a + b)) by (nonlinear_arith);
    assert(2 * (k * b) == k * (2 * b)) by (nonlinear_arith);
    vstd::arithmetic::div_mod::lemma_div_multiples_vanish_quotient(k, 2 * a + b, 2 * b);
}

/// A curve of two knots is the straight line between them: entry `j` is the
/// first fan speed plus `j` steps of the slope, rounded half away from zero.
pub proof fn lemma_two_knots_linear(pts: Seq<(u8, u8)>, j: int)
    requires
        valid_curve(pts),
        pts.len() == 2,
        0 <= j < lut_len(pts),
    ensures
        spec_lut(pts)[j] as int == round_half_away(
            py(pts, 0) * seg_dx(pts, 0) + seg_dy(pts, 0) * j,
            seg_dx(pts, 0),
        ),
{
    lemma_valid_bounds(pts);
    assert(crate::spline::x_step_ok(pts, 0));
    lemma_lut_entry(pts, j);
    let d = seg_dx(pts, 0);
    let y0 = py(pts, 0);
    let y1 = py(pts, 1);
    let dy = seg_dy(pts, 0);
    let x = px(pts, 0) + j;
    assert(seg_from(pts, x, 0) == 0);
    let n = y0 * d + dy * j;
    assert(n == y0 * (d - j) + y1 * j) by (nonlinear_arith)
        requires
            n == y0 * d + dy * j,
            dy == y1 - y0,
    ;
    assert(0 <= n <= 100 * d) by (nonlinear_arith)
        requires
            n == y0 * (d - j) + y1 * j,
            0 <= y0 <= 100,
            0 <= y1 <= 100,
            0 <= j < d + 1,
    ;
    if j == 0 {
        assert(n == y0 * d) by (nonlinear_arith)
            requires
                n == y0 * d + dy * j,
                j == 0,
        ;
        lemma_round_exact(y0, d);
    } else if j == d {
        assert(n == y1 * d) by (nonlinear_arith)
            requires
                n == y0 * (d - j) + y1 * j,
                j == d,
        ;
        lemma_round_exact(y1, d);
    } else {
        let t = init_tangent(pts, 0);
        assert(t == (dy, d));
        if dy == 0 {
            assert(final_tangent(pts, 0) == (0int, 1int));
            assert(final_tangent(pts, 1) == (0int, 1int));
            lemma_flat_segment(y0, d, j);
            assert(y1 == y0);
            lemma_mul_pos(d, d);
            assert(n == y0 * d) by (nonlinear_arith)
                requires
                    n == y0 * d + dy * j,
                    dy == 0,
            ;
            assert(y0 * d >= 0) by (nonlinear_arith)
                requires
                    y0 >= 0,
                    d > 0,
            ;
            lemma_round_scale(d * d, y0 * d, d);
        } else {
            assert(dy * dy > 0) by (nonlinear_arith)
                requires
                    dy != 0,
            ;
            assert(abs(dy) * d <= 3 * abs(dy) * d) by (nonlinear_arith)
                requires
                    d > 0,
            ;
            assert(limit_tangent(t, dy, d) == t);
            assert(final_tangent(pts, 0) == (dy, d));
            assert(final_tangent(pts, 1) == (dy, d));
            lemma_linear_segment(y0, y1, d, j);
            lemma_mul_pos(d, d);
            assert((d * d) * (d * d) > 0) by (nonlinear_arith)
                requires
                    d * d > 0,
            ;
            assert(hermite_num(y0, y1, d, j, (dy, d), (dy, d)) == ((d * d) * (d * d)) * n)
                by (nonlinear_arith)
                requires
                    hermite_num(y0, y1, d, j, (dy, d), (dy, d)) == (d * d) * ((d * d) * (y0 * d
                        + (y1 - y0) * j)),
                    dy == y1 - y0,
                    n == y0 * d + dy * j,
            ;
            assert(hermite_den(d, (dy, d), (dy, d)) == ((d * d) * (d * d)) * d) by (nonlinear_arith)
                requires
                    hermite_den(d, (dy, d), (dy, d)) == (d * d) * ((d * d) * d),
            ;
            lemma_round_scale((d * d) * (d * d), n, d);
        }
        assert(2 * n + d <= 201 * d);
        assert((2 * n + d) / (2 * d) <= 100) by (nonlinear_arith)
            requires
                0 <= 2 * n + d <= 201 * d,
                d > 0,
        ;
        assert(0 <= (2 * n + d) / (2 * d)) by (nonlinear_arith)
            requires
                0 <= 2 * n + d,
                d > 0,
        ;
    }
}

/// The fixed-size table of a curve, sized from its first to its last knot,
/// is the runtime table, entry for entry, where the knots' temperatures stay
/// on the EC's scale.
pub proof fn lemma_fixed_table_matches_runtime(pts: Seq<(u8, u8)>, fixed: Seq<u8>)
    requires
        valid_curve(pts),
        pts[pts.len() - 1].0 <= 182,
        fixed.len() == pts[pts.len() - 1].0 - pts[0].0 + 1,
        forall|j: int|
            0 <= j < fixed.len() ==> #[trigger] fixed[j] == (if j < lut_len(pts) {
                spec_lut(pts)[j]
            } else {
                0u8
            }),
    ensures
        fixed == spec_lut(pts),
{
    lemma_valid_bounds(pts);
    lemma_px_increasing(pts, 0, pts.len() - 1);
    assert(lut_len(pts) == fixed.len());
    assert(fixed =~= spec_lut(pts));
}

/// A profile whose table is its curve's answers each knot's temperature,
/// on the EC's scale, with that knot's fan speed.
pub proof fn lemma_profile_hits_knots(
    pts: Seq<(u8, u8)>,
    start: u8,
    end: u8,
    lut: Seq<u8>,
    k: int,
)
    requires
        valid_curve(pts),
        pts[pts.len() - 1].0 <= 182,
        start == pts[0].0 + 73,
        end == pts[pts.len() - 1].0 + 73,
        lut == spec_lut(pts),
        0 <= k < pts.len(),
    ensures
        start <= pts[k].0 + 73 <= end,
        lut[clamp_u8((pts[k].0 + 73) as u8, start, end) - start] as int == pts[k].1,
{
    lemma_valid_bounds(pts);
    lemma_px_increasing(pts, 0, k);
    lemma_px_increasing(pts, k, pts.len() - 1);
    lemma_lut_hits_knots(pts, k);
}

} // verus!
