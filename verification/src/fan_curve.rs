//! Fan-curve lookup tables.
use vstd::prelude::*;
use vstd::string::StringExecFns;

use crate::temp::{EcTemp, ec_temp_to_celsius};
use crate::text::{hex, push_hex, push_signed, push_str, signed_decimal};
use crate::spline::{
    CurveError, curve_error, final_tangent, init_tangent, lemma_tangent_bounds, lemma_valid_bounds,
    limit_tangent, px, py, lemma_basis_forms, lut_value, seg_from, seg_value, spec_lut, lut_len, hermite_num, hermite_den, round_half_away, clamp_percent, seg_dx, seg_dy, tangent_in_bounds, valid_curve, x_step_ok, xs_increasing,
    y_ok,
};

verus! {

/// Knots with their temperatures moved onto the EC's scale.
fn shift_points(points: &[(u8, u8)]) -> (sp: Vec<(u8, u8)>)
    ensures
        sp.len() == points.len(),
        forall|i: int|
            0 <= i < points.len() ==> (#[trigger] sp@[i]).0 as int == px(points@, i) && sp@[i].1
                == points@[i].1,
{
    let mut sp: Vec<(u8, u8)> = Vec::new();
    let n = points.len();
    for i in 0..n
        invariant
            n == points.len(),
            sp.len() == i,
            forall|j: int|
                0 <= j < i ==> (#[trigger] sp@[j]).0 as int == px(points@, j) && sp@[j].1
                    == points@[j].1,
    {
        let (x, y) = points[i];
        let sx: u8 = if x > 182 {
            255
        } else {
            x + 73
        };
        sp.push((sx, y));
    }
    sp
}

/// The first check the knots fail, if any.
fn check_curve(points: &[(u8, u8)], sp: &Vec<(u8, u8)>) -> (r: Option<CurveError>)
    requires
        sp.len() == points.len(),
        forall|i: int|
            0 <= i < points.len() ==> (#[trigger] sp@[i]).0 as int == px(points@, i) && sp@[i].1
                == points@[i].1,
    ensures
        r == curve_error(points@),
{
    let n = sp.len();
    if n < 2 {
        return Some(CurveError::TooFewPoints);
    }
    if sp[0].1 > 100 {
        return Some(CurveError::StartYOutOfRange);
    }
    if sp[n - 1].1 > 100 {
        return Some(CurveError::EndYOutOfRange);
    }
    let mut i: usize = 0;
    while i + 1 < n
        invariant
            n == sp.len(),
            n >= 2,
            i + 1 <= n,
            points@[0].1 <= 100,
            points@[n - 1].1 <= 100,
            sp.len() == points.len(),
            forall|k: int|
                0 <= k < points.len() ==> (#[trigger] sp@[k]).0 as int == px(points@, k)
                    && sp@[k].1 == points@[k].1,
            forall|k: int| 0 <= k < i ==> #[trigger] x_step_ok(points@, k),
        decreases n - i,
    {
        if sp[i + 1].0 <= sp[i].0 {
            assert(!x_step_ok(points@, i as int));
            return Some(CurveError::NotIncreasing);
        }
        i = i + 1;
    }
    let mut i: usize = 0;
    while i < n
        invariant
            n == sp.len(),
            n >= 2,
            i <= n,
            points@[0].1 <= 100,
            points@[n - 1].1 <= 100,
            sp.len() == points.len(),
            forall|k: int|
                0 <= k < points.len() ==> (#[trigger] sp@[k]).0 as int == px(points@, k)
                    && sp@[k].1 == points@[k].1,
            xs_increasing(points@),
            forall|k: int| 0 <= k < i ==> #[trigger] y_ok(points@, k),
        decreases n - i,
    {
        if sp[i].1 > 100 {
            assert(!y_ok(points@, i as int));
            return Some(CurveError::YOutOfRange);
        }
        i = i + 1;
    }
    None
}


/// `sp` holds the knots of `points` with their temperatures shifted.
spec fn shifted_of(points: Seq<(u8, u8)>, sp: Seq<(u8, u8)>) -> bool {
    &&& sp.len() == points.len()
    &&& forall|i: int|
        0 <= i < points.len() ==> (#[trigger] sp[i]).0 as int == px(points, i) && sp[i].1
            == points[i].1
}

/// Rise and run of segment `i`.
fn segment(sp: &Vec<(u8, u8)>, i: usize, Ghost(points): Ghost<Seq<(u8, u8)>>) -> (r: (i64, i64))
    requires
        shifted_of(points, sp@),
        valid_curve(points),
        i + 1 < sp.len(),
    ensures
        r.0 as int == seg_dy(points, i as int),
        r.1 as int == seg_dx(points, i as int),
        -100 <= r.0 <= 100,
        1 <= r.1 <= 182,
{
    proof {
        lemma_valid_bounds(points);
        assert(sp@[i as int].0 as int == px(points, i as int));
        assert(sp@[i as int + 1].0 as int == px(points, i as int + 1));
        assert(seg_dy(points, i as int) == py(points, i as int + 1) - py(points, i as int));
        assert(1 <= seg_dx(points, i as int) <= 182);
    }
    let dy = sp[i + 1].1 as i64 - sp[i].1 as i64;
    let dx = sp[i + 1].0 as i64 - sp[i].0 as i64;
    (dy, dx)
}

fn tangent_before_limits(sp: &Vec<(u8, u8)>, k: usize, Ghost(points): Ghost<Seq<(u8, u8)>>) -> (r: (
    i64,
    i64,
))
    requires
        shifted_of(points, sp@),
        valid_curve(points),
        k < sp.len(),
    ensures
        (r.0 as int, r.1 as int) == init_tangent(points, k as int),
{
    proof {
        lemma_valid_bounds(points);
        lemma_tangent_bounds(points, k as int);
    }
    let n = sp.len();
    if k == 0 {
        segment(sp, 0, Ghost(points))
    } else if k == n - 1 {
        segment(sp, n - 2, Ghost(points))
    } else {
        let (dy1, dx1) = segment(sp, k - 1, Ghost(points));
        let (dy2, dx2) = segment(sp, k, Ghost(points));
        proof {
            assert(-18200 <= dy1 * dx2 <= 18200) by (nonlinear_arith)
                requires
                    -100 <= dy1 <= 100,
                    1 <= dx2 <= 182,
            ;
            assert(-18200 <= dy2 * dx1 <= 18200) by (nonlinear_arith)
                requires
                    -100 <= dy2 <= 100,
                    1 <= dx1 <= 182,
            ;
            assert(2 <= 2 * dx1 * dx2 <= 66248) by (nonlinear_arith)
                requires
                    1 <= dx1 <= 182,
                    1 <= dx2 <= 182,
            ;
        }
        (dy1 * dx2 + dy2 * dx1, 2 * dx1 * dx2)
    }
}

fn limit(t: (i64, i64), dy: i64, dx: i64) -> (r: (i64, i64))
    requires
        tangent_in_bounds((t.0 as int, t.1 as int)),
        -100 <= dy <= 100,
        1 <= dx <= 182,
    ensures
        (r.0 as int, r.1 as int) == limit_tangent((t.0 as int, t.1 as int), dy as int, dx as int),
{
    if dy == 0 {
        return (0, 1);
    }
    proof {
        assert(-3640000 <= t.0 * dy <= 3640000) by (nonlinear_arith)
            requires
                -36400 <= t.0 <= 36400,
                -100 <= dy <= 100,
        ;
    }
    if t.0 * dy <= 0 {
        return (0, 1);
    }
    let at: i64 = if t.0 < 0 {
        -t.0
    } else {
        t.0
    };
    let ady: i64 = if dy < 0 {
        -dy
    } else {
        dy
    };
    proof {
        assert(0 <= at * dx <= 36400 * 182) by (nonlinear_arith)
            requires
                0 <= at <= 36400,
                1 <= dx <= 182,
        ;
        assert(0 <= 3 * ady * t.1 <= 300 * 66248) by (nonlinear_arith)
            requires
                0 <= ady <= 100,
                1 <= t.1 <= 66248,
        ;
    }
    if at * dx > 3 * ady * t.1 {
        (3 * dy, dx)
    } else {
        t
    }
}

/// Tangents at every knot after Fritsch–Carlson limiting.
fn limited_tangents(sp: &Vec<(u8, u8)>, Ghost(points): Ghost<Seq<(u8, u8)>>) -> (tv: Vec<(i64, i64)>)
    requires
        shifted_of(points, sp@),
        valid_curve(points),
    ensures
        tv.len() == sp.len(),
        forall|k: int|
            0 <= k < tv.len() ==> ((#[trigger] tv@[k]).0 as int, tv@[k].1 as int) == final_tangent(
                points,
                k,
            ),
{
    proof {
        lemma_valid_bounds(points);
    }
    let n = sp.len();
    let mut tv: Vec<(i64, i64)> = Vec::new();
    for k in 0..n
        invariant
            n == sp.len(),
            shifted_of(points, sp@),
            valid_curve(points),
            tv.len() == k,
            forall|j: int|
                0 <= j < k ==> ((#[trigger] tv@[j]).0 as int, tv@[j].1 as int) == init_tangent(
                    points,
                    j,
                ),
    {
        let t = tangent_before_limits(sp, k, Ghost(points));
        tv.push(t);
    }
    let mut i: usize = 0;
    while i + 1 < n
        invariant
            n == sp.len(),
            n >= 2,
            i + 1 <= n,
            shifted_of(points, sp@),
            valid_curve(points),
            tv.len() == n,
            forall|j: int|
                0 <= j < i ==> ((#[trigger] tv@[j]).0 as int, tv@[j].1 as int) == final_tangent(
                    points,
                    j,
                ),
            (tv@[i as int].0 as int, tv@[i as int].1 as int) == (if i > 0 {
                limit_tangent(
                    init_tangent(points, i as int),
                    seg_dy(points, i - 1),
                    seg_dx(points, i - 1),
                )
            } else {
                init_tangent(points, i as int)
            }),
            forall|j: int|
                i < j < n ==> ((#[trigger] tv@[j]).0 as int, tv@[j].1 as int) == init_tangent(
                    points,
                    j,
                ),
        decreases n - i,
    {
        proof {
            lemma_tangent_bounds(points, i as int);
            lemma_tangent_bounds(points, i as int + 1);
            if i > 0 {
                lemma_valid_bounds(points);
                crate::spline::lemma_limit_bounds(
                    init_tangent(points, i as int),
                    seg_dy(points, i - 1),
                    seg_dx(points, i - 1),
                );
            }
        }
        let (dy, dx) = segment(sp, i, Ghost(points));
        if dy == 0 {
            tv.set(i, (0, 1));
            tv.set(i + 1, (0, 1));
        } else {
            let left = limit(tv[i], dy, dx);
            tv.set(i, left);
            let right = limit(tv[i + 1], dy, dx);
            tv.set(i + 1, right);
        }
        i = i + 1;
    }
    tv
}


/// Spline value between two knots, rounded half away from zero and clamped to
/// 0..=100.
fn eval_segment(y0: u8, y1: u8, d: u8, u: u8, m0: (i64, i64), m1: (i64, i64)) -> (r: u8)
    requires
        y0 <= 100,
        y1 <= 100,
        1 <= d <= 182,
        u < d,
        tangent_in_bounds((m0.0 as int, m0.1 as int)),
        tangent_in_bounds((m1.0 as int, m1.1 as int)),
    ensures
        r as int == clamp_percent(
            round_half_away(
                hermite_num(
                    y0 as int,
                    y1 as int,
                    d as int,
                    u as int,
                    (m0.0 as int, m0.1 as int),
                    (m1.0 as int, m1.1 as int),
                ),
                hermite_den(d as int, (m0.0 as int, m0.1 as int), (m1.0 as int, m1.1 as int)),
            ),
        ),
{
    let y0 = y0 as i128;
    let y1 = y1 as i128;
    let d = d as i128;
    let u = u as i128;
    let (a0, b0) = (m0.0 as i128, m0.1 as i128);
    let (a1, b1) = (m1.0 as i128, m1.1 as i128);
    proof {
        lemma_basis_forms(d as int, u as int);
        assert(0 <= u * u <= 33124) by (nonlinear_arith)
            requires
                0 <= u <= 182,
        ;
        assert(0 <= u * u * u <= 6028568) by (nonlinear_arith)
            requires
                0 <= u * u <= 33124,
                0 <= u <= 182,
        ;
        assert(0 <= (u * u) * d <= 6028568) by (nonlinear_arith)
            requires
                0 <= u * u <= 33124,
                0 <= d <= 182,
        ;
        assert(0 <= d * d <= 33124) by (nonlinear_arith)
            requires
                0 <= d <= 182,
        ;
        assert(1 <= (d * d) * d <= 6028568) by (nonlinear_arith)
            requires
                1 <= d <= 182,
                d * d <= 33124,
        ;
        assert(0 <= u * (d * d) <= 6028568) by (nonlinear_arith)
            requires
                0 <= d * d <= 33124,
                0 <= u <= 182,
        ;
    }
    let uuu = u * u * u;
    let uud = (u * u) * d;
    let ddd = (d * d) * d;
    let udd = u * (d * d);
    let c00 = 2 * uuu - 3 * uud + ddd;
    let c01 = -2 * uuu + 3 * uud;
    let c10 = uuu - 2 * uud + udd;
    let c11 = uuu - uud;
    proof {
        let cb = 40000000int;
        assert(-cb <= c00 <= cb && -cb <= c01 <= cb && -cb <= c10 <= cb && -cb <= c11 <= cb);
        assert(-4000000000 <= c00 * y0 <= 4000000000) by (nonlinear_arith)
            requires
                -40000000 <= c00 <= 40000000,
                0 <= y0 <= 100,
        ;
        assert(-4000000000 <= c01 * y1 <= 4000000000) by (nonlinear_arith)
            requires
                -40000000 <= c01 <= 40000000,
                0 <= y1 <= 100,
        ;
        assert(1 <= b0 * b1 <= 4388797504) by (nonlinear_arith)
            requires
                1 <= b0 <= 66248,
                1 <= b1 <= 66248,
        ;
        assert(-35200000000000000000 <= (c00 * y0 + c01 * y1) * (b0 * b1)
            <= 35200000000000000000) by (nonlinear_arith)
            requires
                -8000000000 <= c00 * y0 + c01 * y1 <= 8000000000,
                1 <= b0 * b1 <= 4388797504,
        ;
        assert(-1456000000000 <= c10 * a0 <= 1456000000000) by (nonlinear_arith)
            requires
                -40000000 <= c10 <= 40000000,
                -36400 <= a0 <= 36400,
        ;
        assert(-1456000000000 <= c11 * a1 <= 1456000000000) by (nonlinear_arith)
            requires
                -40000000 <= c11 <= 40000000,
                -36400 <= a1 <= 36400,
        ;
        assert(-96460288000000000 <= c10 * a0 * b1 <= 96460288000000000) by (nonlinear_arith)
            requires
                -1456000000000 <= c10 * a0 <= 1456000000000,
                1 <= b1 <= 66248,
        ;
        assert(-96460288000000000 <= c11 * a1 * b0 <= 96460288000000000) by (nonlinear_arith)
            requires
                -1456000000000 <= c11 * a1 <= 1456000000000,
                1 <= b0 <= 66248,
        ;
        assert(-35111544832000000000 <= d * (c10 * a0 * b1 + c11 * a1 * b0)
            <= 35111544832000000000) by (nonlinear_arith)
            requires
                -192920576000000000 <= c10 * a0 * b1 + c11 * a1 * b0 <= 192920576000000000,
                1 <= d <= 182,
        ;
        crate::spline::lemma_mul_le(ddd as int, 6028568, b0 * b1, 4388797504);
        crate::spline::lemma_mul_pos(ddd as int, b0 * b1);
    }
    let num = (c00 * y0 + c01 * y1) * (b0 * b1) + d * (c10 * a0 * b1 + c11 * a1 * b0);
    let den = ddd * (b0 * b1);
    let q: i128 = if num >= 0 {
        (2 * num + den) / (2 * den)
    } else {
        -((den - 2 * num) / (2 * den))
    };
    if q < 0 {
        0
    } else if q > 100 {
        100
    } else {
        q as u8
    }
}


/// The segment whose interpolation gives the fan speed at shifted temperature
/// `x`.
fn find_segment(sp: &Vec<(u8, u8)>, x: u8, Ghost(points): Ghost<Seq<(u8, u8)>>) -> (seg: usize)
    requires
        shifted_of(points, sp@),
        valid_curve(points),
        px(points, 0) <= x <= px(points, points.len() - 1),
    ensures
        seg as int == seg_from(points, x as int, 0),
        seg + 1 < sp.len(),
        px(points, seg as int) <= x <= px(points, seg + 1),
{
    proof {
        lemma_valid_bounds(points);
    }
    let n = sp.len();
    let mut seg: usize = 0;
    while seg + 2 < n && x > sp[seg + 1].0
        invariant
            n == sp.len(),
            n >= 2,
            seg + 1 < n,
            shifted_of(points, sp@),
            seg_from(points, x as int, 0) == seg_from(points, x as int, seg as int),
            px(points, seg as int) <= x,
            x <= px(points, points.len() - 1),
        decreases n - seg,
    {
        seg = seg + 1;
    }
    seg
}

/// Fan speed the curve gives at shifted temperature `x`.
fn value_at(
    sp: &Vec<(u8, u8)>,
    tv: &Vec<(i64, i64)>,
    x: u8,
    Ghost(points): Ghost<Seq<(u8, u8)>>,
) -> (v: u8)
    requires
        shifted_of(points, sp@),
        valid_curve(points),
        tv.len() == sp.len(),
        forall|k: int|
            0 <= k < tv.len() ==> ((#[trigger] tv@[k]).0 as int, tv@[k].1 as int) == final_tangent(
                points,
                k,
            ),
        px(points, 0) <= x <= px(points, points.len() - 1),
    ensures
        v as int == lut_value(points, x as int),
{
    proof {
        lemma_valid_bounds(points);
    }
    let seg = find_segment(sp, x, Ghost(points));
    let p0 = sp[seg];
    let p1 = sp[seg + 1];
    proof {
        assert(sp@[seg as int].0 as int == px(points, seg as int));
        assert(sp@[seg + 1].0 as int == px(points, seg + 1));
        assert(p0.1 as int == py(points, seg as int));
        assert(p1.1 as int == py(points, seg + 1));
    }
    if x == p0.0 {
        p0.1
    } else if x == p1.0 {
        p1.1
    } else {
        proof {
            lemma_tangent_bounds(points, seg as int);
            lemma_tangent_bounds(points, seg + 1);
            assert(tv@[seg as int] == tv@[seg as int]);
            assert(tv@[seg + 1] == tv@[seg + 1]);
        }
        eval_segment(p0.1, p1.1, p1.0 - p0.0, x - p0.0, tv[seg], tv[seg + 1])
    }
}

/// Generates a smooth, overshoot-free lookup table from a fan curve.
///
/// `points` are `(temperature, fan percent)` knots in strictly increasing
/// temperature order; the first and last are the saturation limits.
/// Temperatures are moved onto the EC's scale (`+73` °C, saturating), the
/// knots are joined by a monotone cubic Hermite spline (Fritsch–Carlson), and
/// the result is sampled at every shifted degree from the first knot to the
/// last. Values are rounded half away from zero and clamped to `0..=100`.
///
/// The spline is evaluated in exact rational arithmetic. Where its value is
/// exactly a half, a double-precision evaluation of the same spline may land
/// just below it and round down, so such a table can be one lower there than
/// this one: for knots `(25, 10), (45, 95)` entry 14 is exactly 69.5, which
/// is 70 here and 69 in `f64`.
///
/// The knots must describe a curve: at least two of them, every fan speed at
/// most 100, and shifted temperatures strictly increasing (see
/// [`try_generate_fan_curve_lut_dyn`] for knots not known to).
pub fn generate_fan_curve_lut_dyn(points: &[(u8, u8)]) -> (lut: Vec<u8>)
    requires
        valid_curve(points@),
    ensures
        lut@ == spec_lut(points@),
{
    let sp = shift_points(points);
    proof {
        lemma_valid_bounds(points@);
    }
    let tv = limited_tangents(&sp, Ghost(points@));
    let n = sp.len();
    let x_start = sp[0].0;
    let x_end = sp[n - 1].0;
    proof {
        assert(sp@[0].0 as int == px(points@, 0));
        assert(sp@[n - 1].0 as int == px(points@, n - 1));
        assert(crate::spline::x_step_ok(points@, 0));
    }
    proof {
        crate::spline::lemma_px_increasing(points@, 0, n - 1);
    }
    let mut lut: Vec<u8> = Vec::new();
    let mut x: u16 = x_start as u16;
    while x <= x_end as u16
        invariant
            n == sp.len(),
            n >= 2,
            shifted_of(points@, sp@),
            valid_curve(points@),
            tv.len() == sp.len(),
            forall|k: int|
                0 <= k < tv.len() ==> ((#[trigger] tv@[k]).0 as int, tv@[k].1 as int)
                    == final_tangent(points@, k),
            x_start as int == px(points@, 0),
            x_end as int == px(points@, n - 1),
            x_start <= x <= x_end + 1,
            lut.len() == x - x_start,
            forall|j: int|
                0 <= j < lut.len() ==> #[trigger] lut@[j] == lut_value(points@, x_start + j) as u8,
        decreases x_end + 1 - x,
    {
        let v = value_at(&sp, &tv, x as u8, Ghost(points@));
        lut.push(v);
        x = x + 1;
    }
    assert(lut@ =~= spec_lut(points@));
    lut
}

/// Checks the knots, then generates their table as
/// [`generate_fan_curve_lut_dyn`] does.
///
/// # Errors
/// A [`CurveError`] naming the first check the knots fail: fewer than two
/// knots, the first or last fan speed above 100, shifted temperatures not
/// strictly increasing, or any fan speed above 100.
pub fn try_generate_fan_curve_lut_dyn(points: &[(u8, u8)]) -> (res: Result<Vec<u8>, CurveError>)
    ensures
        curve_error(points@) matches Some(e) ==> res == Err::<Vec<u8>, CurveError>(e),
        curve_error(points@) is None ==> (res matches Ok(lut) && lut@ == spec_lut(points@)),
{
    let sp = shift_points(points);
    match check_curve(points, &sp) {
        Some(e) => Err(e),
        None => Ok(generate_fan_curve_lut_dyn(points)),
    }
}


/// The lookup table for a fixed number of knots, in an array of
/// `LUT_SIZE` entries: the table of [`generate_fan_curve_lut_dyn`] followed
/// by zeros.
///
/// `LUT_SIZE` must equal the span of the raw temperatures plus one; the
/// table fills its first `lut_len` entries, which is the same number unless
/// the last knot's shifted temperature saturates.
pub fn generate_fan_curve_lut<const N: usize, const LUT_SIZE: usize>(points: &[(u8, u8); N]) -> (lut:
    [u8; LUT_SIZE])
    requires
        valid_curve(points@),
        LUT_SIZE == points@[N - 1].0 - points@[0].0 + 1,
    ensures
        forall|j: int|
            0 <= j < LUT_SIZE ==> #[trigger] lut@[j] == (if j < lut_len(points@) {
                spec_lut(points@)[j]
            } else {
                0u8
            }),
{
    proof {
        lemma_valid_bounds(points@);
        crate::spline::lemma_px_increasing(points@, 0, N - 1);
    }
    let slice = vstd::array::array_as_slice(points);
    let table = generate_fan_curve_lut_dyn(slice);
    assert(table@ == spec_lut(points@));
    proof {
        assert(lut_len(points@) <= LUT_SIZE) by {
            // Saturation only ever shortens the shifted span.
            assert(px(points@, N - 1) - px(points@, 0) <= points@[N - 1].0 - points@[0].0);
        }
    }
    let mut lut: [u8; LUT_SIZE] = [0u8; LUT_SIZE];
    let mut j: usize = 0;
    while j < LUT_SIZE
        invariant
            j <= LUT_SIZE,
            table@ == spec_lut(points@),
            table.len() == lut_len(points@),
            lut_len(points@) <= LUT_SIZE,
            forall|k: int|
                0 <= k < LUT_SIZE ==> #[trigger] lut@[k] == (if k < j && k < lut_len(points@) {
                    spec_lut(points@)[k]
                } else {
                    0u8
                }),
        decreases LUT_SIZE - j,
    {
        if j < table.len() {
            lut[j] = table[j];
        }
        j = j + 1;
    }
    lut
}

/// A named fan curve ready to be looked up.
#[derive(Clone, Debug)]
pub struct FanProfile {
    /// Human-readable curve name.
    pub name: String,
    /// Start temperature (in EC temp units). Values below this are clamped to
    /// the start value.
    pub start: u8,
    /// End temperature (in EC temp units). Values above this are clamped to
    /// the end value.
    pub end: u8,
    /// Fan speed lookup table. The index is `temp - start`.
    pub lut: Vec<u8>,
    /// XXH3 signature of the defining points.
    pub signature: u64,
}

/// `v` clamped into `lo..=hi`.
pub open spec fn clamp_u8(v: u8, lo: u8, hi: u8) -> u8 {
    if v < lo {
        lo
    } else if v > hi {
        hi
    } else {
        v
    }
}

impl FanProfile {
    /// Fan speed for a temperature: the table entry for the temperature
    /// clamped to `start..=end`.
    pub fn get_fan_speed(&self, temp: EcTemp) -> (r: u8)
        requires
            self.start <= self.end,
            self.end - self.start < self.lut.len(),
        ensures
            r == self.lut@[clamp_u8(temp.0, self.start, self.end) - self.start],
    {
        let t = temp.0;
        let clamped = if t < self.start {
            self.start
        } else if t > self.end {
            self.end
        } else {
            t
        };
        self.lut[(clamped - self.start) as usize]
    }

    /// The profile's summary: its name, the Celsius range it is defined
    /// over with signs shown, and its signature in hexadecimal.
    pub fn describe(&self) -> (r: String)
        requires
            self.start < 0xFC,
            self.end < 0xFC,
        ensures
            r@ == profile_text(self.name@, self.start, self.end, self.signature),
    {
        proof {
            reveal_strlit("Fan Curve: ");
            reveal_strlit("\nDefined between ");
            reveal_strlit("°C and ");
            reveal_strlit("°C\nSignature: 0x");
            reveal_strlit("\n");
        }
        let start = match ec_temp_to_celsius(EcTemp(self.start)) {
            Ok(c) => c.0,
            Err(_) => 0,
        };
        let end = match ec_temp_to_celsius(EcTemp(self.end)) {
            Ok(c) => c.0,
            Err(_) => 0,
        };
        let mut s = String::new();
        push_str(&mut s, "Fan Curve: ");
        push_str(&mut s, self.name.as_str());
        push_str(&mut s, "\nDefined between ");
        push_signed(&mut s, start);
        push_str(&mut s, "°C and ");
        push_signed(&mut s, end);
        push_str(&mut s, "°C\nSignature: 0x");
        push_hex(&mut s, self.signature);
        push_str(&mut s, "\n");
        assert(s@ =~= profile_text(self.name@, self.start, self.end, self.signature));
        s
    }
}

/// A profile's summary; `start` and `end` are EC temperature bytes shown in
/// Celsius.
pub open spec fn profile_text(name: Seq<char>, start: u8, end: u8, signature: u64) -> Seq<char> {
    "Fan Curve: "@ + name + "\nDefined between "@ + signed_decimal(start as int - 73) + "°C and "@
        + signed_decimal(end as int - 73) + "°C\nSignature: 0x"@ + hex(signature as nat) + "\n"@
}


/// Names the 64-bit XXH3 hash (seed 0) of a byte string.
pub uninterp spec fn xxh3_64_of(data: Seq<u8>) -> u64;

/// `xxhash_rust::xxh3::xxh3_64`: the 64-bit XXH3 hash of `data` with seed
/// 0. Claimed here: the hash is a function of the bytes alone, named
/// [`xxh3_64_of`]; nothing else is said of its value.
#[verifier::external_body]
fn xxh3_64(data: &[u8]) -> (h: u64)
    ensures
        h == xxh3_64_of(data@),
{
    xxhash_rust::xxh3::xxh3_64(data)
}

/// The knots as the bytes they occupy in memory: temperature, then fan
/// speed, knot after knot.
pub open spec fn flat_points(pts: Seq<(u8, u8)>) -> Seq<u8> {
    Seq::new(
        2 * pts.len(),
        |i: int|
            if i % 2 == 0 {
                pts[i / 2].0
            } else {
                pts[i / 2].1
            },
    )
}

/// The signature of a curve: the XXH3 hash of its knots' bytes.
pub open spec fn spec_signature(pts: Seq<(u8, u8)>) -> u64 {
    xxh3_64_of(flat_points(pts))
}

/// Signature of a list of knots.
pub fn curve_signature(points: &[(u8, u8)]) -> (h: u64)
    ensures
        h == spec_signature(points@),
{
    let mut flat: Vec<u8> = Vec::new();
    for i in 0..points.len()
        invariant
            flat@ == flat_points(points@.subrange(0, i as int)),
    {
        let ghost before = flat@;
        flat.push(points[i].0);
        flat.push(points[i].1);
        assert(flat@ =~= flat_points(points@.subrange(0, i + 1)));
    }
    assert(points@.subrange(0, points.len() as int) =~= points@);
    xxh3_64(flat.as_slice())
}

/// A profile built from knots known to be valid.
fn profile_from_points(name: &str, points: &[(u8, u8)]) -> (p: FanProfile)
    requires
        valid_curve(points@),
        points@[0].0 <= 182,
        points@[points.len() - 1].0 <= 182,
    ensures
        p.name@ == name@,
        p.start == points@[0].0 + 73,
        p.end == points@[points.len() - 1].0 + 73,
        p.lut@ == spec_lut(points@),
        p.signature == spec_signature(points@),
{
    proof {
        lemma_valid_bounds(points@);
    }
    let lut = generate_fan_curve_lut_dyn(points);
    FanProfile {
        name: String::from_str(name),
        start: points[0].0 + 73,
        end: points[points.len() - 1].0 + 73,
        lut,
        signature: curve_signature(points),
    }
}

/// Knots of built-in profile `i`, in the order of [`builtin_profiles`].
pub open spec fn builtin_points(i: int) -> Seq<(u8, u8)> {
    if i == 0 {
        seq![(45u8, 0u8), (65u8, 25u8), (70u8, 35u8), (75u8, 50u8), (85u8, 100u8)]
    } else if i == 1 {
        seq![(50u8, 15u8), (65u8, 25u8), (70u8, 35u8), (75u8, 50u8), (85u8, 100u8)]
    } else if i == 2 {
        seq![(40u8, 15u8), (60u8, 30u8), (70u8, 40u8), (75u8, 80u8), (85u8, 100u8)]
    } else if i == 3 {
        seq![(0u8, 20u8), (40u8, 30u8), (50u8, 50u8), (60u8, 100u8)]
    } else if i == 4 {
        seq![(0u8, 20u8), (40u8, 50u8), (60u8, 100u8)]
    } else if i == 5 {
        seq![(25u8, 10u8), (30u8, 15u8), (45u8, 30u8), (60u8, 50u8), (75u8, 80u8), (85u8, 100u8)]
    } else if i == 6 {
        seq![(30u8, 10u8), (35u8, 15u8), (50u8, 25u8), (65u8, 40u8), (80u8, 60u8), (85u8, 80u8), (90u8, 90u8), (92u8, 100u8)]
    } else if i == 7 {
        seq![(25u8, 15u8), (35u8, 30u8), (50u8, 50u8), (65u8, 75u8), (80u8, 100u8)]
    } else if i == 8 {
        seq![(25u8, 25u8), (30u8, 35u8), (45u8, 50u8), (60u8, 75u8), (70u8, 100u8)]
    } else {
        seq![(25u8, 35u8), (30u8, 40u8), (45u8, 50u8), (60u8, 75u8), (65u8, 100u8)]
    }
}

/// Name of built-in profile `i`.
pub open spec fn builtin_name(i: int) -> Seq<char> {
    if i == 0 {
        "fw-laziest"@
    } else if i == 1 {
        "fw-lazy"@
    } else if i == 2 {
        "fw-medium"@
    } else if i == 3 {
        "fw-deaf"@
    } else if i == 4 {
        "fw-aeolus"@
    } else if i == 5 {
        "default"@
    } else if i == 6 {
        "quiet"@
    } else if i == 7 {
        "performance"@
    } else if i == 8 {
        "turbo"@
    } else {
        "deaf"@
    }
}

/// The `fw-laziest` profile.
fn fw_laziest() -> (p: FanProfile)
    ensures
        p.name@ == builtin_name(0),
        p.start == builtin_points(0)[0].0 + 73,
        p.end == builtin_points(0)[4].0 + 73,
        p.lut@ == spec_lut(builtin_points(0)),
        p.signature == spec_signature(builtin_points(0)),
{
    let pts = [(45u8, 0u8), (65, 25), (70, 35), (75, 50), (85, 100)];
    assert(pts@ == builtin_points(0));
    proof {
        reveal_strlit("fw-laziest");
        let s = pts@;
        assert forall|i: int| 0 <= i < s.len() - 1 implies #[trigger] x_step_ok(s, i) by {
            if i == 0 {} else if i == 1 {} else if i == 2 {} else {}
        }
        assert forall|i: int| 0 <= i < s.len() implies #[trigger] y_ok(s, i) by {
            if i == 0 {} else if i == 1 {} else if i == 2 {} else if i == 3 {} else {}
        }
    }
    profile_from_points("fw-laziest", &pts)
}

/// The `fw-lazy` profile.
fn fw_lazy() -> (p: FanProfile)
    ensures
        p.name@ == builtin_name(1),
        p.start == builtin_points(1)[0].0 + 73,
        p.end == builtin_points(1)[4].0 + 73,
        p.lut@ == spec_lut(builtin_points(1)),
        p.signature == spec_signature(builtin_points(1)),
{
    let pts = [(50u8, 15u8), (65, 25), (70, 35), (75, 50), (85, 100)];
    assert(pts@ == builtin_points(1));
    proof {
        reveal_strlit("fw-lazy");
        let s = pts@;
        assert forall|i: int| 0 <= i < s.len() - 1 implies #[trigger] x_step_ok(s, i) by {
            if i == 0 {} else if i == 1 {} else if i == 2 {} else {}
        }
        assert forall|i: int| 0 <= i < s.len() implies #[trigger] y_ok(s, i) by {
            if i == 0 {} else if i == 1 {} else if i == 2 {} else if i == 3 {} else {}
        }
    }
    profile_from_points("fw-lazy", &pts)
}

/// The `fw-medium` profile.
fn fw_medium() -> (p: FanProfile)
    ensures
        p.name@ == builtin_name(2),
        p.start == builtin_points(2)[0].0 + 73,
        p.end == builtin_points(2)[4].0 + 73,
        p.lut@ == spec_lut(builtin_points(2)),
        p.signature == spec_signature(builtin_points(2)),
{
    let pts = [(40u8, 15u8), (60, 30), (70, 40), (75, 80), (85, 100)];
    assert(pts@ == builtin_points(2));
    proof {
        reveal_strlit("fw-medium");
        let s = pts@;
        assert forall|i: int| 0 <= i < s.len() - 1 implies #[trigger] x_step_ok(s, i) by {
            if i == 0 {} else if i == 1 {} else if i == 2 {} else {}
        }
        assert forall|i: int| 0 <= i < s.len() implies #[trigger] y_ok(s, i) by {
            if i == 0 {} else if i == 1 {} else if i == 2 {} else if i == 3 {} else {}
        }
    }
    profile_from_points("fw-medium", &pts)
}

/// The `fw-deaf` profile.
fn fw_deaf() -> (p: FanProfile)
    ensures
        p.name@ == builtin_name(3),
        p.start == builtin_points(3)[0].0 + 73,
        p.end == builtin_points(3)[3].0 + 73,
        p.lut@ == spec_lut(builtin_points(3)),
        p.signature == spec_signature(builtin_points(3)),
{
    let pts = [(0u8, 20u8), (40, 30), (50, 50), (60, 100)];
    assert(pts@ == builtin_points(3));
    proof {
        reveal_strlit("fw-deaf");
        let s = pts@;
        assert forall|i: int| 0 <= i < s.len() - 1 implies #[trigger] x_step_ok(s, i) by {
            if i == 0 {} else if i == 1 {} else {}
        }
        assert forall|i: int| 0 <= i < s.len() implies #[trigger] y_ok(s, i) by {
            if i == 0 {} else if i == 1 {} else if i == 2 {} else {}
        }
    }
    profile_from_points("fw-deaf", &pts)
}

/// The `fw-aeolus` profile.
fn fw_aeolus() -> (p: FanProfile)
    ensures
        p.name@ == builtin_name(4),
        p.start == builtin_points(4)[0].0 + 73,
        p.end == builtin_points(4)[2].0 + 73,
        p.lut@ == spec_lut(builtin_points(4)),
        p.signature == spec_signature(builtin_points(4)),
{
    let pts = [(0u8, 20u8), (40, 50), (60, 100)];
    assert(pts@ == builtin_points(4));
    proof {
        reveal_strlit("fw-aeolus");
        let s = pts@;
        assert forall|i: int| 0 <= i < s.len() - 1 implies #[trigger] x_step_ok(s, i) by {
            if i == 0 {} else {}
        }
        assert forall|i: int| 0 <= i < s.len() implies #[trigger] y_ok(s, i) by {
            if i == 0 {} else if i == 1 {} else {}
        }
    }
    profile_from_points("fw-aeolus", &pts)
}

/// The `default` profile.
fn default_profile() -> (p: FanProfile)
    ensures
        p.name@ == builtin_name(5),
        p.start == builtin_points(5)[0].0 + 73,
        p.end == builtin_points(5)[5].0 + 73,
        p.lut@ == spec_lut(builtin_points(5)),
        p.signature == spec_signature(builtin_points(5)),
{
    let pts = [(25u8, 10u8), (30, 15), (45, 30), (60, 50), (75, 80), (85, 100)];
    assert(pts@ == builtin_points(5));
    proof {
        reveal_strlit("default");
        let s = pts@;
        assert forall|i: int| 0 <= i < s.len() - 1 implies #[trigger] x_step_ok(s, i) by {
            if i == 0 {} else if i == 1 {} else if i == 2 {} else if i == 3 {} else {}
        }
        assert forall|i: int| 0 <= i < s.len() implies #[trigger] y_ok(s, i) by {
            if i == 0 {} else if i == 1 {} else if i == 2 {} else if i == 3 {} else if i == 4 {} else {}
        }
    }
    profile_from_points("default", &pts)
}

/// The `quiet` profile.
fn quiet_profile() -> (p: FanProfile)
    ensures
        p.name@ == builtin_name(6),
        p.start == builtin_points(6)[0].0 + 73,
        p.end == builtin_points(6)[7].0 + 73,
        p.lut@ == spec_lut(builtin_points(6)),
        p.signature == spec_signature(builtin_points(6)),
{
    let pts = [(30u8, 10u8), (35, 15), (50, 25), (65, 40), (80, 60), (85, 80), (90, 90), (92, 100)];
    assert(pts@ == builtin_points(6));
    proof {
        reveal_strlit("quiet");
        let s = pts@;
        assert forall|i: int| 0 <= i < s.len() - 1 implies #[trigger] x_step_ok(s, i) by {
            if i == 0 {} else if i == 1 {} else if i == 2 {} else if i == 3 {} else if i == 4 {} else if i == 5 {} else {}
        }
        assert forall|i: int| 0 <= i < s.len() implies #[trigger] y_ok(s, i) by {
            if i == 0 {} else if i == 1 {} else if i == 2 {} else if i == 3 {} else if i == 4 {} else if i == 5 {} else if i == 6 {} else {}
        }
    }
    profile_from_points("quiet", &pts)
}

/// The `performance` profile.
fn performance_profile() -> (p: FanProfile)
    ensures
        p.name@ == builtin_name(7),
        p.start == builtin_points(7)[0].0 + 73,
        p.end == builtin_points(7)[4].0 + 73,
        p.lut@ == spec_lut(builtin_points(7)),
        p.signature == spec_signature(builtin_points(7)),
{
    let pts = [(25u8, 15u8), (35, 30), (50, 50), (65, 75), (80, 100)];
    assert(pts@ == builtin_points(7));
    proof {
        reveal_strlit("performance");
        let s = pts@;
        assert forall|i: int| 0 <= i < s.len() - 1 implies #[trigger] x_step_ok(s, i) by {
            if i == 0 {} else if i == 1 {} else if i == 2 {} else {}
        }
        assert forall|i: int| 0 <= i < s.len() implies #[trigger] y_ok(s, i) by {
            if i == 0 {} else if i == 1 {} else if i == 2 {} else if i == 3 {} else {}
        }
    }
    profile_from_points("performance", &pts)
}

/// The `turbo` profile.
fn turbo_profile() -> (p: FanProfile)
    ensures
        p.name@ == builtin_name(8),
        p.start == builtin_points(8)[0].0 + 73,
        p.end == builtin_points(8)[4].0 + 73,
        p.lut@ == spec_lut(builtin_points(8)),
        p.signature == spec_signature(builtin_points(8)),
{
    let pts = [(25u8, 25u8), (30, 35), (45, 50), (60, 75), (70, 100)];
    assert(pts@ == builtin_points(8));
    proof {
        reveal_strlit("turbo");
        let s = pts@;
        assert forall|i: int| 0 <= i < s.len() - 1 implies #[trigger] x_step_ok(s, i) by {
            if i == 0 {} else if i == 1 {} else if i == 2 {} else {}
        }
        assert forall|i: int| 0 <= i < s.len() implies #[trigger] y_ok(s, i) by {
            if i == 0 {} else if i == 1 {} else if i == 2 {} else if i == 3 {} else {}
        }
    }
    profile_from_points("turbo", &pts)
}

/// The `deaf` profile.
fn deaf_profile() -> (p: FanProfile)
    ensures
        p.name@ == builtin_name(9),
        p.start == builtin_points(9)[0].0 + 73,
        p.end == builtin_points(9)[4].0 + 73,
        p.lut@ == spec_lut(builtin_points(9)),
        p.signature == spec_signature(builtin_points(9)),
{
    let pts = [(25u8, 35u8), (30, 40), (45, 50), (60, 75), (65, 100)];
    assert(pts@ == builtin_points(9));
    proof {
        reveal_strlit("deaf");
        let s = pts@;
        assert forall|i: int| 0 <= i < s.len() - 1 implies #[trigger] x_step_ok(s, i) by {
            if i == 0 {} else if i == 1 {} else if i == 2 {} else {}
        }
        assert forall|i: int| 0 <= i < s.len() implies #[trigger] y_ok(s, i) by {
            if i == 0 {} else if i == 1 {} else if i == 2 {} else if i == 3 {} else {}
        }
    }
    profile_from_points("deaf", &pts)
}

/// The built-in fan profiles: fw-laziest, fw-lazy, fw-medium, fw-deaf,
/// fw-aeolus, default, quiet, performance, turbo and deaf, each with its
/// table computed from its knots.
pub fn builtin_profiles() -> (v: Vec<FanProfile>)
    ensures
        v.len() == 10,
        forall|i: int|
            0 <= i < 10 ==> {
                &&& (#[trigger] v@[i]).name@ == builtin_name(i)
                &&& v@[i].start == builtin_points(i)[0].0 + 73
                &&& v@[i].end == builtin_points(i)[builtin_points(i).len() - 1].0 + 73
                &&& v@[i].lut@ == spec_lut(builtin_points(i))
                &&& v@[i].signature == spec_signature(builtin_points(i))
            },
{
    let mut v: Vec<FanProfile> = Vec::new();
    v.push(fw_laziest());
    v.push(fw_lazy());
    v.push(fw_medium());
    v.push(fw_deaf());
    v.push(fw_aeolus());
    v.push(default_profile());
    v.push(quiet_profile());
    v.push(performance_profile());
    v.push(turbo_profile());
    v.push(deaf_profile());
    v
}


/// Index of the first profile whose signature is `sig`, searching from `k`.
pub open spec fn first_signature(profiles: Seq<FanProfile>, sig: u64, k: int) -> Option<int>
    decreases profiles.len() - k,
{
    if k >= profiles.len() || k < 0 {
        None
    } else if profiles[k].signature == sig {
        Some(k)
    } else {
        first_signature(profiles, sig, k + 1)
    }
}

/// Index of the first profile named `name`, searching from `k`.
pub open spec fn first_named(profiles: Seq<FanProfile>, name: Seq<char>, k: int) -> Option<int>
    decreases profiles.len() - k,
{
    if k >= profiles.len() || k < 0 {
        None
    } else if profiles[k].name@ == name {
        Some(k)
    } else {
        first_named(profiles, name, k + 1)
    }
}

/// Builds a profile from a name, knots and the knots' signature.
///
/// The table of the first of `builtins` with that signature is reused;
/// otherwise the table is generated from the knots.
///
/// # Errors
/// The [`CurveError`] of the knots, when no built-in profile has the
/// signature and they do not describe a curve.
pub fn profile_with_signature(
    name: &str,
    points: &[(u8, u8)],
    signature: u64,
    builtins: &[FanProfile],
) -> (r: Result<FanProfile, CurveError>)
    requires
        points.len() >= 2,
        points@[0].0 <= 182,
        points@[points.len() - 1].0 <= 182,
    ensures
        first_signature(builtins@, signature, 0) matches Some(i) ==> (r matches Ok(p) && p.lut@
            == builtins@[i].lut@),
        first_signature(builtins@, signature, 0) is None ==> match curve_error(points@) {
            Some(e) => r == Err::<FanProfile, CurveError>(e),
            None => r matches Ok(p) && p.lut@ == spec_lut(points@),
        },
        r matches Ok(p) ==> {
            &&& p.name@ == name@
            &&& p.start == points@[0].0 + 73
            &&& p.end == points@[points.len() - 1].0 + 73
            &&& p.signature == signature
        },
{
    let found = find_signature(signature, builtins);
    proof {
        lemma_first_signature_found(builtins@, signature, 0);
    }
    let lut = match found {
        Some(k) => builtins[k].lut.clone(),
        None => match try_generate_fan_curve_lut_dyn(points) {
            Ok(l) => l,
            Err(e) => {
                return Err(e);
            },
        },
    };
    Ok(
        FanProfile {
            name: String::from_str(name),
            start: points[0].0 + 73,
            end: points[points.len() - 1].0 + 73,
            lut,
            signature,
        },
    )
}

/// Builds a profile from a name and knots, signing the knots with XXH3;
/// see [`profile_with_signature`].
///
/// # Errors
/// The [`CurveError`] of the knots, when no built-in profile shares their
/// signature and they do not describe a curve.
pub fn new_profile(name: &str, points: &[(u8, u8)], builtins: &[FanProfile]) -> (r: Result<
    FanProfile,
    CurveError,
>)
    requires
        points.len() >= 2,
        points@[0].0 <= 182,
        points@[points.len() - 1].0 <= 182,
    ensures
        first_signature(builtins@, spec_signature(points@), 0) matches Some(i) ==> (r matches Ok(
            p,
        ) && p.lut@ == builtins@[i].lut@),
        first_signature(builtins@, spec_signature(points@), 0) is None ==> match curve_error(
            points@,
        ) {
            Some(e) => r == Err::<FanProfile, CurveError>(e),
            None => r matches Ok(p) && p.lut@ == spec_lut(points@),
        },
        r matches Ok(p) ==> {
            &&& p.name@ == name@
            &&& p.start == points@[0].0 + 73
            &&& p.end == points@[points.len() - 1].0 + 73
            &&& p.signature == spec_signature(points@)
        },
{
    let signature = curve_signature(points);
    profile_with_signature(name, points, signature, builtins)
}

/// Looks a profile up by name: among the built-in profiles first, then among
/// the external ones if there are any.
pub fn get_profile_by_name<'a>(
    name: &str,
    builtins: &'a [FanProfile],
    external_profiles: Option<&'a [FanProfile]>,
) -> (r: Option<&'a FanProfile>)
    ensures
        first_named(builtins@, name@, 0) matches Some(i) ==> r == Some(&builtins@[i]),
        first_named(builtins@, name@, 0) is None ==> match external_profiles {
            Some(ext) => match first_named(ext@, name@, 0) {
                Some(i) => r == Some(&ext@[i]),
                None => r is None,
            },
            None => r is None,
        },
{
    let key = String::from_str(name);
    proof {
        lemma_first_named_found(builtins@, name@, 0);
        if let Some(ext) = external_profiles {
            lemma_first_named_found(ext@, name@, 0);
        }
    }
    match find_named(&key, builtins) {
        Some(i) => Some(&builtins[i]),
        None => match external_profiles {
            Some(ext) => match find_named(&key, ext) {
                Some(i) => Some(&ext[i]),
                None => None,
            },
            None => None,
        },
    }
}

/// Where `first_signature` finds something, it is in range and has the
/// signature searched for.
proof fn lemma_first_signature_found(profiles: Seq<FanProfile>, sig: u64, k: int)
    requires
        0 <= k,
    ensures
        first_signature(profiles, sig, k) matches Some(i) ==> k <= i < profiles.len()
            && profiles[i].signature == sig,
    decreases profiles.len() - k,
{
    if k < profiles.len() && profiles[k].signature != sig {
        lemma_first_signature_found(profiles, sig, k + 1);
    }
}

/// Where `first_named` finds something, it is in range and has the name
/// searched for.
proof fn lemma_first_named_found(profiles: Seq<FanProfile>, name: Seq<char>, k: int)
    requires
        0 <= k,
    ensures
        first_named(profiles, name, k) matches Some(i) ==> k <= i < profiles.len()
            && profiles[i].name@ == name,
    decreases profiles.len() - k,
{
    if k < profiles.len() && profiles[k].name@ != name {
        lemma_first_named_found(profiles, name, k + 1);
    }
}

/// Index of the first profile whose signature is `sig`.
fn find_signature(sig: u64, profiles: &[FanProfile]) -> (r: Option<usize>)
    ensures
        r matches Some(i) ==> first_signature(profiles@, sig, 0) == Some(i as int) && i
            < profiles.len(),
        r is None ==> first_signature(profiles@, sig, 0) is None,
{
    let mut i: usize = 0;
    while i < profiles.len()
        invariant
            i <= profiles.len(),
            first_signature(profiles@, sig, 0) == first_signature(profiles@, sig, i as int),
        decreases profiles.len() - i,
    {
        if profiles[i].signature == sig {
            return Some(i);
        }
        i = i + 1;
    }
    None
}

/// Index of the first profile named `key`.
fn find_named(key: &String, profiles: &[FanProfile]) -> (r: Option<usize>)
    ensures
        r matches Some(i) ==> first_named(profiles@, key@, 0) == Some(i as int) && i
            < profiles.len(),
        r is None ==> first_named(profiles@, key@, 0) is None,
{
    let mut i: usize = 0;
    while i < profiles.len()
        invariant
            i <= profiles.len(),
            first_named(profiles@, key@, 0) == first_named(profiles@, key@, i as int),
        decreases profiles.len() - i,
    {
        if profiles[i].name == *key {
            return Some(i);
        }
        i = i + 1;
    }
    None
}

} // verus!
