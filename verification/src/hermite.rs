//! Algebra behind the monotonicity of the fan-curve spline.
use vstd::prelude::*;

use crate::spline::{abs, fits, h00, h01, h10, h11, hermite_den, hermite_num, lemma_basis_forms, round_half_away};

verus! {

proof fn lemma_cube_difference(u: int, v: int)
    ensures
        v * v * v - u * u * u == (v - u) * (u * u + u * v + v * v),
{
    assert(v * v * v - u * u * u == (v - u) * (u * u + u * v + v * v)) by (nonlinear_arith);
}

proof fn lemma_square_times_difference(u: int, v: int, d: int)
    ensures
        (v * v) * d - (u * u) * d == (v - u) * ((u + v) * d),
{
    assert((v * v) * d - (u * u) * d == (v - u) * ((u + v) * d)) by (nonlinear_arith);
}

proof fn lemma_linear_difference(u: int, v: int, e: int)
    ensures
        v * e - u * e == (v - u) * e,
{
    assert(v * e - u * e == (v - u) * e) by (nonlinear_arith);
}

proof fn lemma_pull(c: int, w: int, p: int)
    ensures
        c * (w * p) == w * (c * p),
{
    assert(c * (w * p) == w * (c * p)) by (nonlinear_arith);
}

proof fn lemma_sum3(w: int, x: int, y: int, z: int)
    ensures
        w * x + w * y + w * z == w * (x + y + z),
{
    assert(w * x + w * y + w * z == w * (x + y + z)) by (nonlinear_arith);
}

proof fn lemma_factor(w: int, p: int, q: int, r: int, cp: int, cq: int, cr: int)
    ensures
        cp * (w * p) + cq * (w * q) + cr * (w * r) == w * (cp * p + cq * q + cr * r),
{
    lemma_pull(cp, w, p);
    lemma_pull(cq, w, q);
    lemma_pull(cr, w, r);
    lemma_sum3(w, cp * p, cq * q, cr * r);
}

/// How each basis polynomial changes between two points `u` and `v`; `a`
/// and `b` stand for `u² + uv + v²` and `(u + v) · d`.
pub proof fn lemma_basis_differences(d: int, u: int, v: int)
    ensures
        ({
            let a = u * u + u * v + v * v;
            let b = (u + v) * d;
            let dd = d * d;
            &&& h01(d, v) - h01(d, u) == (v - u) * (3 * b - 2 * a)
            &&& h00(d, v) - h00(d, u) == -(h01(d, v) - h01(d, u))
            &&& h10(d, v) - h10(d, u) == (v - u) * (a - 2 * b + dd)
            &&& h11(d, v) - h11(d, u) == (v - u) * (a - b)
        }),
{
    let a = u * u + u * v + v * v;
    let b = (u + v) * d;
    let dd = d * d;
    let w = v - u;
    lemma_basis_forms(d, u);
    lemma_basis_forms(d, v);
    lemma_cube_difference(u, v);
    lemma_square_times_difference(u, v, d);
    lemma_linear_difference(u, v, dd);
    lemma_factor(w, a, b, 0, -2, 3, 0);
    lemma_factor(w, a, b, 1, 1, -2, dd);
    lemma_factor(w, a, b, 0, 1, -1, 0);
    assert(w * 0 == 0) by (nonlinear_arith);
    assert(w * 1 == w) by (nonlinear_arith);
}


/// The four corner inequalities behind the Fritsch–Carlson monotonicity
/// region (tangent ratios in `[0, 3]`), for `0 <= u <= v <= d`.
pub proof fn lemma_corners(d: int, u: int, v: int)
    requires
        0 <= u <= v <= d,
    ensures
        ({
            let a = u * u + u * v + v * v;
            let b = (u + v) * d;
            let dd = d * d;
            &&& 3 * b - 2 * a >= 0
            &&& a - 3 * b + 3 * dd >= 0
            &&& a >= 0
            &&& 4 * a - 6 * b + 3 * dd >= 0
        }),
{
    let a = u * u + u * v + v * v;
    let b = (u + v) * d;
    let dd = d * d;
    assert(u * u <= u * d) by (nonlinear_arith)
        requires
            0 <= u <= d,
    ;
    assert(v * v <= v * d) by (nonlinear_arith)
        requires
            0 <= v <= d,
    ;
    assert(u * v <= u * d) by (nonlinear_arith)
        requires
            0 <= u,
            v <= d,
    ;
    assert(u * v <= v * d) by (nonlinear_arith)
        requires
            0 <= v,
            u <= d,
    ;
    assert((u + v) * d == u * d + v * d) by (nonlinear_arith);
    assert(u * u >= 0 && u * v >= 0 && v * v >= 0) by (nonlinear_arith)
        requires
            u >= 0,
            v >= 0,
    ;
    let p = d - u;
    let q = d - v;
    assert(a - 3 * b + 3 * dd == p * p + p * q + q * q) by (nonlinear_arith)
        requires
            p == d - u,
            q == d - v,
            a == u * u + u * v + v * v,
            b == (u + v) * d,
            dd == d * d,
    ;
    assert(p * p >= 0 && p * q >= 0 && q * q >= 0) by (nonlinear_arith)
        requires
            p >= 0,
            q >= 0,
    ;
    let r = 2 * u - d;
    let s = 2 * v - d;
    assert(4 * a - 6 * b + 3 * dd == r * r + r * s + s * s) by (nonlinear_arith)
        requires
            r == 2 * u - d,
            s == 2 * v - d,
            a == u * u + u * v + v * v,
            b == (u + v) * d,
            dd == d * d,
    ;
    assert(2 * (r * r + r * s + s * s) == r * r + s * s + (r + s) * (r + s)) by (nonlinear_arith);
    assert(r * r >= 0 && s * s >= 0 && (r + s) * (r + s) >= 0) by (nonlinear_arith);
}


/// `x * c` is at least the smaller of zero and `x * 3w` when `0 <= c <= 3w`.
proof fn lemma_scaled_lower(x: int, c: int, w: int)
    requires
        0 <= c <= 3 * w,
    ensures
        x * c >= (if x >= 0 {
            0
        } else {
            x * (3 * w)
        }),
{
    if x >= 0 {
        assert(x * c >= 0) by (nonlinear_arith)
            requires
                x >= 0,
                c >= 0,
        ;
    } else {
        assert(x * c >= x * (3 * w)) by (nonlinear_arith)
            requires
                x < 0,
                c <= 3 * w,
        ;
    }
}

/// With `w > 0` and both weights in `[0, 3w]`, the corner inequalities make
/// `x0·w + x1·c1 + x2·c2` non-negative.
proof fn lemma_weighted_corners(x0: int, x1: int, x2: int, w: int, c1: int, c2: int)
    requires
        w > 0,
        0 <= c1 <= 3 * w,
        0 <= c2 <= 3 * w,
        x0 >= 0,
        x0 + 3 * x1 >= 0,
        x0 + 3 * x2 >= 0,
        x0 + 3 * x1 + 3 * x2 >= 0,
    ensures
        x0 * w + x1 * c1 + x2 * c2 >= 0,
{
    lemma_scaled_lower(x1, c1, w);
    lemma_scaled_lower(x2, c2, w);
    let m = x0 + (if x1 >= 0 {
        0
    } else {
        3 * x1
    }) + (if x2 >= 0 {
        0
    } else {
        3 * x2
    });
    assert(m >= 0);
    assert(x0 * w + (if x1 >= 0 {
        0
    } else {
        x1 * (3 * w)
    }) + (if x2 >= 0 {
        0
    } else {
        x2 * (3 * w)
    }) == m * w) by (nonlinear_arith)
        requires
            m == x0 + (if x1 >= 0 {
                0
            } else {
                3 * x1
            }) + (if x2 >= 0 {
                0
            } else {
                3 * x2
            }),
    ;
    assert(m * w >= 0) by (nonlinear_arith)
        requires
            m >= 0,
            w > 0,
    ;
}

proof fn lemma_mul_mono(x: int, y: int, z: int)
    requires
        x <= y,
        z >= 0,
    ensures
        x * z <= y * z,
{
    assert(x * z <= y * z) by (nonlinear_arith)
        requires
            x <= y,
            z >= 0,
    ;
}

proof fn lemma_regroup(w: int, x: int, y: int, z: int)
    ensures
        ((w * x) * y) * z == w * ((x * y) * z),
{
    assert(((w * x) * y) * z == w * ((x * y) * z)) by (nonlinear_arith);
}

proof fn lemma_regroup2(d: int, x: int, a: int, b: int)
    ensures
        d * ((x * a) * b) == x * ((d * a) * b),
{
    assert(d * ((x * a) * b) == x * ((d * a) * b)) by (nonlinear_arith);
}

/// On a rising segment whose tangents fit it, the spline numerator does not
/// decrease from `u` to `v`.
pub proof fn lemma_hermite_rising(
    y0: int,
    y1: int,
    d: int,
    u: int,
    v: int,
    m0: (int, int),
    m1: (int, int),
)
    requires
        d >= 1,
        0 <= u <= v <= d,
        y1 > y0,
        fits(m0, y1 - y0, d),
        fits(m1, y1 - y0, d),
    ensures
        hermite_num(y0, y1, d, u, m0, m1) <= hermite_num(y0, y1, d, v, m0, m1),
{
    let dy = y1 - y0;
    let (a0, b0) = m0;
    let (a1, b1) = m1;
    let bb = b0 * b1;
    let w = v - u;
    // Tangent numerators are non-negative and bounded by three times the slope.
    assert(a0 >= 0) by (nonlinear_arith)
        requires
            a0 * dy >= 0,
            dy > 0,
    ;
    assert(a1 >= 0) by (nonlinear_arith)
        requires
            a1 * dy >= 0,
            dy > 0,
    ;
    assert(abs(a0) == a0 && abs(dy) == dy && abs(a1) == a1);
    assert(d * a0 == a0 * d && d * a1 == a1 * d) by (nonlinear_arith);
    let c1 = (d * a0) * b1;
    let c2 = (d * a1) * b0;
    lemma_mul_mono(d * a0, 3 * dy * b0, b1);
    lemma_mul_mono(d * a1, 3 * dy * b1, b0);
    assert(d * a0 >= 0 && d * a1 >= 0) by (nonlinear_arith)
        requires
            d >= 1,
            a0 >= 0,
            a1 >= 0,
    ;
    assert(c1 >= 0 && c2 >= 0) by (nonlinear_arith)
        requires
            c1 == (d * a0) * b1,
            c2 == (d * a1) * b0,
            d * a0 >= 0,
            d * a1 >= 0,
            b0 >= 1,
            b1 >= 1,
    ;
    let wt = dy * bb;
    assert((3 * dy * b0) * b1 == 3 * wt && (3 * dy * b1) * b0 == 3 * wt) by (nonlinear_arith)
        requires
            wt == dy * bb,
            bb == b0 * b1,
    ;
    assert(wt > 0) by (nonlinear_arith)
        requires
            dy > 0,
            b0 >= 1,
            b1 >= 1,
            wt == dy * (b0 * b1),
    ;
    // Differences of the basis polynomials factor through w = v - u.
    lemma_basis_differences(d, u, v);
    lemma_corners(d, u, v);
    let a = u * u + u * v + v * v;
    let b = (u + v) * d;
    let dd = d * d;
    let x0 = 3 * b - 2 * a;
    let x1 = a - 2 * b + dd;
    let x2 = a - b;
    lemma_weighted_corners(x0, x1, x2, wt, c1, c2);
    let e01 = h01(d, v) - h01(d, u);
    let e10 = h10(d, v) - h10(d, u);
    let e11 = h11(d, v) - h11(d, u);
    // The numerator difference, step by step.
    let su = h00(d, u) * y0 + h01(d, u) * y1;
    let sv = h00(d, v) * y0 + h01(d, v) * y1;
    let tu = h10(d, u) * a0 * b1 + h11(d, u) * a1 * b0;
    let tv = h10(d, v) * a0 * b1 + h11(d, v) * a1 * b0;
    lemma_linear_difference(su, sv, bb);
    lemma_linear_difference(tu, tv, d);
    assert(sv * bb - su * bb == (sv - su) * bb);
    assert(tv * d - tu * d == (tv - tu) * d);
    assert(d * tv - d * tu == (tv - tu) * d) by (nonlinear_arith);
    lemma_linear_difference(h00(d, u), h00(d, v), y0);
    lemma_linear_difference(h01(d, u), h01(d, v), y1);
    assert(sv - su == e01 * dy) by (nonlinear_arith)
        requires
            sv - su == (h00(d, v) - h00(d, u)) * y0 + (h01(d, v) - h01(d, u)) * y1,
            h00(d, v) - h00(d, u) == -e01,
            e01 == h01(d, v) - h01(d, u),
            dy == y1 - y0,
    ;
    lemma_linear_difference(h10(d, u) * a0, h10(d, v) * a0, b1);
    lemma_linear_difference(h11(d, u) * a1, h11(d, v) * a1, b0);
    lemma_linear_difference(h10(d, u), h10(d, v), a0);
    lemma_linear_difference(h11(d, u), h11(d, v), a1);
    assert(tv - tu == (e10 * a0) * b1 + (e11 * a1) * b0);
    // Substitute the factored differences.
    assert(e01 == w * x0 && e10 == w * x1 && e11 == w * x2);
    lemma_regroup(w, x0, dy, bb);
    lemma_regroup(w, x1, a0, b1);
    lemma_regroup(w, x2, a1, b0);
    lemma_regroup2(d, x1, a0, b1);
    lemma_regroup2(d, x2, a1, b0);
    assert((x0 * dy) * bb == x0 * wt) by (nonlinear_arith)
        requires
            wt == dy * bb,
    ;
    let k = x0 * wt + x1 * c1 + x2 * c2;
    let ta = w * ((x1 * a0) * b1);
    let tb = w * ((x2 * a1) * b0);
    assert(tv - tu == ta + tb);
    assert((ta + tb) * d == d * ta + d * tb) by (nonlinear_arith);
    assert((sv - su) * bb + (tv - tu) * d == w * k) by (nonlinear_arith)
        requires
            (sv - su) * bb == w * ((x0 * dy) * bb),
            (x0 * dy) * bb == x0 * wt,
            (tv - tu) * d == d * (w * ((x1 * a0) * b1)) + d * (w * ((x2 * a1) * b0)),
            d * ((x1 * a0) * b1) == x1 * c1,
            d * ((x2 * a1) * b0) == x2 * c2,
            k == x0 * wt + x1 * c1 + x2 * c2,
    {
        assert(d * (w * ((x1 * a0) * b1)) == w * (d * ((x1 * a0) * b1))) by (nonlinear_arith);
        assert(d * (w * ((x2 * a1) * b0)) == w * (d * ((x2 * a1) * b0))) by (nonlinear_arith);
    }
    assert(w * k >= 0) by (nonlinear_arith)
        requires
            w >= 0,
            k >= 0,
    ;
}


/// Negating the knot values and the tangents negates the spline numerator.
pub proof fn lemma_hermite_negate(
    y0: int,
    y1: int,
    d: int,
    u: int,
    m0: (int, int),
    m1: (int, int),
)
    ensures
        hermite_num(-y0, -y1, d, u, (-m0.0, m0.1), (-m1.0, m1.1)) == -hermite_num(
            y0,
            y1,
            d,
            u,
            m0,
            m1,
        ),
{
    let (a0, b0) = m0;
    let (a1, b1) = m1;
    let bb = b0 * b1;
    let p = h00(d, u);
    let q = h01(d, u);
    let r = h10(d, u);
    let t = h11(d, u);
    assert(p * (-y0) + q * (-y1) == -(p * y0 + q * y1)) by (nonlinear_arith);
    assert((-(p * y0 + q * y1)) * bb == -((p * y0 + q * y1) * bb)) by (nonlinear_arith);
    assert(r * (-a0) * b1 == -(r * a0 * b1)) by (nonlinear_arith);
    assert(t * (-a1) * b0 == -(t * a1 * b0)) by (nonlinear_arith);
    assert(d * (-(r * a0 * b1) + -(t * a1 * b0)) == -(d * (r * a0 * b1 + t * a1 * b0)))
        by (nonlinear_arith);
}

/// At the ends of a segment the spline takes the knot values.
pub proof fn lemma_hermite_ends(y0: int, y1: int, d: int, m0: (int, int), m1: (int, int))
    ensures
        hermite_num(y0, y1, d, 0, m0, m1) == y0 * hermite_den(d, m0, m1),
        hermite_num(y0, y1, d, d, m0, m1) == y1 * hermite_den(d, m0, m1),
{
    let (a0, b0) = m0;
    let (a1, b1) = m1;
    let bb = b0 * b1;
    let ddd = d * d * d;
    lemma_basis_forms(d, 0);
    lemma_basis_forms(d, d);
    assert(0int * 0 * 0 == 0 && (0int * 0) * d == 0 && 0int * (d * d) == 0) by (nonlinear_arith);
    assert(h00(d, 0) == ddd && h01(d, 0) == 0 && h10(d, 0) == 0 && h11(d, 0) == 0) by (
    nonlinear_arith)
        requires
            h00(d, 0) == 2 * (0int * 0 * 0) - 3 * ((0int * 0) * d) + (d * d) * d,
            h01(d, 0) == -2 * (0int * 0 * 0) + 3 * ((0int * 0) * d),
            h10(d, 0) == 0int * 0 * 0 - 2 * ((0int * 0) * d) + 0int * (d * d),
            h11(d, 0) == 0int * 0 * 0 - (0int * 0) * d,
            ddd == d * d * d,
    ;
    assert(h00(d, d) == 0 && h01(d, d) == ddd && h10(d, d) == 0 && h11(d, d) == 0) by (
    nonlinear_arith)
        requires
            h00(d, d) == 2 * (d * d * d) - 3 * ((d * d) * d) + (d * d) * d,
            h01(d, d) == -2 * (d * d * d) + 3 * ((d * d) * d),
            h10(d, d) == d * d * d - 2 * ((d * d) * d) + d * (d * d),
            h11(d, d) == d * d * d - (d * d) * d,
            ddd == d * d * d,
    ;
    assert((ddd * y0 + 0 * y1) * bb + d * (0 * a0 * b1 + 0 * a1 * b0) == y0 * (ddd * bb))
        by (nonlinear_arith);
    assert((0 * y0 + ddd * y1) * bb + d * (0 * a0 * b1 + 0 * a1 * b0) == y1 * (ddd * bb))
        by (nonlinear_arith);
}

/// A whole number of denominators rounds to itself.
pub proof fn lemma_round_exact(y: int, den: int)
    requires
        y >= 0,
        den >= 1,
    ensures
        round_half_away(y * den, den) == y,
{
    assert(y * den >= 0) by (nonlinear_arith)
        requires
            y >= 0,
            den >= 1,
    ;
    assert(2 * (y * den) + den == y * (2 * den) + den) by (nonlinear_arith);
    vstd::arithmetic::div_mod::lemma_fundamental_div_mod_converse(
        2 * (y * den) + den,
        2 * den,
        y,
        den,
    );
}

/// Rounding keeps the order of non-negative values over one denominator.
pub proof fn lemma_round_monotone(n1: int, n2: int, den: int)
    requires
        0 <= n1 <= n2,
        den >= 1,
    ensures
        round_half_away(n1, den) <= round_half_away(n2, den),
{
    vstd::arithmetic::div_mod::lemma_div_is_ordered(2 * n1 + den, 2 * n2 + den, 2 * den);
}

} // verus!
