//! The periodic metric: squared minimum-image distance in a cubic box.
//!
//! Per axis the raw separation `d` is reduced to `d - round(d/L)*L`, where
//! the division is rounded to the nearest integer (halves away from zero);
//! the result is the exact sum of the three squared reduced separations,
//! each squared with the fixed-point `mul_spec` rounding.

use vstd::prelude::*;

verus! {

use vstd::math::abs;
use vstd::arithmetic::div_mod::{lemma_fundamental_div_mod, lemma_mod_division_less_than_divisor};
use crate::fixed::{Fixed, SCALE, SAT, mul_spec, sat_clip, tdiv};
use crate::vec3::Vector3D;

/// Largest raw coordinate (and box side) magnitude the metric accepts: 2^62.
pub const CMAX: i128 = 0x4000_0000_0000_0000;

/// Quotient of `n / d` rounded to the nearest integer, halves away from
/// zero; meaningful for `d > 0`.
pub open spec fn round_div(n: int, d: int) -> int {
    if n >= 0 {
        (2 * n + d) / (2 * d)
    } else {
        -((2 * (-n) + d) / (2 * d))
    }
}

/// The reduced (minimum-image) separation along one axis, for raw
/// coordinates `a`, `b` and raw box side `l`.
pub open spec fn sp_axis_sep(a: int, b: int, l: int) -> int {
    (a - b) - round_div(a - b, l) * l
}

/// The fixed-point square of a raw value.
pub open spec fn sp_sq(m: int) -> int {
    mul_spec(m, m)
}

/// Squared minimum-image distance between two coordinates, raw.
pub open spec fn sp_min_image_sq(p: Vector3D, q: Vector3D, l: int) -> int {
    sp_sq(sp_axis_sep(p.x.v as int, q.x.v as int, l)) + sp_sq(
        sp_axis_sep(p.y.v as int, q.y.v as int, l),
    ) + sp_sq(sp_axis_sep(p.z.v as int, q.z.v as int, l))
}

/// Squared distance to the periodic image of `q` shifted by
/// `(kx, ky, kz)` box lengths, raw.
pub open spec fn sp_image_sq(p: Vector3D, q: Vector3D, l: int, kx: int, ky: int, kz: int) -> int {
    sp_sq((p.x.v - q.x.v) - kx * l) + sp_sq((p.y.v - q.y.v) - ky * l) + sp_sq(
        (p.z.v - q.z.v) - kz * l,
    )
}

/// Rounding to the nearest multiple leaves a remainder of at most half
/// the divisor.
pub proof fn lemma_round_div_err(n: int, d: int)
    requires
        d > 0,
    ensures
        2 * abs(n - round_div(n, d) * d) <= d,
{
    if n >= 0 {
        lemma_round_div_err_nonneg(n, d);
    } else {
        lemma_round_div_err_nonneg(-n, d);
        let r = round_div(-n, d);
        assert(n - round_div(n, d) * d == -((-n) - r * d)) by (nonlinear_arith)
            requires
                round_div(n, d) == -r,
        ;
    }
}

proof fn lemma_round_div_err_nonneg(n: int, d: int)
    requires
        d > 0,
        n >= 0,
    ensures
        2 * abs(n - round_div(n, d) * d) <= d,
{
    let r = (2 * n + d) / (2 * d);
    lemma_fundamental_div_mod(2 * n + d, 2 * d);
    lemma_mod_division_less_than_divisor(2 * n + d, 2 * d);
    let rem = (2 * n + d) % (2 * d);
    assert(2 * n + d == 2 * d * r + rem);
    assert(2 * (n - r * d) == rem - d) by (nonlinear_arith)
        requires
            2 * n + d == 2 * d * r + rem,
    ;
}

/// The nearest multiple is the minimizer: no other multiple of the box
/// length gives a smaller squared separation.
pub proof fn lemma_round_div_minimal(n: int, d: int, k: int)
    requires
        d > 0,
    ensures
        (n - round_div(n, d) * d) * (n - round_div(n, d) * d) <= (n - k * d) * (n - k * d),
{
    lemma_round_div_err(n, d);
    let r = round_div(n, d);
    let m = n - r * d;
    let t = r - k;
    assert(n - k * d == m + t * d) by (nonlinear_arith)
        requires
            m == n - r * d,
            t == r - k,
    ;
    assert(m * m <= (m + t * d) * (m + t * d)) by (nonlinear_arith)
        requires
            2 * abs(m) <= d,
            d > 0,
    ;
}

/// Squaring with the fixed-point rounding is monotone in the magnitude.
pub proof fn lemma_sq_monotone(a: int, b: int)
    requires
        a * a <= b * b,
    ensures
        sp_sq(a) <= sp_sq(b),
{
    assert(0 <= a * a) by (nonlinear_arith);
    assert(tdiv(a * a, SCALE as int) <= tdiv(b * b, SCALE as int)) by (nonlinear_arith)
        requires
            0 <= a * a <= b * b,
    ;
}

/// Law: the minimum-image squared distance is minimal over every periodic
/// image; in particular it is the minimum over the 27 images with shifts
/// in {-1, 0, 1} per axis, since shift (0,0,0)-relative rounding realizes
/// it when the separations already lie within one box length.
pub proof fn lemma_min_image_minimal(p: Vector3D, q: Vector3D, l: int, kx: int, ky: int, kz: int)
    requires
        l > 0,
    ensures
        sp_min_image_sq(p, q, l) <= sp_image_sq(p, q, l, kx, ky, kz),
{
    lemma_round_div_minimal(p.x.v - q.x.v, l, kx);
    lemma_round_div_minimal(p.y.v - q.y.v, l, ky);
    lemma_round_div_minimal(p.z.v - q.z.v, l, kz);
    lemma_sq_monotone(sp_axis_sep(p.x.v as int, q.x.v as int, l), (p.x.v - q.x.v) - kx * l);
    lemma_sq_monotone(sp_axis_sep(p.y.v as int, q.y.v as int, l), (p.y.v - q.y.v) - ky * l);
    lemma_sq_monotone(sp_axis_sep(p.z.v as int, q.z.v as int, l), (p.z.v - q.z.v) - kz * l);
}

/// The minimum-image separation is realized by the image whose per-axis
/// shifts are the rounded quotients, so the minimum over all images equals
/// the computed value.
pub proof fn lemma_min_image_attained(p: Vector3D, q: Vector3D, l: int)
    requires
        l > 0,
    ensures
        sp_min_image_sq(p, q, l) == sp_image_sq(
            p,
            q,
            l,
            round_div(p.x.v - q.x.v, l),
            round_div(p.y.v - q.y.v, l),
            round_div(p.z.v - q.z.v, l),
        ),
{
}

/// Rounding to the nearest integer is an odd function of the numerator.
pub proof fn lemma_round_div_odd(n: int, d: int)
    requires
        d > 0,
    ensures
        round_div(-n, d) == -round_div(n, d),
{
    if n == 0 {
        assert(d / (2 * d) == 0) by (nonlinear_arith)
            requires
                d > 0,
        ;
    }
}

/// The reduced separation changes sign when the two coordinates swap.
pub proof fn lemma_axis_sep_antisym(a: int, b: int, l: int)
    requires
        l > 0,
    ensures
        sp_axis_sep(b, a, l) == -sp_axis_sep(a, b, l),
{
    lemma_round_div_odd(a - b, l);
    assert((-(round_div(a - b, l))) * l == -(round_div(a - b, l) * l)) by (nonlinear_arith);
}

/// The fixed-point square of a value and of its negation agree.
pub proof fn lemma_sq_neg(m: int)
    ensures
        sp_sq(-m) == sp_sq(m),
{
    assert((-m) * (-m) == m * m) by (nonlinear_arith);
}

/// The periodic metric is symmetric in its two coordinates.
pub proof fn lemma_min_image_symm(p: Vector3D, q: Vector3D, l: int)
    requires
        l > 0,
    ensures
        sp_min_image_sq(p, q, l) == sp_min_image_sq(q, p, l),
{
    lemma_axis_sep_antisym(p.x.v as int, q.x.v as int, l);
    lemma_axis_sep_antisym(p.y.v as int, q.y.v as int, l);
    lemma_axis_sep_antisym(p.z.v as int, q.z.v as int, l);
    lemma_sq_neg(sp_axis_sep(p.x.v as int, q.x.v as int, l));
    lemma_sq_neg(sp_axis_sep(p.y.v as int, q.y.v as int, l));
    lemma_sq_neg(sp_axis_sep(p.z.v as int, q.z.v as int, l));
}

/// Nearest-integer division, rounding halves away from zero.
fn round_to_nearest(n: i128, d: i128) -> (r: i128)
    requires
        d > 0,
        -SAT <= n <= SAT,
        d <= SAT,
    ensures
        r as int == round_div(n as int, d as int),
{
    if n >= 0 {
        let q: u128 = (2 * (n as u128) + (d as u128)) / (2 * (d as u128));
        proof {
            assert((2 * n + d) / (2 * d) <= 2 * n + d) by (nonlinear_arith)
                requires
                    2 * d >= 1,
                    2 * n + d >= 0,
            ;
        }
        q as i128
    } else {
        let m: i128 = -n;
        let q: u128 = (2 * (m as u128) + (d as u128)) / (2 * (d as u128));
        proof {
            assert((2 * m + d) / (2 * d) <= 2 * m + d) by (nonlinear_arith)
                requires
                    2 * d >= 1,
                    2 * m + d >= 0,
            ;
        }
        -(q as i128)
    }
}

/// The reduced separation along one axis: `d - round(d/L)*L`, exactly.
fn axis_sep(a: Fixed, b: Fixed, l: Fixed) -> (r: Fixed)
    requires
        a.bounded(CMAX as int),
        b.bounded(CMAX as int),
        0 < l.v <= CMAX,
    ensures
        r.v as int == sp_axis_sep(a.v as int, b.v as int, l.v as int),
        2 * abs(r.v as int) <= l.v,
{
    let d: i128 = a.v - b.v;
    let k: i128 = round_to_nearest(d, l.v);
    proof {
        lemma_round_div_err(d as int, l.v as int);
        assert(d - round_div(d as int, l.v as int) * (l.v as int) == d - (k as int) * (l.v as int));
    }
    let s: i128 = d - k * l.v;
    Fixed { v: s }
}

/// Compute the squared distance between two positions under the
/// minimum-image convention, for a cubic box of side `l`.
pub fn squared_distance(r1: &Vector3D, r2: &Vector3D, l: &Fixed) -> (r: Fixed)
    requires
        r1.bounded(CMAX as int),
        r2.bounded(CMAX as int),
        0 < l.v <= CMAX,
    ensures
        r.v as int == sp_min_image_sq(*r1, *r2, l.v as int),
        0 <= r.v <= 3 * SAT,
{
    let sx: Fixed = axis_sep(r1.x, r2.x, *l);
    let sy: Fixed = axis_sep(r1.y, r2.y, *l);
    let sz: Fixed = axis_sep(r1.z, r2.z, *l);
    let qx: Fixed = sx.mul_sat(sx);
    let qy: Fixed = sy.mul_sat(sy);
    let qz: Fixed = sz.mul_sat(sz);
    proof {
        lemma_sq_nonneg(sx.v as int);
        lemma_sq_nonneg(sy.v as int);
        lemma_sq_nonneg(sz.v as int);
    }
    Fixed { v: qx.v + qy.v + qz.v }
}

/// A fixed-point square is never negative.
proof fn lemma_sq_nonneg(a: int)
    ensures
        0 <= sp_sq(a),
        sp_sq(a) <= SAT,
{
    assert(0 <= a * a) by (nonlinear_arith);
    assert(0 <= tdiv(a * a, SCALE as int)) by (nonlinear_arith)
        requires
            0 <= a * a,
    ;
}

} // verus!
