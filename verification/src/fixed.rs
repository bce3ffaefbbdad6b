//! Fixed-point integer arithmetic: truncating scaling by a rational time step
//! and Euclidean wrapping into a centered interval.

use vstd::prelude::*;
use vstd::arithmetic::div_mod::{
    lemma_div_is_ordered, lemma_div_multiples_vanish, lemma_mod_division_less_than_divisor,
    lemma_div_pos_is_pos, lemma_small_mod, lemma_fundamental_div_mod,
};
use vstd::arithmetic::mul::lemma_mul_inequality;

verus! {

/// Magnitude of a mathematical integer.
pub open spec fn mag(x: int) -> int {
    if x >= 0 {
        x
    } else {
        -x
    }
}

/// Quotient rounded toward zero, the rounding that machine division performs.
/// Meaningful for `b > 0`.
pub open spec fn tdiv(a: int, b: int) -> int {
    if a >= 0 {
        a / b
    } else {
        -((-a) / b)
    }
}

/// `x` wrapped into the centered interval `[-w/2, w/2)` by Euclidean
/// remainder, for an even positive width `w`.
pub open spec fn wrap(x: int, w: int) -> int {
    ((x + w / 2) % w) - w / 2
}

/// A truncating quotient is no larger in magnitude than `m` whenever the
/// dividend is at most `m` times the divisor in magnitude.
pub proof fn lemma_tdiv_bound(a: int, b: int, m: int)
    requires
        1 <= b,
        0 <= m,
        mag(a) <= m * b,
    ensures
        mag(tdiv(a, b)) <= m,
{
    lemma_div_multiples_vanish(m, b);
    if a >= 0 {
        lemma_div_pos_is_pos(a, b);
        lemma_div_is_ordered(a, m * b, b);
    } else {
        lemma_div_pos_is_pos(-a, b);
        lemma_div_is_ordered(-a, m * b, b);
    }
}

/// Scaling by a rational factor `n / d` with `n <= c * d` multiplies a
/// magnitude bound by at most `c`.
pub proof fn lemma_scale_bound(a: int, n: int, d: int, c: int, m: int)
    requires
        1 <= d,
        0 <= n,
        n <= c * d,
        0 <= m,
        mag(a) <= m,
    ensures
        mag(tdiv(a * n, d)) <= m * c,
{
    assert(mag(a * n) == mag(a) * n) by (nonlinear_arith)
        requires 0 <= n;
    lemma_mul_inequality(mag(a), m, n);
    assert(m * n <= m * (c * d)) by (nonlinear_arith)
        requires 0 <= m, n <= c * d;
    assert(m * (c * d) == (m * c) * d) by (nonlinear_arith);
    assert(0 <= m * c) by (nonlinear_arith)
        requires 0 <= m, 1 <= d, 0 <= n, n <= c * d;
    lemma_tdiv_bound(a * n, d, m * c);
}

/// Wrapping leaves a coordinate already inside the centered interval alone.
pub proof fn lemma_wrap_identity(x: int, w: int)
    requires
        2 <= w,
        w % 2 == 0,
        -w / 2 <= x < w / 2,
    ensures
        wrap(x, w) == x,
{
    lemma_fundamental_div_mod(w, 2);
    assert(0 <= x + w / 2 < w);
    lemma_small_mod((x + w / 2) as nat, w as nat);
}

/// Wrap `x` into `[-w/2, w/2)` for an even positive width `w`.
pub fn wrap_coord(x: i64, w: i64) -> (r: i64)
    requires
        2 <= w <= 1_000_000_000_000,
        w % 2 == 0,
        mag(x as int) <= 4_000_000_000_000_000,
    ensures
        r == wrap(x as int, w as int),
        -(w as int) / 2 <= r < (w as int) / 2,
{
    proof {
        lemma_mod_division_less_than_divisor(x + w / 2, w as int);
    }
    let half: i64 = w / 2;
    let shifted: i64 = x + half;
    match shifted.checked_rem_euclid(w) {
        Some(m) => m - half,
        None => 0,
    }
}

} // verus!
