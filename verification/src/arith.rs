//! Integer arithmetic underlying unit conversion: division that truncates
//! toward zero (the behaviour of hardware integer division) and the greatest
//! common divisor used to reduce period ratios.

use vstd::arithmetic::div_mod::{
    lemma_div_multiples_vanish, lemma_div_nonincreasing, lemma_div_pos_is_pos,
    lemma_fundamental_div_mod, lemma_mod_multiples_basic, lemma_mod_self_0, lemma_small_mod,
};
use vstd::prelude::*;

verus! {

/// Integer division rounding toward zero, as fixed-width machine division
/// does. Verus's `/` on `int` is Euclidean division, which rounds down for a
/// positive divisor; the two differ on negative dividends.
pub open spec fn trunc_div(a: int, b: int) -> int
    recommends
        b >= 1,
{
    if a >= 0 {
        a / b
    } else {
        -((-a) / b)
    }
}

/// Greatest common divisor of two natural numbers, by Euclid's algorithm.
pub open spec fn gcd(a: nat, b: nat) -> nat
    decreases b,
{
    if b == 0 {
        a
    } else {
        gcd(b, a % b)
    }
}

/// Truncating division by a positive divisor never grows the magnitude and
/// keeps the sign of the dividend.
pub proof fn lemma_trunc_div_bounds(a: int, b: int)
    requires
        b >= 1,
    ensures
        a >= 0 ==> 0 <= trunc_div(a, b) <= a,
        a < 0 ==> a <= trunc_div(a, b) <= 0,
{
    if a >= 0 {
        lemma_div_pos_is_pos(a, b);
        lemma_div_nonincreasing(a, b);
    } else {
        lemma_div_pos_is_pos(-a, b);
        lemma_div_nonincreasing(-a, b);
    }
}

/// Truncating division is odd in its dividend: negating the dividend negates
/// the quotient, so truncation is symmetric around zero.
pub proof fn lemma_trunc_div_neg(a: int, b: int)
    requires
        b >= 1,
    ensures
        trunc_div(-a, b) == -trunc_div(a, b),
{
}

/// When the divisor divides the dividend exactly, truncating division is the
/// exact quotient: `trunc_div(q * b, b) == q`.
pub proof fn lemma_trunc_div_exact(q: int, b: int)
    requires
        b >= 1,
    ensures
        trunc_div(q * b, b) == q,
{
    if q >= 0 {
        lemma_div_multiples_vanish(q, b);
        assert(q * b >= 0) by (nonlinear_arith)
            requires
                q >= 0,
                b >= 1,
        ;
        assert(q * b == b * q) by (nonlinear_arith);
    } else {
        lemma_div_multiples_vanish(-q, b);
        assert(q * b < 0) by (nonlinear_arith)
            requires
                q < 0,
                b >= 1,
        ;
        assert(-(q * b) == b * (-q)) by (nonlinear_arith);
    }
}

/// Scaling the dividend and the divisor by the same positive factor leaves a
/// truncating division unchanged: the fraction it rounds is the same.
pub proof fn lemma_trunc_div_common_factor(a: int, b: int, g: int)
    requires
        b >= 1,
        g >= 1,
    ensures
        trunc_div(a * g, b * g) == trunc_div(a, b),
{
    assert(b * g >= 1) by (nonlinear_arith)
        requires
            b >= 1,
            g >= 1,
    ;
    if a >= 0 {
        assert(a * g >= 0) by (nonlinear_arith)
            requires
                a >= 0,
                g >= 1,
        ;
        lemma_div_common_factor_nonneg(a, b, g);
    } else {
        assert(a * g < 0) by (nonlinear_arith)
            requires
                a < 0,
                g >= 1,
        ;
        lemma_div_common_factor_nonneg(-a, b, g);
        assert(-(a * g) == (-a) * g) by (nonlinear_arith);
    }
}

/// The greatest common divisor of a positive number and any number is
/// positive, divides both arguments, and is no larger than either positive
/// argument.
pub proof fn lemma_gcd_properties(a: nat, b: nat)
    requires
        a >= 1,
    ensures
        1 <= gcd(a, b) <= a,
        a % gcd(a, b) == 0,
        b % gcd(a, b) == 0,
        b >= 1 ==> gcd(a, b) <= b,
    decreases b,
{
    if b == 0 {
        lemma_mod_self_0(a as int);
        lemma_small_mod(0, a);
    } else {
        let r = a % b;
        assert(r < b) by {
            vstd::arithmetic::div_mod::lemma_mod_division_less_than_divisor(a as int, b as int);
        }
        lemma_gcd_properties(b, r);
        let g = gcd(b, r);
        assert(gcd(a, b) == g);
        // g divides b and g divides a % b, so g divides a.
        lemma_fundamental_div_mod(a as int, b as int);
        let q = a as int / b as int;
        assert(a == b * q + r);
        lemma_div_pos_is_pos(a as int, b as int);
        // b == (b / g) * g and r == (r / g) * g
        lemma_fundamental_div_mod(b as int, g as int);
        lemma_fundamental_div_mod(r as int, g as int);
        let bq = b as int / g as int;
        let rq = r as int / g as int;
        assert(b == g * bq && r == g * rq);
        assert(a == (bq * q + rq) * g) by (nonlinear_arith)
            requires
                a == b * q + r,
                b == g * bq,
                r == g * rq,
        ;
        lemma_mod_multiples_basic(bq * q + rq, g as int);
        // g <= a: a is a positive multiple of g.
        assert(g <= a) by (nonlinear_arith)
            requires
                a == (bq * q + rq) * g,
                a >= 1,
                g >= 1,
        ;
    }
}

/// Reducing a ratio by the greatest common divisor of its parts leaves every
/// truncated scaling by that ratio unchanged: both conversion directions may
/// work with the reduced ratio and still compute the exact truncated product.
pub proof fn lemma_trunc_div_reduced(v: int, n: int, d: int)
    requires
        n >= 1,
        d >= 1,
    ensures
        1 <= n / gcd(n as nat, d as nat) as int <= n,
        1 <= d / gcd(n as nat, d as nat) as int <= d,
        trunc_div(
            v * (n / gcd(n as nat, d as nat) as int),
            d / gcd(n as nat, d as nat) as int,
        ) == trunc_div(v * n, d),
{
    let g = gcd(n as nat, d as nat) as int;
    lemma_gcd_properties(n as nat, d as nat);
    let rn = n / g;
    let rd = d / g;
    lemma_fundamental_div_mod(n, g);
    lemma_fundamental_div_mod(d, g);
    assert(n == g * rn && d == g * rd);
    assert(1 <= rn <= n && 1 <= rd <= d) by (nonlinear_arith)
        requires
            n == g * rn,
            d == g * rd,
            1 <= g <= n,
            g <= d,
            n >= 1,
            d >= 1,
    ;
    lemma_trunc_div_common_factor(v * rn, rd, g);
    assert((v * rn) * g == v * n && rd * g == d) by (nonlinear_arith)
        requires
            n == g * rn,
            d == g * rd,
    ;
}

/// Euclidean division version of the common-factor law, for a non-negative
/// dividend: `(a * g) / (b * g) == a / b`.
proof fn lemma_div_common_factor_nonneg(a: int, b: int, g: int)
    requires
        a >= 0,
        b >= 1,
        g >= 1,
    ensures
        (a * g) / (b * g) == a / b,
{
    let q = a / b;
    let r = a % b;
    lemma_fundamental_div_mod(a, b);
    assert(a == q * b + r);
    assert(a * g == q * (b * g) + r * g) by (nonlinear_arith)
        requires
            a == q * b + r,
    ;
    assert(0 <= r * g && r * g < b * g) by (nonlinear_arith)
        requires
            0 <= r < b,
            g >= 1,
    ;
    vstd::arithmetic::div_mod::lemma_fundamental_div_mod_converse_div(a * g, b * g, q, r * g);
}

} // verus!
