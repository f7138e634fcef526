//! Rounding a fraction to the nearest whole number.
use vstd::arithmetic::div_mod::lemma_fundamental_div_mod_converse;
use vstd::prelude::*;

verus! {

/// A fraction rounded to the nearest whole number, a half going up.
pub open spec fn round_half_up(numerator: int, denominator: int) -> int {
    (2 * numerator + denominator) / (2 * denominator)
}

/// Rounds a fraction to the nearest whole number, a half going up.
pub fn rounded(numerator: u128, denominator: u128) -> (r: u128)
    requires
        denominator > 0,
    ensures
        r == round_half_up(numerator as int, denominator as int),
{
    let whole: u128 = numerator / denominator;
    let rest: u128 = numerator % denominator;
    let up: bool = rest >= denominator - rest;
    proof {
        let n = numerator as int;
        let d = denominator as int;
        let q = whole as int;
        let t = rest as int;
        assert(n == q * d + t) by (nonlinear_arith)
            requires
                d > 0,
                q == n / d,
                t == n % d,
        ;
        if up {
            assert(2 * n + d == (q + 1) * (2 * d) + (2 * t - d)) by (nonlinear_arith)
                requires
                    n == q * d + t,
            ;
            lemma_fundamental_div_mod_converse(2 * n + d, 2 * d, q + 1, 2 * t - d);
            assert(q < n) by (nonlinear_arith)
                requires
                    n == q * d + t,
                    0 <= q,
                    1 <= t < d,
            ;
        } else {
            assert(2 * n + d == q * (2 * d) + (2 * t + d)) by (nonlinear_arith)
                requires
                    n == q * d + t,
            ;
            lemma_fundamental_div_mod_converse(2 * n + d, 2 * d, q, 2 * t + d);
        }
    }
    if up {
        whole + 1
    } else {
        whole
    }
}

/// The rounded value is the whole number nearest to the fraction: the
/// fraction is no less than the rounded value less a half, and less than the
/// rounded value and a half.
pub proof fn lemma_round_half_up_is_nearest(numerator: int, denominator: int)
    requires
        0 <= numerator,
        0 < denominator,
    ensures
        (2 * round_half_up(numerator, denominator) - 1) * denominator <= 2 * numerator,
        2 * numerator < (2 * round_half_up(numerator, denominator) + 1) * denominator,
{
    let r = round_half_up(numerator, denominator);
    let x = 2 * numerator + denominator;
    let y = 2 * denominator;
    assert(x == y * (x / y) + x % y && 0 <= x % y < y) by (nonlinear_arith)
        requires
            y > 0,
    ;
    assert((2 * r - 1) * denominator == y * r - denominator) by (nonlinear_arith)
        requires
            y == 2 * denominator,
    ;
    assert((2 * r + 1) * denominator == y * r + denominator) by (nonlinear_arith)
        requires
            y == 2 * denominator,
    ;
}

/// A larger numerator never rounds to less.
pub proof fn lemma_round_half_up_grows(smaller: int, larger: int, denominator: int)
    requires
        0 <= smaller <= larger,
        0 < denominator,
    ensures
        round_half_up(smaller, denominator) <= round_half_up(larger, denominator),
{
    lemma_round_half_up_is_nearest(smaller, denominator);
    lemma_round_half_up_is_nearest(larger, denominator);
    let a = round_half_up(smaller, denominator);
    let b = round_half_up(larger, denominator);
    if a > b {
        assert((2 * a - 1) * denominator >= (2 * b + 1) * denominator) by (nonlinear_arith)
            requires
                a >= b + 1,
                denominator > 0,
        ;
    }
}

/// A fraction that is one whole larger rounds to one more.
pub proof fn lemma_round_half_up_shifts(numerator: int, denominator: int)
    requires
        0 <= numerator,
        0 < denominator,
    ensures
        round_half_up(numerator + denominator, denominator) == round_half_up(
            numerator,
            denominator,
        ) + 1,
{
    let x = 2 * numerator + denominator;
    let y = 2 * denominator;
    let q = x / y;
    let t = x % y;
    assert(x == q * y + t && 0 <= t < y) by (nonlinear_arith)
        requires
            y > 0,
            q == x / y,
            t == x % y,
    ;
    assert(x + y == (q + 1) * y + t) by (nonlinear_arith)
        requires
            x == q * y + t,
    ;
    lemma_fundamental_div_mod_converse(x + y, y, q + 1, t);
}

} // verus!
