//! Integer groundwork: floor/ceiling division facts, overflow bounds for
//! 64-bit amounts multiplied into 128-bit intermediates, and an integer
//! square root.

use vstd::prelude::*;
use vstd::arithmetic::div_mod::{
    lemma_fundamental_div_mod, lemma_fundamental_div_mod_converse, lemma_mod_bound,
};

verus! {

/// Ceiling division of `a` by `b`, over mathematical integers.
pub open spec fn spec_div_ceil(a: int, b: int) -> int {
    (a + b - 1) / b
}

/// Floor division of nonnegative `a` by positive `b` sits within one
/// divisor-width of `a`.
pub proof fn lemma_div_bounds(a: int, b: int)
    requires
        0 <= a,
        0 < b,
    ensures
        0 <= a / b,
        b * (a / b) <= a,
        a < b * (a / b) + b,
{
    lemma_fundamental_div_mod(a, b);
    lemma_mod_bound(a, b);
    assert(0 <= a / b) by (nonlinear_arith)
        requires
            a == b * (a / b) + a % b,
            0 <= a % b < b,
            0 <= a,
            0 < b,
    ;
}

/// If `a < b * c` then `a / b < c`.
pub proof fn lemma_div_lt(a: int, b: int, c: int)
    requires
        0 <= a,
        0 < b,
        a < b * c,
    ensures
        a / b < c,
{
    lemma_div_bounds(a, b);
    assert(a / b < c) by (nonlinear_arith)
        requires
            b * (a / b) <= a,
            a < b * c,
            0 < b,
            0 <= a / b,
    ;
}

/// If `a <= b * c` then `a / b <= c`.
pub proof fn lemma_div_at_most(a: int, b: int, c: int)
    requires
        0 <= a,
        0 < b,
        a <= b * c,
    ensures
        a / b <= c,
{
    lemma_div_bounds(a, b);
    assert(a / b <= c) by (nonlinear_arith)
        requires
            b * (a / b) <= a,
            a < b * (a / b) + b,
            a <= b * c,
            0 < b,
    ;
}

/// If `b * c <= a` then `c <= a / b`.
pub proof fn lemma_div_at_least(a: int, b: int, c: int)
    requires
        0 <= a,
        0 < b,
        b * c <= a,
    ensures
        c <= a / b,
{
    lemma_div_bounds(a, b);
    assert(c <= a / b) by (nonlinear_arith)
        requires
            a < b * (a / b) + b,
            b * c <= a,
            0 < b,
    ;
}

/// An exact multiple divides back to its cofactor, for floor and for ceiling.
pub proof fn lemma_div_exact(a: int, b: int, q: int)
    requires
        0 < b,
        0 <= q,
        a == b * q,
    ensures
        a / b == q,
        spec_div_ceil(a, b) == q,
{
    assert(a == q * b + 0) by (nonlinear_arith)
        requires
            a == b * q,
    ;
    lemma_fundamental_div_mod_converse(a, b, q, 0);
    assert(a + b - 1 == q * b + (b - 1)) by (nonlinear_arith)
        requires
            a == b * q,
    ;
    lemma_fundamental_div_mod_converse(a + b - 1, b, q, b - 1);
}

/// Ceiling division of nonnegative `a` by positive `b` sits within one
/// divisor-width above `a`.
pub proof fn lemma_div_ceil_bounds(a: int, b: int)
    requires
        0 <= a,
        0 < b,
    ensures
        0 <= spec_div_ceil(a, b),
        a <= b * spec_div_ceil(a, b),
        b * spec_div_ceil(a, b) < a + b,
{
    lemma_div_bounds(a + b - 1, b);
    let c = spec_div_ceil(a, b);
    assert(a <= b * c && b * c < a + b) by (nonlinear_arith)
        requires
            b * c <= a + b - 1,
            a + b - 1 < b * c + b,
            0 < b,
    ;
}

/// If `a <= b * c` then `ceil(a / b) <= c`.
pub proof fn lemma_div_ceil_at_most(a: int, b: int, c: int)
    requires
        0 <= a,
        0 < b,
        0 <= c,
        a <= b * c,
    ensures
        spec_div_ceil(a, b) <= c,
{
    assert(a + b - 1 < b * (c + 1)) by (nonlinear_arith)
        requires
            a <= b * c,
            0 < b,
    ;
    lemma_div_lt(a + b - 1, b, c + 1);
}

/// If `b * c < a` then `c < ceil(a / b)`.
pub proof fn lemma_div_ceil_at_least(a: int, b: int, c: int)
    requires
        0 <= a,
        0 < b,
        0 <= c,
        b * c < a,
    ensures
        c < spec_div_ceil(a, b),
{
    assert(b * (c + 1) <= a + b - 1) by (nonlinear_arith)
        requires
            b * c < a,
            0 < b,
    ;
    lemma_div_at_least(a + b - 1, b, c + 1);
}

/// Floor division is monotone in the dividend.
pub proof fn lemma_div_monotone(a1: int, a2: int, b: int)
    requires
        0 <= a1 <= a2,
        0 < b,
    ensures
        a1 / b <= a2 / b,
{
    lemma_div_bounds(a1, b);
    lemma_div_bounds(a2, b);
    assert(a1 / b <= a2 / b) by (nonlinear_arith)
        requires
            b * (a1 / b) <= a1,
            a1 < b * (a1 / b) + b,
            b * (a2 / b) <= a2,
            a2 < b * (a2 / b) + b,
            a1 <= a2,
            0 < b,
    ;
}

/// The product of two amounts bounded by `u64::MAX` fits in a `u128`.
pub proof fn lemma_mul_fits_u128(a: int, b: int)
    requires
        0 <= a <= u64::MAX,
        0 <= b <= u64::MAX,
    ensures
        0 <= a * b <= u128::MAX,
{
    assert(0 <= a * b && a * b <= (u64::MAX as int) * (u64::MAX as int)) by (nonlinear_arith)
        requires
            0 <= a <= u64::MAX,
            0 <= b <= u64::MAX,
    ;
}

/// Widening product of two 64-bit amounts.
pub fn mul_wide(a: u64, b: u64) -> (r: u128)
    ensures
        r == a * b,
{
    proof {
        lemma_mul_fits_u128(a as int, b as int);
    }
    (a as u128) * (b as u128)
}

/// Ceiling division on `u128`, written so that no intermediate overflows.
pub fn div_ceil_u128(a: u128, b: u128) -> (r: u128)
    requires
        0 < b,
    ensures
        r == spec_div_ceil(a as int, b as int),
{
    let q: u128 = a / b;
    let rem: u128 = a % b;
    proof {
        lemma_fundamental_div_mod(a as int, b as int);
        lemma_mod_bound(a as int, b as int);
    }
    if rem == 0 {
        proof {
            lemma_div_exact(a as int, b as int, q as int);
        }
        q
    } else {
        proof {
            assert(a + b - 1 == (q + 1) * b + (rem - 1)) by (nonlinear_arith)
                requires
                    a == b * q + rem,
            ;
            lemma_fundamental_div_mod_converse(a as int + b - 1, b as int, q as int + 1, rem as int - 1);
            // rem != 0 forces b >= 2, so q + 1 cannot overflow
            assert(q < u128::MAX) by (nonlinear_arith)
                requires
                    b * q <= a,
                    a <= u128::MAX,
                    2 <= b,
                    0 <= q,
            ;
        }
        q + 1
    }
}

/// `r` is the integer square root of `n`.
pub open spec fn spec_is_sqrt(n: int, r: int) -> bool {
    &&& 0 <= r
    &&& r * r <= n
    &&& n < (r + 1) * (r + 1)
}

/// Integer square root of a 128-bit value, by bisection.
pub fn isqrt_u128(n: u128) -> (r: u64)
    ensures
        spec_is_sqrt(n as int, r as int),
{
    let mut lo: u64 = 0;
    let mut hi: u64 = u64::MAX;
    proof {
        assert(n < ((u64::MAX as int) + 1) * ((u64::MAX as int) + 1)) by (nonlinear_arith)
            requires
                n <= u128::MAX,
        ;
    }
    while lo < hi
        invariant
            lo <= hi,
            (lo as int) * (lo as int) <= n as int,
            (n as int) < ((hi as int) + 1) * ((hi as int) + 1),
        decreases hi - lo,
    {
        let mid: u64 = lo + 1 + (hi - lo - 1) / 2;
        proof {
            lemma_mul_fits_u128(mid as int, mid as int);
        }
        let sq: u128 = (mid as u128) * (mid as u128);
        if sq <= n {
            lo = mid;
        } else {
            hi = mid - 1;
        }
    }
    lo
}

/// The integer square root as a spec-level function: the unique `r` with
/// `r * r <= n < (r + 1) * (r + 1)`.
pub open spec fn spec_sqrt(n: int) -> int {
    choose|r: int| spec_is_sqrt(n, r)
}

/// Whatever satisfies `spec_is_sqrt` is `spec_sqrt`: the root is unique.
pub proof fn lemma_sqrt_is_sqrt(n: int, r: int)
    requires
        spec_is_sqrt(n, r),
    ensures
        spec_sqrt(n) == r,
{
    assert(exists|x: int| spec_is_sqrt(n, x)) by {
        assert(spec_is_sqrt(n, r));
    }
    let s = spec_sqrt(n);
    lemma_sqrt_monotone(n, n, r, s);
    lemma_sqrt_monotone(n, n, s, r);
}

/// Integer square roots are monotone in the radicand.
pub proof fn lemma_sqrt_monotone(n1: int, n2: int, r1: int, r2: int)
    requires
        0 <= n1 <= n2,
        spec_is_sqrt(n1, r1),
        spec_is_sqrt(n2, r2),
    ensures
        r1 <= r2,
{
    assert(r1 <= r2) by (nonlinear_arith)
        requires
            0 <= r1,
            0 <= r2,
            r1 * r1 <= n1,
            n2 < (r2 + 1) * (r2 + 1),
            n1 <= n2,
    ;
}

} // verus!
