//! Exact integer helpers the simulation is stated over: clamping,
//! round-toward-zero division, and the floor square root.

use vstd::prelude::*;
use vstd::arithmetic::div_mod::{
    lemma_div_is_ordered, lemma_div_multiples_vanish, lemma_div_pos_is_pos,
};

verus! {

/// `x` pulled into the closed interval `[lo, hi]`.
pub open spec fn clamp_spec(x: int, lo: int, hi: int) -> int {
    if x < lo {
        lo
    } else if x > hi {
        hi
    } else {
        x
    }
}

pub fn clamp_i64(x: i64, lo: i64, hi: i64) -> (r: i64)
    requires
        lo <= hi,
    ensures
        r == clamp_spec(x as int, lo as int, hi as int),
{
    if x < lo {
        lo
    } else if x > hi {
        hi
    } else {
        x
    }
}

/// Division rounding toward zero, for a positive divisor: the semantics of
/// every quotient the simulation takes.
pub open spec fn div_toward_zero(a: int, d: int) -> int {
    if a >= 0 {
        a / d
    } else {
        -((-a) / d)
    }
}

/// A round-toward-zero quotient keeps the dividend's sign and stays within
/// `[-m, m]` whenever the dividend stays within `[-(m * d), m * d]`.
pub proof fn lemma_div_toward_zero_in_range(a: int, d: int, m: int)
    requires
        1 <= d,
        0 <= m,
        -(m * d) <= a <= m * d,
    ensures
        -m <= div_toward_zero(a, d) <= m,
        0 <= a ==> 0 <= div_toward_zero(a, d),
        a <= 0 ==> div_toward_zero(a, d) <= 0,
{
    assert(0 <= m * d) by (nonlinear_arith)
        requires
            1 <= d,
            0 <= m,
    ;
    lemma_div_multiples_vanish(m, d);
    assert((d * m) / d == m);
    assert(d * m == m * d) by (nonlinear_arith);
    if a >= 0 {
        lemma_div_pos_is_pos(a, d);
        lemma_div_is_ordered(a, m * d, d);
    } else {
        lemma_div_pos_is_pos(-a, d);
        lemma_div_is_ordered(-a, m * d, d);
    }
}

/// `r` is the floor of the square root of `n`.
pub open spec fn is_sqrt_floor(n: int, r: int) -> bool {
    0 <= r && r * r <= n && n < (r + 1) * (r + 1)
}

/// The floor of the square root of a non-negative `n`.
pub open spec fn sqrt_floor(n: int) -> int {
    choose|r: int| is_sqrt_floor(n, r)
}

/// Every non-negative integer has a floor square root, and `sqrt_floor`
/// denotes it.
pub proof fn lemma_sqrt_floor_exists(n: int)
    requires
        0 <= n,
    ensures
        is_sqrt_floor(n, sqrt_floor(n)),
    decreases n,
{
    if n == 0 {
        assert(is_sqrt_floor(0, 0));
    } else {
        lemma_sqrt_floor_exists(n - 1);
        let r = sqrt_floor(n - 1);
        if n < (r + 1) * (r + 1) {
            assert(is_sqrt_floor(n, r));
        } else {
            assert(n == (r + 1) * (r + 1));
            assert((r + 2) * (r + 2) == (r + 1) * (r + 1) + 2 * r + 3) by (nonlinear_arith);
            assert(is_sqrt_floor(n, r + 1));
        }
    }
}

/// The floor square root is unique.
pub proof fn lemma_sqrt_floor_unique(n: int, r: int)
    requires
        is_sqrt_floor(n, r),
    ensures
        sqrt_floor(n) == r,
{
    lemma_sqrt_floor_exists(n);
    let q = sqrt_floor(n);
    if q < r {
        assert((q + 1) * (q + 1) <= r * r) by (nonlinear_arith)
            requires
                0 <= q,
                q + 1 <= r,
        ;
    }
    if r < q {
        assert((r + 1) * (r + 1) <= q * q) by (nonlinear_arith)
            requires
                0 <= r,
                r + 1 <= q,
        ;
    }
}

/// A square bound transfers to the root: if `c * c` is at most `n`, then
/// `c` is at most the floor square root of `n`.
pub proof fn lemma_sqrt_floor_dominates(n: int, c: int)
    requires
        0 <= c,
        c * c <= n,
    ensures
        c <= sqrt_floor(n),
{
    assert(0 <= c * c) by (nonlinear_arith)
        requires
            0 <= c,
    ;
    lemma_sqrt_floor_exists(n);
    let r = sqrt_floor(n);
    if r < c {
        assert((r + 1) * (r + 1) <= c * c) by (nonlinear_arith)
            requires
                0 <= r + 1,
                r + 1 <= c,
        ;
    }
}

/// Floor square root by binary search.
pub fn isqrt_u64(n: u64) -> (r: u64)
    requires
        n <= 4_611_686_018_427_387_903,
    ensures
        r == sqrt_floor(n as int),
        is_sqrt_floor(n as int, r as int),
{
    proof {
        lemma_sqrt_floor_exists(n as int);
    }
    let mut lo: u64 = 0;
    let mut hi: u64 = 2_147_483_648;
    proof {
        assert((2_147_483_648 as int) * (2_147_483_648 as int) == 4_611_686_018_427_387_904)
            by (nonlinear_arith);
    }
    while lo + 1 < hi
        invariant
            lo < hi <= 2_147_483_648,
            n <= 4_611_686_018_427_387_903,
            (lo as int) * (lo as int) <= n as int,
            (n as int) < (hi as int) * (hi as int),
        decreases hi - lo,
    {
        let mid: u64 = lo + (hi - lo) / 2;
        proof {
            assert((mid as int) * (mid as int) <= (2_147_483_648 as int) * (2_147_483_648 as int))
                by (nonlinear_arith)
                requires
                    0 <= mid as int <= 2_147_483_648,
            ;
            assert((2_147_483_648 as int) * (2_147_483_648 as int) == 4_611_686_018_427_387_904)
                by (nonlinear_arith);
        }
        if mid * mid <= n {
            lo = mid;
        } else {
            hi = mid;
        }
    }
    proof {
        lemma_sqrt_floor_unique(n as int, lo as int);
    }
    lo
}

} // verus!
