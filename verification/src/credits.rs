//! Quadratic-voting credits: the floor of the square root of a balance.
//!
//! Any balance in [k*k, (k+1)*(k+1)) is worth exactly k credits, and a zero
//! balance is worth zero credits (a valid, zero-weight vote).

use vstd::prelude::*;

verus! {

/// `r` is the floor of the square root of `n`.
pub open spec fn is_sqrt_floor(r: int, n: int) -> bool {
    &&& 0 <= r
    &&& r * r <= n
    &&& n < (r + 1) * (r + 1)
}

/// The floor of the square root of a non-negative `n`.
pub open spec fn sqrt_floor(n: int) -> int
    recommends
        0 <= n,
{
    choose|r: int| is_sqrt_floor(r, n)
}

/// No two values are both the floor of the square root of one `n`.
pub proof fn lemma_sqrt_floor_unique(r1: int, r2: int, n: int)
    requires
        is_sqrt_floor(r1, n),
        is_sqrt_floor(r2, n),
    ensures
        r1 == r2,
{
    assert(r1 == r2) by (nonlinear_arith)
        requires
            is_sqrt_floor(r1, n),
            is_sqrt_floor(r2, n),
    ;
}

/// Every balance in the band [k*k, (k+1)*(k+1)) yields exactly k credits.
pub proof fn lemma_sqrt_floor_band(k: int, n: int)
    requires
        0 <= k,
        k * k <= n,
        n < (k + 1) * (k + 1),
    ensures
        sqrt_floor(n) == k,
{
    assert(is_sqrt_floor(k, n));
    assert(is_sqrt_floor(sqrt_floor(n), n));
    lemma_sqrt_floor_unique(sqrt_floor(n), k, n);
}

/// Computes the credits a token balance is worth: floor(sqrt(n)), by binary
/// search over the answer.
pub fn isqrt(n: u64) -> (r: u64)
    ensures
        is_sqrt_floor(r as int, n as int),
        r as int == sqrt_floor(n as int),
{
    let n_wide: u128 = n as u128;
    let mut lo: u64 = 0;
    let mut hi: u64 = 4294967296;
    assert((n as int) < (hi as int) * (hi as int)) by (nonlinear_arith)
        requires
            hi == 4294967296u64,
            n <= u64::MAX,
    ;
    while lo + 1 < hi
        invariant
            lo < hi <= 4294967296u64,
            (lo as int) * (lo as int) <= n as int,
            (n as int) < (hi as int) * (hi as int),
            n_wide == n as u128,
        decreases hi - lo,
    {
        let mid: u64 = lo + (hi - lo) / 2;
        let mid_wide: u128 = mid as u128;
        assert(mid_wide * mid_wide < 0x10000000000000000u128) by (nonlinear_arith)
            requires
                mid_wide < 4294967296u128,
        ;
        if mid_wide * mid_wide <= n_wide {
            lo = mid;
        } else {
            hi = mid;
        }
    }
    proof {
        assert(hi == lo + 1);
        assert(is_sqrt_floor(lo as int, n as int));
        assert(is_sqrt_floor(sqrt_floor(n as int), n as int));
        lemma_sqrt_floor_unique(sqrt_floor(n as int), lo as int, n as int);
    }
    lo
}

} // verus!
