//! Exact integer square and cube roots, the numeric kernel behind the
//! orbital-period and semi-major-axis derivations.

use vstd::prelude::*;

verus! {

/// `r` is the floor of the real square root of `x`.
pub open spec fn is_sqrt_floor(x: int, r: int) -> bool {
    r * r <= x < (r + 1) * (r + 1)
}

/// `r` is the floor of the real cube root of `x`.
pub open spec fn is_cbrt_floor(x: int, r: int) -> bool {
    r * r * r <= x < (r + 1) * (r + 1) * (r + 1)
}

/// The floor of the square root is unique: any two values that satisfy the
/// characterization are equal.
pub proof fn lemma_sqrt_floor_unique(x: int, r1: int, r2: int)
    requires
        0 <= r1,
        0 <= r2,
        is_sqrt_floor(x, r1),
        is_sqrt_floor(x, r2),
    ensures
        r1 == r2,
{
    if r1 < r2 {
        assert((r1 + 1) * (r1 + 1) <= r2 * r2) by (nonlinear_arith)
            requires 0 <= r1, 0 <= r2, r1 < r2;
    }
    if r2 < r1 {
        assert((r2 + 1) * (r2 + 1) <= r1 * r1) by (nonlinear_arith)
            requires 0 <= r1, 0 <= r2, r2 < r1;
    }
}

/// The floor of the cube root is unique.
pub proof fn lemma_cbrt_floor_unique(x: int, r1: int, r2: int)
    requires
        0 <= r1,
        0 <= r2,
        is_cbrt_floor(x, r1),
        is_cbrt_floor(x, r2),
    ensures
        r1 == r2,
{
    if r1 < r2 {
        assert((r1 + 1) * (r1 + 1) * (r1 + 1) <= r2 * r2 * r2) by (nonlinear_arith)
            requires 0 <= r1, 0 <= r2, r1 < r2;
    }
    if r2 < r1 {
        assert((r2 + 1) * (r2 + 1) * (r2 + 1) <= r1 * r1 * r1) by (nonlinear_arith)
            requires 0 <= r1, 0 <= r2, r2 < r1;
    }
}

/// The floor of the real square root of a non-negative `x`, as a
/// spec-level value: the unique non-negative `r` satisfying the floor
/// characterization.
pub open spec fn sqrt_floor(x: int) -> int {
    choose|r: int| 0 <= r && is_sqrt_floor(x, r)
}

/// For every non-negative `x` some integer is the floor of its square
/// root, so `sqrt_floor` denotes it.
pub proof fn lemma_sqrt_floor_exists(x: int)
    requires
        0 <= x,
    ensures
        0 <= sqrt_floor(x) && is_sqrt_floor(x, sqrt_floor(x)),
    decreases x,
{
    if x == 0 {
        assert(0 <= 0 && is_sqrt_floor(0, 0));
    } else {
        lemma_sqrt_floor_exists(x - 1);
        let r = sqrt_floor(x - 1);
        if x < (r + 1) * (r + 1) {
            assert(0 <= r && is_sqrt_floor(x, r));
        } else {
            assert(is_sqrt_floor(x, r + 1)) by (nonlinear_arith)
                requires
                    0 <= r,
                    r * r <= x - 1 < (r + 1) * (r + 1),
                    (r + 1) * (r + 1) <= x,
            ;
            assert(0 <= r + 1 && is_sqrt_floor(x, r + 1));
        }
    }
}

/// Any non-negative value satisfying the floor characterization is the
/// `sqrt_floor` value.
pub proof fn lemma_sqrt_floor_value(x: int, r: int)
    requires
        0 <= r,
        is_sqrt_floor(x, r),
    ensures
        sqrt_floor(x) == r,
{
    assert(0 <= r * r) by (nonlinear_arith)
        requires 0 <= r;
    lemma_sqrt_floor_exists(x);
    lemma_sqrt_floor_unique(x, r, sqrt_floor(x));
}

/// Integer square root: the floor of the real square root of `x`.
pub fn isqrt(x: u128) -> (r: u128)
    ensures
        is_sqrt_floor(x as int, r as int),
        r < 0x1_0000_0000_0000_0000,
{
    let mut lo: u128 = 0;
    let mut hi: u128 = 0x1_0000_0000_0000_0000;
    proof {
        assert((0x1_0000_0000_0000_0000int) * (0x1_0000_0000_0000_0000int) > u128::MAX);
    }
    while lo + 1 < hi
        invariant
            lo < hi <= 0x1_0000_0000_0000_0000,
            (lo as int) * (lo as int) <= x as int,
            (hi as int) * (hi as int) > x as int,
        decreases hi - lo,
    {
        let mid = lo + (hi - lo) / 2;
        proof {
            assert((mid as int) * (mid as int) <= (0xffff_ffff_ffff_ffffint) * (0xffff_ffff_ffff_ffffint))
                by (nonlinear_arith)
                requires 0 <= mid as int <= 0xffff_ffff_ffff_ffffint;
        }
        if mid * mid <= x {
            lo = mid;
        } else {
            hi = mid;
        }
    }
    lo
}

/// Integer cube root: the floor of the real cube root of `x`.
pub fn icbrt(x: u128) -> (r: u128)
    ensures
        is_cbrt_floor(x as int, r as int),
        r < 6_981_463_658_332,
{
    let mut lo: u128 = 0;
    let mut hi: u128 = 6_981_463_658_332;
    proof {
        assert((6_981_463_658_332int) * (6_981_463_658_332int) * (6_981_463_658_332int) > u128::MAX);
    }
    while lo + 1 < hi
        invariant
            lo < hi <= 6_981_463_658_332,
            (lo as int) * (lo as int) * (lo as int) <= x as int,
            (hi as int) * (hi as int) * (hi as int) > x as int,
        decreases hi - lo,
    {
        let mid = lo + (hi - lo) / 2;
        proof {
            assert((mid as int) * (mid as int) <= (6_981_463_658_331int) * (6_981_463_658_331int))
                by (nonlinear_arith)
                requires 0 <= mid as int <= 6_981_463_658_331int;
            assert((mid as int) * (mid as int) * (mid as int)
                <= (6_981_463_658_331int) * (6_981_463_658_331int) * (6_981_463_658_331int))
                by (nonlinear_arith)
                requires 0 <= mid as int <= 6_981_463_658_331int;
            assert((6_981_463_658_331int) * (6_981_463_658_331int) * (6_981_463_658_331int) <= u128::MAX);
        }
        if mid * mid * mid <= x {
            lo = mid;
        } else {
            hi = mid;
        }
    }
    lo
}

} // verus!
