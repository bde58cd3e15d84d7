//! Integer helpers shared by the analysis pipeline: absolute values,
//! distances, and the floor square root used for complex magnitudes.

use vstd::prelude::*;

verus! {

/// Floor of the non-negative square root of `x`, defined recursively so
/// that every stage of the pipeline can speak of magnitudes functionally.
pub open spec fn sqrt_floor(x: nat) -> nat
    decreases x,
{
    if x == 0 {
        0
    } else {
        let r = sqrt_floor((x - 1) as nat);
        if (r + 1) * (r + 1) <= x {
            r + 1
        } else {
            r
        }
    }
}

/// The floor square root is characterized by bracketing its argument
/// between two consecutive squares.
pub proof fn lemma_sqrt_floor_bounds(x: nat)
    ensures
        sqrt_floor(x) * sqrt_floor(x) <= x,
        (sqrt_floor(x) + 1) * (sqrt_floor(x) + 1) > x,
    decreases x,
{
    let s = sqrt_floor(x);
    if x > 0 {
        lemma_sqrt_floor_bounds((x - 1) as nat);
        let r = sqrt_floor((x - 1) as nat);
        assert(s == if (r + 1) * (r + 1) <= x {
            r + 1
        } else {
            r
        });
        if (r + 1) * (r + 1) <= x {
            assert(s * s <= x && (s + 1) * (s + 1) > x) by (nonlinear_arith)
                requires
                    s == r + 1,
                    (r + 1) * (r + 1) <= x,
                    (r + 1) * (r + 1) > x - 1,
            ;
        } else {
            assert(s * s <= x && (s + 1) * (s + 1) > x) by (nonlinear_arith)
                requires
                    s == r,
                    r * r <= x - 1,
                    x - 1 < x,
                    !((r + 1) * (r + 1) <= x),
            ;
        }
    } else {
        assert(s == 0);
        assert(s * s <= x && (s + 1) * (s + 1) > x) by (nonlinear_arith)
            requires
                s == 0,
                x == 0,
        ;
    }
}

/// Any value bracketed between two consecutive squares is the floor
/// square root.
pub proof fn lemma_sqrt_floor_unique(x: nat, r: nat)
    requires
        r * r <= x,
        (r + 1) * (r + 1) > x,
    ensures
        r == sqrt_floor(x),
{
    lemma_sqrt_floor_bounds(x);
    let s = sqrt_floor(x);
    if r < s {
        assert((r + 1) * (r + 1) <= s * s) by (nonlinear_arith)
            requires
                r + 1 <= s,
        ;
    }
    if s < r {
        assert((s + 1) * (s + 1) <= r * r) by (nonlinear_arith)
            requires
                s + 1 <= r,
        ;
    }
}

/// Floor square root of a 64-bit value, by binary search on the result.
pub fn isqrt(x: u64) -> (r: u64)
    ensures
        r == sqrt_floor(x as nat),
        r * r <= x,
        r < 0x1_0000_0000,
{
    let mut lo: u64 = 0;
    let mut hi: u64 = 0x1_0000_0000;
    while hi - lo > 1
        invariant
            lo < hi <= 0x1_0000_0000,
            (lo as int) * (lo as int) <= x as int,
            (hi as int) * (hi as int) > x as int,
        decreases hi - lo,
    {
        let mid: u64 = lo + (hi - lo) / 2;
        assert(mid * mid <= 0xffff_ffff * 0xffff_ffff) by (nonlinear_arith)
            requires
                mid <= 0xffff_ffff,
        ;
        if mid * mid <= x {
            lo = mid;
        } else {
            hi = mid;
        }
    }
    proof {
        lemma_sqrt_floor_unique(x as nat, lo as nat);
    }
    lo
}

/// Absolute value of a sample amplitude, as the unsigned distance from zero.
pub open spec fn abs_value(s: int) -> int {
    if s >= 0 {
        s
    } else {
        -s
    }
}

/// Absolute value of a bounded 64-bit amplitude.
pub fn abs_i64(s: i64) -> (r: u64)
    requires
        s != i64::MIN,
    ensures
        r == abs_value(s as int),
{
    if s >= 0 {
        s as u64
    } else {
        (-s) as u64
    }
}

/// Unsigned distance between two frequencies.
pub open spec fn dist(a: int, b: int) -> int {
    if a >= b {
        a - b
    } else {
        b - a
    }
}

/// Unsigned distance between two 64-bit frequencies.
pub fn dist_u64(a: u64, b: u64) -> (r: u64)
    ensures
        r == dist(a as int, b as int),
{
    if a >= b {
        a - b
    } else {
        b - a
    }
}

} // verus!
