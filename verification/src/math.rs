//! Integer plane geometry: vectors, clamping, and an exact square root.

use vstd::prelude::*;

verus! {

/// A point or velocity in the plane, in whole world units.
///
/// All simulation arithmetic runs over `i64`, so a tick is exact and
/// deterministic; there is no rounding drift between machines.
#[derive(Clone, Copy, Debug, PartialEq, Eq, Structural)]
pub struct Vec2 {
    pub x: i64,
    pub y: i64,
}

/// Mathematical image of a [`Vec2`]: the same point over unbounded integers.
pub ghost struct V2 {
    pub x: int,
    pub y: int,
}

impl View for Vec2 {
    type V = V2;

    open spec fn view(&self) -> V2 {
        V2 { x: self.x as int, y: self.y as int }
    }
}

impl Vec2 {
    pub fn new(x: i64, y: i64) -> (v: Vec2)
        ensures
            v@ == (V2 { x: x as int, y: y as int }),
    {
        Vec2 { x, y }
    }
}

/// The squared Euclidean length of a vector.
pub open spec fn norm2(v: V2) -> int {
    v.x * v.x + v.y * v.y
}

/// Absolute value over unbounded integers.
pub open spec fn abs_i(x: int) -> int {
    if x < 0 {
        -x
    } else {
        x
    }
}

/// `x` forced into `[lo, hi]`, with `lo` winning below and `hi` above.
pub open spec fn clamp_i(x: int, lo: int, hi: int) -> int {
    if x < lo {
        lo
    } else if x > hi {
        hi
    } else {
        x
    }
}

/// Forces `x` into the interval `[lo, hi]`.
pub fn clamp(x: i64, lo: i64, hi: i64) -> (r: i64)
    requires
        lo <= hi,
    ensures
        r == clamp_i(x as int, lo as int, hi as int),
{
    if x < lo {
        lo
    } else if x > hi {
        hi
    } else {
        x
    }
}

/// The floor of the square root of `n`, defined by counting up.
pub open spec fn isqrt_s(n: nat) -> nat
    decreases n,
{
    if n == 0 {
        0
    } else {
        let r = isqrt_s((n - 1) as nat);
        if (r + 1) * (r + 1) <= n {
            (r + 1) as nat
        } else {
            r
        }
    }
}

/// `isqrt_s(n)` is the unique `r` with `r * r <= n < (r + 1) * (r + 1)`.
pub proof fn lemma_isqrt_bounds(n: nat)
    ensures
        isqrt_s(n) * isqrt_s(n) <= n,
        n < (isqrt_s(n) + 1) * (isqrt_s(n) + 1),
    decreases n,
{
    if n > 0 {
        lemma_isqrt_bounds((n - 1) as nat);
        let r = isqrt_s((n - 1) as nat);
        if (r + 1) * (r + 1) <= n {
            assert(isqrt_s(n) == r + 1);
            assert(n < ((r + 1) + 1) * ((r + 1) + 1)) by (nonlinear_arith)
                requires
                    n <= (r + 1) * (r + 1),
                    r >= 0,
            ;
        } else {
            assert(isqrt_s(n) == r);
            assert(r * r <= n - 1);
            assert(n < (r + 1) * (r + 1));
        }
    } else {
        assert(isqrt_s(0) == 0);
        assert((0 + 1) * (0 + 1) == 1) by (nonlinear_arith);
    }
}

/// Two integers whose squares bracket `n` the same way are equal.
pub proof fn lemma_isqrt_unique(n: nat, r: nat)
    requires
        r * r <= n,
        n < (r + 1) * (r + 1),
    ensures
        r == isqrt_s(n),
{
    lemma_isqrt_bounds(n);
    let s = isqrt_s(n);
    if r < s {
        assert((r + 1) * (r + 1) <= s * s) by (nonlinear_arith)
            requires
                r + 1 <= s,
                r >= 0,
        ;
    }
    if s < r {
        assert((s + 1) * (s + 1) <= r * r) by (nonlinear_arith)
            requires
                s + 1 <= r,
                s >= 0,
        ;
    }
}

/// The floor of the square root of `n`, found by binary search.
pub fn isqrt(n: u64) -> (r: u64)
    ensures
        r * r <= n,
        n < (r + 1) * (r + 1),
        r == isqrt_s(n as nat),
{
    let nn: u128 = n as u128;
    let mut lo: u128 = 0;
    let mut hi: u128 = 0x1_0000_0000;
    assert(nn < hi * hi) by (nonlinear_arith)
        requires
            hi == 0x1_0000_0000u128,
            nn < 0x1_0000_0000_0000_0000,
    ;
    while lo + 1 < hi
        invariant
            lo < hi <= 0x1_0000_0000,
            lo * lo <= nn,
            nn < hi * hi,
            nn == n as int,
        decreases hi - lo,
    {
        let mid: u128 = lo + (hi - lo) / 2;
        assert(mid * mid <= 0x1_0000_0000_0000_0000u128) by (nonlinear_arith)
            requires
                0 <= mid <= 0x1_0000_0000u128,
        ;
        if mid * mid <= nn {
            lo = mid;
        } else {
            hi = mid;
        }
    }
    proof {
        lemma_isqrt_unique(n as nat, lo as nat);
    }
    lo as u64
}

/// The ceiling of `a / b`, for `a >= 0` and `b >= 1`.
pub open spec fn div_ceil_s(a: int, b: int) -> int {
    (a + b - 1) / b
}

/// Ceiling division never undershoots: `div_ceil_s(a, b) * b >= a`.
pub proof fn lemma_div_ceil_mul_ge(a: int, b: int)
    requires
        0 <= a,
        1 <= b,
    ensures
        0 <= div_ceil_s(a, b),
        div_ceil_s(a, b) * b >= a,
{
    let q = (a + b - 1) / b;
    let m = (a + b - 1) % b;
    vstd::arithmetic::div_mod::lemma_fundamental_div_mod(a + b - 1, b);
    vstd::arithmetic::div_mod::lemma_mod_division_less_than_divisor(a + b - 1, b);
    vstd::arithmetic::div_mod::lemma_div_pos_is_pos(a + b - 1, b);
    assert(a + b - 1 == b * q + m);
    assert(q * b == b * q) by (nonlinear_arith);
    assert(q * b >= a);
}

/// Ceiling division never exceeds the dividend: `div_ceil_s(a, b) <= a`.
pub proof fn lemma_div_ceil_le(a: int, b: int)
    requires
        0 <= a,
        1 <= b,
    ensures
        div_ceil_s(a, b) <= a,
{
    assert(a <= a * b) by (nonlinear_arith)
        requires
            0 <= a,
            1 <= b,
    ;
    vstd::arithmetic::div_mod::lemma_div_is_ordered(a + b - 1, a * b + b - 1, b);
    vstd::arithmetic::div_mod::lemma_hoist_over_denominator(b - 1, a, b as nat);
    vstd::arithmetic::div_mod::lemma_basic_div(b - 1, b);
}

/// The ceiling of `a / b`.
pub fn div_ceil(a: u64, b: u64) -> (r: u64)
    requires
        1 <= b,
    ensures
        r == div_ceil_s(a as int, b as int),
{
    if a == 0 {
        assert(div_ceil_s(0, b as int) == (b - 1) / (b as int));
        assert((b - 1) / (b as int) == 0) by {
            vstd::arithmetic::div_mod::lemma_basic_div(b as int - 1, b as int);
        };
        0
    } else {
        proof {
            vstd::arithmetic::div_mod::lemma_hoist_over_denominator(
                a as int - 1,
                1,
                b as nat,
            );
            vstd::arithmetic::div_mod::lemma_div_nonincreasing(a as int - 1, b as int);
            vstd::arithmetic::div_mod::lemma_div_pos_is_pos(a as int - 1, b as int);
        }
        (a - 1) / b + 1
    }
}

} // verus!
