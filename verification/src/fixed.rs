//! Fixed-point helpers: the unit, truncating division, scaling by a weight and
//! the integer square root.

use vstd::prelude::*;

verus! {

/// One world unit, in the millionths that every quantity is counted in.
pub const ONE: i64 = 1_000_000;

/// Largest length, speed or force of a configuration, and largest magnitude
/// of any component of a bird in a flock.
pub const COORD_MAX: i64 = 0x4000_0000;

/// Largest magnitude of any component of a bird that a step accepts.
pub const FORCE_MAX: i64 = 0x1000_0000_0000_0000;

/// Largest rule weight.
pub const WEIGHT_MAX: i64 = 0x100_0000;

/// Largest magnitude that `scale` accepts.
pub const SCALE_INPUT_MAX: i64 = 0x1_0000_0000_0000;

/// Largest magnitude that `scale` returns.
pub const SCALE_OUTPUT_MAX: i64 = 0x20_0000_0000_0000;

/// Absolute value.
pub open spec fn magnitude(a: int) -> int {
    if a >= 0 { a } else { -a }
}

/// Quotient rounded toward zero.
pub open spec fn trunc_div(a: int, b: int) -> int {
    if a >= 0 { a / b } else { -((-a) / b) }
}

/// `x` multiplied by the fixed-point factor `w`, rounded toward zero.
pub open spec fn scaled(x: int, w: int) -> int {
    trunc_div(x * w, ONE as int)
}

/// `r` is the integer part of the square root of `n`.
pub open spec fn is_floor_sqrt(n: int, r: int) -> bool {
    0 <= r && r * r <= n && n < (r + 1) * (r + 1)
}

/// The integer part of the square root of `n` (for `n >= 0`).
pub open spec fn floor_sqrt(n: int) -> int {
    choose|r: int| is_floor_sqrt(n, r)
}

/// At most one number is the integer square root of `n`.
pub proof fn lemma_floor_sqrt_unique(n: int, r: int)
    requires
        is_floor_sqrt(n, r),
    ensures
        floor_sqrt(n) == r,
{
    let s = floor_sqrt(n);
    assert(is_floor_sqrt(n, s));
    assert(s == r) by (nonlinear_arith)
        requires
            0 <= r,
            0 <= s,
            r * r <= n,
            n < (r + 1) * (r + 1),
            s * s <= n,
            n < (s + 1) * (s + 1),
    {
        if s < r {
            assert((s + 1) * (s + 1) <= r * r);
        } else if r < s {
            assert((r + 1) * (r + 1) <= s * s);
        }
    }
}

/// The integer square root is below a bound exactly when the number is below
/// the bound's square.
pub proof fn lemma_floor_sqrt_below(n: int, bound: int)
    requires
        0 <= n,
        0 <= bound,
        exists|r: int| is_floor_sqrt(n, r),
    ensures
        floor_sqrt(n) < bound <==> n < bound * bound,
{
    let s = floor_sqrt(n);
    assert(is_floor_sqrt(n, s));
    assert(s < bound <==> n < bound * bound) by (nonlinear_arith)
        requires
            0 <= s,
            0 <= bound,
            s * s <= n,
            n < (s + 1) * (s + 1),
    {
        if s < bound {
            assert((s + 1) * (s + 1) <= bound * bound);
        } else {
            assert(bound * bound <= s * s);
        }
    }
}

/// No component of a vector is longer than the vector's integer length.
pub proof fn lemma_component_within_length(v: int, rest: int, r: int)
    requires
        0 <= rest,
        is_floor_sqrt(v * v + rest, r),
    ensures
        -r <= v <= r,
{
    assert(-r <= v <= r) by (nonlinear_arith)
        requires
            0 <= rest,
            0 <= r,
            v * v + rest < (r + 1) * (r + 1),
    {
        if v > r {
            assert(v * v >= (r + 1) * (r + 1));
        } else if v < -r {
            assert((-v) * (-v) >= (r + 1) * (r + 1));
            assert(v * v == (-v) * (-v));
        }
    }
}

/// Integer square root.
pub fn isqrt(n: u128) -> (r: u64)
    ensures
        is_floor_sqrt(n as int, r as int),
        r as int == floor_sqrt(n as int),
{
    let mut lo: u128 = 0;
    let mut hi: u128 = 0x1_0000_0000_0000_0000;
    assert(n < 0x1_0000_0000_0000_0000 * 0x1_0000_0000_0000_0000) by (nonlinear_arith)
        requires
            n <= u128::MAX,
    ;
    while hi - lo > 1
        invariant
            lo < hi <= 0x1_0000_0000_0000_0000,
            lo * lo <= n,
            n < hi * hi,
        decreases hi - lo,
    {
        let mid: u128 = lo + (hi - lo) / 2;
        assert(mid * mid <= 0xffff_ffff_ffff_ffff * 0xffff_ffff_ffff_ffff) by (nonlinear_arith)
            requires
                0 <= mid <= 0xffff_ffff_ffff_ffff,
        ;
        if mid * mid <= n {
            lo = mid;
        } else {
            hi = mid;
        }
    }
    proof {
        lemma_floor_sqrt_unique(n as int, lo as int);
    }
    lo as u64
}

/// Division rounded toward zero, as machine division rounds.
pub fn div_toward_zero(a: i128, b: i128) -> (q: i128)
    requires
        b > 0,
        a > i128::MIN,
    ensures
        q == trunc_div(a as int, b as int),
        magnitude(q as int) <= magnitude(a as int),
        a >= 0 ==> q >= 0,
        a <= 0 ==> q <= 0,
{
    let m: u128 = if a >= 0 { a as u128 } else { (-a) as u128 };
    let d: u128 = b as u128;
    let qm: u128 = m / d;
    assert(qm <= m) by (nonlinear_arith)
        requires
            qm == m / d,
            d >= 1,
            m >= 0,
    ;
    if a >= 0 { qm as i128 } else { -(qm as i128) }
}

/// Multiplies `x` by the fixed-point factor `w`.
pub fn scale(x: i64, w: i64) -> (r: i64)
    requires
        -SCALE_INPUT_MAX <= x <= SCALE_INPUT_MAX,
        0 <= w <= WEIGHT_MAX,
    ensures
        r == scaled(x as int, w as int),
        -SCALE_OUTPUT_MAX <= r <= SCALE_OUTPUT_MAX,
        x >= 0 ==> r >= 0,
        x <= 0 ==> r <= 0,
{
    assert(-0x1_0000_0000_0000 * 0x100_0000 <= x * w <= 0x1_0000_0000_0000 * 0x100_0000)
        by (nonlinear_arith)
        requires
            -0x1_0000_0000_0000 <= x <= 0x1_0000_0000_0000,
            0 <= w <= 0x100_0000,
    ;
    assert(x >= 0 ==> x * w >= 0) by (nonlinear_arith)
        requires
            w >= 0,
    ;
    assert(x <= 0 ==> x * w <= 0) by (nonlinear_arith)
        requires
            w >= 0,
    ;
    let product: i128 = (x as i128) * (w as i128);
    let q: i128 = div_toward_zero(product, ONE as i128);
    q as i64
}

/// Scaling a component by `cap / length` leaves it no longer than `cap`.
pub proof fn lemma_capped_within(v: int, cap: int, length: int)
    requires
        0 <= cap,
        0 < length,
        -length <= v <= length,
    ensures
        -cap <= trunc_div(v * cap, length) <= cap,
{
    let a = magnitude(v);
    assert((a * cap) / length <= cap) by (nonlinear_arith)
        requires
            0 <= a <= length,
            0 < length,
            0 <= cap,
    {
        assert(a * cap <= length * cap);
        assert((length * cap) / length == cap);
    }
    assert((a * cap) / length >= 0) by (nonlinear_arith)
        requires
            0 <= a,
            0 < length,
            0 <= cap,
    ;
    if v >= 0 {
        assert(v * cap >= 0) by (nonlinear_arith)
            requires
                v >= 0,
                cap >= 0,
        ;
    } else {
        assert(-(v * cap) == a * cap) by (nonlinear_arith)
            requires
                a == -v,
        ;
        assert(v * cap <= 0) by (nonlinear_arith)
            requires
                v <= 0,
                cap >= 0,
        ;
        if v * cap == 0 {
            assert(a * cap == 0);
        }
    }
}

/// The square of a number of magnitude at most `2^61`.
pub fn square(a: i64) -> (r: u128)
    requires
        -0x2000_0000_0000_0000 <= a <= 0x2000_0000_0000_0000,
    ensures
        r == a * a,
        r <= 0x400_0000_0000_0000_0000_0000_0000_0000,
{
    let m: u128 = if a >= 0 { a as u128 } else { (-a) as u128 };
    assert(m * m == a * a && m * m <= 0x2000_0000_0000_0000 * 0x2000_0000_0000_0000)
        by (nonlinear_arith)
        requires
            m == a || m == -a,
            0 <= m <= 0x2000_0000_0000_0000,
    ;
    m * m
}

/// Every number from zero up has an integer square root.
pub proof fn lemma_floor_sqrt_exists(n: int)
    requires
        0 <= n,
    ensures
        is_floor_sqrt(n, floor_sqrt(n)),
    decreases n,
{
    if n == 0 {
        assert(is_floor_sqrt(0, 0));
    } else {
        lemma_floor_sqrt_exists(n - 1);
        let r = floor_sqrt(n - 1);
        if (r + 1) * (r + 1) <= n {
            assert(n < (r + 2) * (r + 2)) by (nonlinear_arith)
                requires
                    0 <= r,
                    n - 1 < (r + 1) * (r + 1),
            ;
            assert(is_floor_sqrt(n, r + 1));
        } else {
            assert(is_floor_sqrt(n, r));
        }
    }
}

} // verus!
