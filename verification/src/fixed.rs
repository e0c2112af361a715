//! Q47.16 fixed-point scalar arithmetic.
//!
//! A value `v: i64` stands for the real number `v / 65536`. All operations
//! saturate at the `i64` range instead of wrapping, and every executable
//! operation is pinned to an exact specification-level mirror, so that the
//! geometric and shading layers above can be stated and proved exactly.

use vstd::prelude::*;

verus! {

/// One whole unit: the fixed-point representation of 1.0.
pub const FX_ONE: i64 = 65536;
/// The fixed-point representation of 0.5.
pub const FX_HALF: i64 = 32768;
/// The fixed-point representation of pi.
pub const FX_PI: i64 = 205887;
/// The fixed-point representation of 2*pi.
pub const FX_TWO_PI: i64 = 411775;
/// The fixed-point representation of pi/2.
pub const FX_HALF_PI: i64 = 102944;

/// Mathematical absolute value.
pub open spec fn iabs(v: int) -> int {
    if v < 0 { -v } else { v }
}

/// Saturation of an unbounded integer to the `i64` range.
pub open spec fn clamp64(v: int) -> int {
    if v > i64::MAX { i64::MAX as int } else if v < i64::MIN { i64::MIN as int } else { v }
}

/// Division by the scale with truncation toward zero, as the executable
/// magnitude-based divisions below compute it.
pub open spec fn scale_down(v: int) -> int {
    if v >= 0 { v / 65536 } else { -((-v) / 65536) }
}

pub open spec fn spec_fx_add(a: int, b: int) -> int {
    clamp64(a + b)
}

pub open spec fn spec_fx_sub(a: int, b: int) -> int {
    clamp64(a - b)
}

pub open spec fn spec_fx_neg(a: int) -> int {
    clamp64(-a)
}

pub open spec fn spec_fx_mul(a: int, b: int) -> int {
    clamp64(scale_down(a * b))
}

/// Fixed-point quotient. A zero divisor saturates to the signed extreme of the
/// dividend's sign (the role infinities play in a floating-point slab test);
/// 0/0 is defined as 0.
pub open spec fn spec_fx_div(a: int, b: int) -> int {
    if b == 0 {
        if a > 0 { i64::MAX as int } else if a < 0 { i64::MIN as int } else { 0 }
    } else {
        let q = (iabs(a) * 65536) / iabs(b);
        if (a >= 0) == (b >= 0) { clamp64(q) } else { clamp64(-q) }
    }
}

proof fn lemma_i64_mul_in_i128(a: int, b: int)
    requires
        i64::MIN <= a <= i64::MAX,
        i64::MIN <= b <= i64::MAX,
    ensures
        -0x40000000000000000000000000000000 <= a * b,
        a * b <= 0x40000000000000000000000000000000,
{
    assert(-0x40000000000000000000000000000000 <= a * b
        && a * b <= 0x40000000000000000000000000000000) by (nonlinear_arith)
        requires
            -0x8000000000000000 <= a <= 0x7fffffffffffffff,
            -0x8000000000000000 <= b <= 0x7fffffffffffffff;
}

/// Saturating fixed-point addition.
pub fn fx_add(a: i64, b: i64) -> (r: i64)
    ensures
        r == spec_fx_add(a as int, b as int),
{
    let s: i128 = a as i128 + b as i128;
    if s > i64::MAX as i128 {
        i64::MAX
    } else if s < i64::MIN as i128 {
        i64::MIN
    } else {
        s as i64
    }
}

/// Saturating fixed-point subtraction.
pub fn fx_sub(a: i64, b: i64) -> (r: i64)
    ensures
        r == spec_fx_sub(a as int, b as int),
{
    let s: i128 = a as i128 - b as i128;
    if s > i64::MAX as i128 {
        i64::MAX
    } else if s < i64::MIN as i128 {
        i64::MIN
    } else {
        s as i64
    }
}

/// Saturating fixed-point negation.
pub fn fx_neg(a: i64) -> (r: i64)
    ensures
        r == spec_fx_neg(a as int),
{
    if a == i64::MIN {
        i64::MAX
    } else {
        -a
    }
}

/// Saturating fixed-point multiplication: the product is rescaled by the
/// fixed-point unit with truncation toward zero.
pub fn fx_mul(a: i64, b: i64) -> (r: i64)
    ensures
        r == spec_fx_mul(a as int, b as int),
{
    proof {
        lemma_i64_mul_in_i128(a as int, b as int);
    }
    let p: i128 = (a as i128) * (b as i128);
    if p >= 0 {
        let q: u128 = (p as u128) / 65536;
        if q > 0x7fffffffffffffff {
            i64::MAX
        } else {
            q as i64
        }
    } else {
        let n: u128 = ((-p) as u128) / 65536;
        if n >= 0x8000000000000000 {
            i64::MIN
        } else {
            -(n as i64)
        }
    }
}

/// Saturating fixed-point division; a zero divisor yields the signed extreme
/// of the dividend's sign (0 for 0/0).
pub fn fx_div(a: i64, b: i64) -> (r: i64)
    ensures
        r == spec_fx_div(a as int, b as int),
{
    if b == 0 {
        if a > 0 {
            i64::MAX
        } else if a < 0 {
            i64::MIN
        } else {
            0
        }
    } else {
        let na: u128 = if a >= 0 { a as u128 } else { (-(a as i128)) as u128 };
        let nb: u128 = if b >= 0 { b as u128 } else { (-(b as i128)) as u128 };
        assert(na == iabs(a as int) && nb == iabs(b as int));
        assert(na <= 0x8000000000000000);
        let q: u128 = (na * 65536) / nb;
        if (a >= 0) == (b >= 0) {
            if q > 0x7fffffffffffffff {
                i64::MAX
            } else {
                q as i64
            }
        } else {
            if q >= 0x8000000000000000 {
                i64::MIN
            } else {
                -(q as i64)
            }
        }
    }
}

/// `r` is the integer square root of `n`.
pub open spec fn is_isqrt(n: int, r: int) -> bool {
    0 <= r && r * r <= n && n < (r + 1) * (r + 1)
}

/// The integer square root, as a recursive specification.
pub open spec fn spec_isqrt(n: nat) -> nat
    decreases n,
{
    if n == 0 {
        0
    } else {
        let r = spec_isqrt((n - 1) as nat);
        if (r + 1) * (r + 1) <= n { r + 1 } else { r }
    }
}

pub proof fn lemma_isqrt_is_sqrt(n: nat)
    ensures
        is_isqrt(n as int, spec_isqrt(n) as int),
    decreases n,
{
    if n == 0 {
    } else {
        lemma_isqrt_is_sqrt((n - 1) as nat);
        let r = spec_isqrt((n - 1) as nat) as int;
        if (r + 1) * (r + 1) <= n {
            assert(n < (r + 2) * (r + 2)) by (nonlinear_arith)
                requires
                    0 <= r,
                    n - 1 < (r + 1) * (r + 1);
        }
    }
}

pub proof fn lemma_isqrt_unique(n: int, r1: int, r2: int)
    requires
        is_isqrt(n, r1),
        is_isqrt(n, r2),
    ensures
        r1 == r2,
{
    assert(!(r1 < r2) && !(r2 < r1)) by (nonlinear_arith)
        requires
            0 <= r1 && r1 * r1 <= n && n < (r1 + 1) * (r1 + 1),
            0 <= r2 && r2 * r2 <= n && n < (r2 + 1) * (r2 + 1);
}

/// Integer square root by bisection.
pub fn isqrt(n: u128) -> (r: u64)
    ensures
        r == spec_isqrt(n as nat),
        is_isqrt(n as int, r as int),
{
    let mut lo: u128 = 0;
    let mut hi: u128 = 18446744073709551616;
    assert(n < hi * hi) by (nonlinear_arith)
        requires
            n <= u128::MAX,
            hi == 18446744073709551616;
    while lo + 1 < hi
        invariant
            lo < hi,
            hi <= 18446744073709551616,
            lo * lo <= n,
            n < hi * hi,
        decreases hi - lo,
    {
        let mid: u128 = lo + (hi - lo) / 2;
        assert(lo < mid && mid < hi);
        assert(mid * mid <= u128::MAX) by (nonlinear_arith)
            requires
                mid < 18446744073709551616;
        if mid * mid <= n {
            lo = mid;
        } else {
            hi = mid;
        }
    }
    proof {
        lemma_isqrt_is_sqrt(n as nat);
        lemma_isqrt_unique(n as int, lo as int, spec_isqrt(n as nat) as int);
    }
    lo as u64
}

/// The fixed-point square root: the integer square root of the value scaled
/// back up to fixed-point precision.
pub open spec fn spec_fx_sqrt(v: int) -> int
    recommends
        v >= 0,
{
    spec_isqrt((v * 65536) as nat) as int
}

/// Fixed-point square root of a non-negative value.
pub fn fx_sqrt(v: i64) -> (r: i64)
    requires
        v >= 0,
    ensures
        r == spec_fx_sqrt(v as int),
        is_isqrt(v * 65536, r as int),
        r >= 0,
{
    let n: u128 = (v as u128) * 65536;
    let s: u64 = isqrt(n);
    assert(s <= 0x7fffffffffffffff) by (nonlinear_arith)
        requires
            (s as int) * (s as int) <= n,
            n <= 0x7fffffffffffffff * 65536;
    s as i64
}

/// The larger of two integers.
pub open spec fn imax(a: int, b: int) -> int {
    if a >= b { a } else { b }
}

/// The smaller of two integers.
pub open spec fn imin(a: int, b: int) -> int {
    if a <= b { a } else { b }
}

/// Saturating absolute value.
pub fn fx_abs(v: i64) -> (r: i64)
    ensures
        r == clamp64(iabs(v as int)),
{
    if v == i64::MIN {
        i64::MAX
    } else if v < 0 {
        -v
    } else {
        v
    }
}

/// Repeated fixed-point multiplication: `b` raised to the integer power `n`.
pub open spec fn spec_fx_pow(b: int, n: nat) -> int
    decreases n,
{
    if n == 0 {
        65536
    } else {
        spec_fx_mul(spec_fx_pow(b, (n - 1) as nat), b)
    }
}

/// Fixed-point power with a non-negative integer exponent.
pub fn fx_pow(b: i64, n: u32) -> (r: i64)
    ensures
        r == spec_fx_pow(b as int, n as nat),
{
    let mut r: i64 = FX_ONE;
    let mut i: u32 = 0;
    while i < n
        invariant
            i <= n,
            r == spec_fx_pow(b as int, i as nat),
        decreases n - i,
    {
        r = fx_mul(r, b);
        i = i + 1;
    }
    r
}

/// An angle wrapped into the interval (-pi, pi], fixed point.
pub open spec fn spec_angle_wrap(x: int) -> int {
    let rem = iabs(x) % 411775;
    let m = if x >= 0 {
        rem
    } else if rem == 0 {
        0
    } else {
        411775 - rem
    };
    if m > 205887 { m - 411775 } else { m }
}

/// Wraps a fixed-point angle into (-pi, pi].
pub fn angle_wrap(x: i64) -> (r: i64)
    ensures
        r == spec_angle_wrap(x as int),
        -205887 <= r <= 205887,
{
    let ax: u64 = if x >= 0 { x as u64 } else { (-(x as i128)) as u64 };
    let rem: u64 = ax % 411775;
    let m: i64 = if x >= 0 {
        rem as i64
    } else if rem == 0 {
        0
    } else {
        411775 - rem as i64
    };
    if m > 205887 { m - 411775 } else { m }
}

/// The odd degree-7 Taylor polynomial of sine, evaluated in fixed point:
/// x - x^3/6 + x^5/120 - x^7/5040.
pub open spec fn spec_sin_poly(x: int) -> int {
    let x2 = spec_fx_mul(x, x);
    let x3 = spec_fx_mul(x2, x);
    let x5 = spec_fx_mul(x3, x2);
    let x7 = spec_fx_mul(x5, x2);
    spec_fx_sub(
        spec_fx_add(spec_fx_sub(x, spec_fx_div(x3, 393216)), spec_fx_div(x5, 7864320)),
        spec_fx_div(x7, 330301440),
    )
}

fn sin_poly(x: i64) -> (r: i64)
    ensures
        r == spec_sin_poly(x as int),
{
    let x2 = fx_mul(x, x);
    let x3 = fx_mul(x2, x);
    let x5 = fx_mul(x3, x2);
    let x7 = fx_mul(x5, x2);
    fx_sub(fx_add(fx_sub(x, fx_div(x3, 393216)), fx_div(x5, 7864320)), fx_div(x7, 330301440))
}

/// Fixed-point sine: the argument is wrapped into (-pi, pi], folded into
/// [-pi/2, pi/2] by the symmetry sin(pi - x) = sin(x), then approximated by
/// the degree-7 Taylor polynomial.
pub open spec fn spec_fx_sin(x: int) -> int {
    let a = spec_angle_wrap(x);
    let f = if a > 102944 {
        205887 - a
    } else if a < -102944 {
        -205887 - a
    } else {
        a
    };
    spec_sin_poly(f)
}

/// Fixed-point cosine, via cos(x) = sin(x + pi/2) with a saturating shift.
pub open spec fn spec_fx_cos(x: int) -> int {
    spec_fx_sin(spec_fx_add(x, 102944))
}

/// Fixed-point sine of an angle in radians.
pub fn fx_sin(x: i64) -> (r: i64)
    ensures
        r == spec_fx_sin(x as int),
{
    let a = angle_wrap(x);
    let f: i64 = if a > FX_HALF_PI {
        FX_PI - a
    } else if a < -FX_HALF_PI {
        -FX_PI - a
    } else {
        a
    };
    sin_poly(f)
}

/// Fixed-point cosine of an angle in radians.
pub fn fx_cos(x: i64) -> (r: i64)
    ensures
        r == spec_fx_cos(x as int),
{
    fx_sin(fx_add(x, FX_HALF_PI))
}

} // verus!
