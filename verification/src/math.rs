//! Exact integer arithmetic helpers.
//!
//! Every quantity in this crate is a scaled integer, so the fixed-point
//! evaluation of the astronomical polynomials reduces to multiplication
//! followed by floor division. These helpers provide those operations with
//! mathematical (floor / Euclidean) semantics on signed 128-bit values, and
//! an integer cube root.

use vstd::prelude::*;

verus! {

use vstd::arithmetic::div_mod::lemma_fundamental_div_mod;
use vstd::arithmetic::div_mod::lemma_fundamental_div_mod_converse;
use vstd::arithmetic::div_mod::lemma_mod_bound;

/// Bound within which the helpers below accept their operands; leaves
/// headroom so that negation and rounding adjustments cannot overflow.
pub const I128_HEADROOM: i128 = 0x4000_0000_0000_0000_0000_0000_0000_0000i128;

/// Floor division of a signed value by a positive divisor.
///
/// The result agrees with mathematical division as used in specifications
/// (rounding towards negative infinity), unlike Rust's truncating `/`.
pub fn div_floor_i128(a: i128, d: i128) -> (r: i128)
    requires
        0 < d < I128_HEADROOM,
        -I128_HEADROOM < a < I128_HEADROOM,
    ensures
        r == a as int / d as int,
{
    if a >= 0 {
        let q: u128 = (a as u128) / (d as u128);
        q as i128
    } else {
        let na: u128 = (-a) as u128;
        let q: u128 = na / (d as u128);
        let rem: u128 = na % (d as u128);
        proof {
            lemma_fundamental_div_mod(na as int, d as int);
            lemma_mod_bound(na as int, d as int);
            assert(q as int <= na as int) by (nonlinear_arith)
                requires
                    na as int == d as int * (q as int) + (rem as int),
                    rem as int >= 0,
                    d as int >= 1,
                    q as int >= 0,
            ;
        }
        if rem == 0 {
            let r: i128 = -(q as i128);
            proof {
                assert(a as int == r as int * (d as int) + 0) by (nonlinear_arith)
                    requires
                        a as int == -(na as int),
                        na as int == d as int * (q as int) + (rem as int),
                        rem as int == 0,
                        r as int == -(q as int),
                ;
                lemma_fundamental_div_mod_converse(a as int, d as int, r as int, 0);
            }
            r
        } else {
            let r: i128 = -(q as i128) - 1;
            proof {
                assert(a as int == r as int * (d as int) + (d as int - rem as int))
                    by (nonlinear_arith)
                    requires
                        a as int == -(na as int),
                        na as int == d as int * (q as int) + (rem as int),
                        r as int == -(q as int) - 1,
                ;
                lemma_fundamental_div_mod_converse(
                    a as int,
                    d as int,
                    r as int,
                    d as int - rem as int,
                );
            }
            r
        }
    }
}

/// Floor (Euclidean) remainder of a signed value by a positive divisor.
///
/// The result is always in `[0, d)`, matching `%` in specifications.
pub fn mod_floor_i128(a: i128, d: i128) -> (r: i128)
    requires
        0 < d < I128_HEADROOM,
        -I128_HEADROOM < a < I128_HEADROOM,
    ensures
        r == a as int % d as int,
        0 <= r < d,
{
    let q: i128 = div_floor_i128(a, d);
    proof {
        lemma_fundamental_div_mod(a as int, d as int);
        lemma_mod_bound(a as int, d as int);
        assert(q as int * (d as int) == d as int * (q as int)) by (nonlinear_arith);
    }
    a - q * d
}

/// Multiply two signed values and floor-divide by a positive divisor,
/// with the product computed exactly.
pub fn mul_div_floor(a: i128, b: i128, d: i128) -> (r: i128)
    requires
        0 < d < I128_HEADROOM,
        -I128_HEADROOM < a * b < I128_HEADROOM,
    ensures
        r == (a * b) / d as int,
{
    let p: i128 = a * b;
    div_floor_i128(p, d)
}

/// A floor quotient of a bounded (possibly negative) numerator by a
/// divisor at least `dl` has magnitude at most `nb / dl`, up to the floor
/// slack of two.
pub proof fn lemma_div_magnitude_bound(n: int, d: int, nb: int, dl: int)
    requires
        0 < dl <= d,
        0 <= nb,
        -nb <= n <= nb,
    ensures
        -(nb / dl) - 2 <= n / d <= nb / dl + 1,
{
    lemma_fundamental_div_mod(n, d);
    lemma_mod_bound(n, d);
    lemma_fundamental_div_mod(nb, dl);
    lemma_mod_bound(nb, dl);
    let q = n / d;
    let r = n % d;
    let qb = nb / dl;
    let rb = nb % dl;
    assert(-qb - 2 <= q <= qb + 1) by (nonlinear_arith)
        requires
            n == d * q + r,
            0 <= r < d,
            nb == dl * qb + rb,
            0 <= rb < dl,
            0 < dl <= d,
            -nb <= n <= nb,
            0 <= nb,
    ;
}

/// Whether `r` is the integer square root of `x`.
pub open spec fn spec_is_sqrt(r: int, x: int) -> bool {
    0 <= r && r * r <= x < (r + 1) * (r + 1)
}

/// The integer square root of `x` (meaningful for `x ≥ 0`).
pub open spec fn spec_isqrt(x: int) -> int {
    choose|r: int| spec_is_sqrt(r, x)
}

/// The integer square root is unique, so any witness names it.
pub proof fn lemma_isqrt_unique(x: int, r: int)
    requires
        spec_is_sqrt(r, x),
    ensures
        spec_isqrt(x) == r,
{
    assert(exists|q: int| spec_is_sqrt(q, x)) by {
        assert(spec_is_sqrt(r, x));
    }
    let s = spec_isqrt(x);
    assert(spec_is_sqrt(s, x));
    if s < r {
        assert((s + 1) * (s + 1) <= r * r) by (nonlinear_arith)
            requires
                0 <= s + 1 <= r,
        ;
    }
    if s > r {
        assert((r + 1) * (r + 1) <= s * s) by (nonlinear_arith)
            requires
                0 <= r + 1 <= s,
        ;
    }
}

/// Integer square root: the largest `r` with `r² ≤ x`.
pub fn isqrt_u128(x: u128) -> (r: u64)
    ensures
        (r as int) * (r as int) <= x as int,
        (x as int) < ((r as int) + 1) * ((r as int) + 1),
{
    let mut lo: u128 = 0;
    let mut hi: u128 = 18446744073709551616;  // 2^64, whose square exceeds every u128
    proof {
        assert((18446744073709551616int) * (18446744073709551616int) > u128::MAX)
            by (nonlinear_arith);
    }
    while lo + 1 < hi
        invariant
            lo < hi <= 18446744073709551616,
            (lo as int) * (lo as int) <= x as int,
            (x as int) < (hi as int) * (hi as int),
        decreases hi - lo,
    {
        let mid: u128 = lo + (hi - lo) / 2;
        assert(lo < mid < hi);
        proof {
            assert((mid as int) * (mid as int) <= u128::MAX as int) by (nonlinear_arith)
                requires
                    mid < 18446744073709551616u128,
            ;
        }
        let c: u128 = mid * mid;
        if c <= x {
            lo = mid;
        } else {
            hi = mid;
        }
    }
    lo as u64
}

/// Integer cube root: the largest `r` with `r³ ≤ x`.
pub fn icbrt_u128(x: u128) -> (r: u64)
    requires
        x < 0x4000_0000_0000_0000_0000_0000_0000_0000u128,
    ensures
        (r as int) * (r as int) * (r as int) <= x as int,
        (x as int) < ((r as int) + 1) * ((r as int) + 1) * ((r as int) + 1),
{
    let mut lo: u128 = 0;
    let mut hi: u128 = 4398046511104;  // 2^42, whose cube 2^126 exceeds every allowed x
    proof {
        assert(4398046511104 * 4398046511104 * 4398046511104
            == 0x4000_0000_0000_0000_0000_0000_0000_0000) by (nonlinear_arith);
    }
    while lo + 1 < hi
        invariant
            lo < hi <= 4398046511104,
            (lo as int) * (lo as int) * (lo as int) <= x as int,
            (x as int) < (hi as int) * (hi as int) * (hi as int),
        decreases hi - lo,
    {
        let mid: u128 = lo + (hi - lo) / 2;
        assert(lo < mid < hi);
        proof {
            assert(mid * mid < 0x40_0000_0000_0000_0000_0000u128
                && mid * mid * mid < 0x4000_0000_0000_0000_0000_0000_0000_0000u128)
                by (nonlinear_arith)
                requires
                    mid < 4398046511104u128,
            ;
        }
        let c: u128 = mid * mid * mid;
        if c <= x {
            lo = mid;
        } else {
            hi = mid;
        }
    }
    lo as u64
}

} // verus!
