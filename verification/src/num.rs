//! Integer helpers shared by the physics core: truncating division (the
//! rounding mode of the fixed-point arithmetic), integer square root, and
//! interval clamping.

use vstd::prelude::*;

verus! {

/// Quotient of `a` by `b` rounded toward zero, as Rust's `/` computes it on
/// machine integers. Ghost `/` on `int` is Euclidean, so the negative case is
/// spelled out.
pub open spec fn tdiv(a: int, b: int) -> int
    recommends
        b > 0,
{
    if a >= 0 {
        a / b
    } else {
        -((-a) / b)
    }
}

/// Truncating division on `i128`, matching `tdiv` exactly.
pub fn div_trunc_i128(a: i128, b: i128) -> (q: i128)
    requires
        b > 0,
        a > i128::MIN,
    ensures
        q == tdiv(a as int, b as int),
{
    if a >= 0 {
        let qa: u128 = (a as u128) / (b as u128);
        proof {
            assert(qa == a as int / b as int);
            assert(a as int / b as int <= a as int) by {
                vstd::arithmetic::div_mod::lemma_div_is_ordered_by_denominator(a as int, 1, b as int);
            }
        }
        qa as i128
    } else {
        let na: u128 = (-a) as u128;
        let qa: u128 = na / (b as u128);
        proof {
            assert(qa == (-a) as int / b as int);
            assert((-a) as int / b as int <= (-a) as int) by {
                vstd::arithmetic::div_mod::lemma_div_is_ordered_by_denominator((-a) as int, 1, b as int);
            }
        }
        -(qa as i128)
    }
}

/// `v` forced into `[lo, hi]`.
pub open spec fn spec_clamp(v: int, lo: int, hi: int) -> int
    recommends
        lo <= hi,
{
    if v < lo {
        lo
    } else if v > hi {
        hi
    } else {
        v
    }
}

/// Clamp on `i64`, matching `spec_clamp` exactly.
pub fn clamp_i64(v: i64, lo: i64, hi: i64) -> (r: i64)
    requires
        lo <= hi,
    ensures
        r == spec_clamp(v as int, lo as int, hi as int),
{
    if v < lo {
        lo
    } else if v > hi {
        hi
    } else {
        v
    }
}

/// The integer square root: the largest `r` with `r * r <= n`.
pub open spec fn is_isqrt(n: int, r: int) -> bool {
    &&& 0 <= r
    &&& r * r <= n
    &&& n < (r + 1) * (r + 1)
}

/// Canonical integer square root as a recursive definition, so that
/// contracts can name the value itself.
pub open spec fn sqrt_floor(n: int) -> int
    decreases n,
{
    if n < 1 {
        0
    } else {
        let r = sqrt_floor(n - 1);
        if (r + 1) * (r + 1) <= n {
            r + 1
        } else {
            r
        }
    }
}

/// `sqrt_floor` satisfies the integer-square-root characterization.
pub proof fn lemma_sqrt_floor_is_isqrt(n: int)
    requires
        n >= 0,
    ensures
        is_isqrt(n, sqrt_floor(n)),
    decreases n,
{
    if n < 1 {
        assert(is_isqrt(0, 0));
    } else {
        lemma_sqrt_floor_is_isqrt(n - 1);
        let r = sqrt_floor(n - 1);
        if (r + 1) * (r + 1) <= n {
            assert((r + 1) * (r + 1) < (r + 2) * (r + 2)) by (nonlinear_arith)
                requires
                    r >= 0,
            ;
        }
    }
}

/// Any two integer square roots of the same number agree.
pub proof fn lemma_isqrt_unique(n: int, r1: int, r2: int)
    by (nonlinear_arith)
    requires
        is_isqrt(n, r1),
        is_isqrt(n, r2),
    ensures
        r1 == r2,
{
}

/// `|tdiv(a, b)| <= c` whenever `|a| <= b * c`.
pub proof fn lemma_tdiv_bound(a: int, b: int, c: int)
    requires
        b >= 1,
        c >= 0,
        -(b * c) <= a <= b * c,
    ensures
        -c <= tdiv(a, b) <= c,
{
    vstd::arithmetic::div_mod::lemma_div_multiples_vanish(c, b);
    assert(b * c / b == c);
    if a >= 0 {
        vstd::arithmetic::div_mod::lemma_div_is_ordered(a, b * c, b);
        vstd::arithmetic::div_mod::lemma_div_pos_is_pos(a, b);
    } else {
        vstd::arithmetic::div_mod::lemma_div_is_ordered(-a, b * c, b);
        vstd::arithmetic::div_mod::lemma_div_pos_is_pos(-a, b);
    }
}

/// Dividing a multiple of `b` by `b` gives the factor back exactly.
pub proof fn lemma_tdiv_multiples_vanish(x: int, b: int)
    requires
        b >= 1,
    ensures
        tdiv(b * x, b) == x,
{
    vstd::arithmetic::div_mod::lemma_div_multiples_vanish(x, b);
    if b * x < 0 {
        assert(b * -x == -(b * x)) by (nonlinear_arith);
        vstd::arithmetic::div_mod::lemma_div_multiples_vanish(-x, b);
    }
}

/// Truncating division leaves a remainder strictly smaller than the divisor,
/// with the sign of the dividend.
pub proof fn lemma_tdiv_remainder(a: int, b: int)
    requires
        b >= 1,
    ensures
        -b < a - b * tdiv(a, b) < b,
        a >= 0 ==> a - b * tdiv(a, b) >= 0,
        a < 0 ==> a - b * tdiv(a, b) <= 0,
{
    if a >= 0 {
        vstd::arithmetic::div_mod::lemma_fundamental_div_mod(a, b);
        vstd::arithmetic::div_mod::lemma_mod_bound(a, b);
    } else {
        vstd::arithmetic::div_mod::lemma_fundamental_div_mod(-a, b);
        vstd::arithmetic::div_mod::lemma_mod_bound(-a, b);
        assert(b * -((-a) / b) == -(b * ((-a) / b))) by (nonlinear_arith);
    }
}

/// Truncating division never grows the magnitude of the dividend.
pub proof fn lemma_tdiv_abs_le(a: int, b: int)
    requires
        b >= 1,
    ensures
        a >= 0 ==> 0 <= tdiv(a, b) <= a,
        a < 0 ==> a <= tdiv(a, b) <= 0,
{
    if a >= 0 {
        vstd::arithmetic::div_mod::lemma_div_pos_is_pos(a, b);
        vstd::arithmetic::div_mod::lemma_div_is_ordered_by_denominator(a, 1, b);
    } else {
        vstd::arithmetic::div_mod::lemma_div_pos_is_pos(-a, b);
        vstd::arithmetic::div_mod::lemma_div_is_ordered_by_denominator(-a, 1, b);
    }
}

/// Clamp a wide intermediate into an `i64` interval.
pub fn clamp_i128_to_i64(v: i128, lo: i64, hi: i64) -> (r: i64)
    requires
        lo <= hi,
    ensures
        r == spec_clamp(v as int, lo as int, hi as int),
{
    if v < lo as i128 {
        lo
    } else if v > hi as i128 {
        hi
    } else {
        v as i64
    }
}

/// Multiplication on `i128` with explicit magnitude bounds, so that callers
/// discharge the overflow obligation once here.
pub fn mul_i128(a: i128, b: i128, Ghost(ba): Ghost<int>, Ghost(bb): Ghost<int>) -> (r: i128)
    requires
        0 <= ba <= 0x4000_0000_0000_0000_0000_0000_0000_0000,
        0 <= bb,
        ba * bb <= 0x4000_0000_0000_0000_0000_0000_0000_0000,
        -ba <= a <= ba,
        -bb <= b <= bb,
    ensures
        r == a * b,
        -(ba * bb) <= r <= ba * bb,
{
    proof {
        assert(-(ba * bb) <= a * b <= ba * bb) by (nonlinear_arith)
            requires
                -ba <= a <= ba,
                -bb <= b <= bb,
                0 <= ba,
                0 <= bb,
        ;
    }
    a * b
}

/// Integer square root by binary search.
pub fn isqrt_u64(n: u64) -> (r: u64)
    ensures
        is_isqrt(n as int, r as int),
        r == sqrt_floor(n as int),
{
    let r = isqrt_search(n);
    proof {
        lemma_sqrt_floor_is_isqrt(n as int);
        lemma_isqrt_unique(n as int, r as int, sqrt_floor(n as int));
    }
    r
}

fn isqrt_search(n: u64) -> (r: u64)
    ensures
        is_isqrt(n as int, r as int),
{
    let mut lo: u64 = 0;
    let mut hi: u64 = 0xFFFF_FFFF;
    if (n as u128) >= 0xFFFF_FFFF * 0xFFFF_FFFF {
        proof {
            assert(0xFFFF_FFFF * 0xFFFF_FFFF <= n as int ==> is_isqrt(
                n as int,
                0xFFFF_FFFFu64 as int,
            )) by (nonlinear_arith);
        }
        return 0xFFFF_FFFF;
    }
    while lo < hi
        invariant
            lo <= hi,
            hi <= 0xFFFF_FFFF,
            lo * lo <= n,
            (n as int) < (hi + 1) * (hi + 1),
        decreases hi - lo,
    {
        let mid: u64 = lo + (hi - lo + 1) / 2;
        proof {
            assert(mid as int * mid as int <= 0xFFFF_FFFF * 0xFFFF_FFFF) by (nonlinear_arith)
                requires
                    0 <= mid <= 0xFFFF_FFFF,
            ;
        }
        let sq: u128 = (mid as u128) * (mid as u128);
        if sq <= n as u128 {
            lo = mid;
        } else {
            hi = mid - 1;
        }
    }
    lo
}

} // verus!
