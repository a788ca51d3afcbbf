//! Wide-integer arithmetic for the valuation path.
//!
//! The fair-value formula multiplies 128-bit quantities, so its
//! intermediates need 256 bits. A 256-bit value is carried as a high/low
//! pair of 128-bit halves; truncation back to 128 bits happens only after
//! the final division, and every narrowing step is checked rather than
//! wrapping.

use vstd::arithmetic::div_mod::{
    lemma_fundamental_div_mod, lemma_fundamental_div_mod_converse, lemma_multiply_divide_lt,
};
use vstd::arithmetic::mul::{lemma_mul_inequality, lemma_mul_upper_bound};
use vstd::prelude::*;

use crate::error::{VaultError, VaultResult};

verus! {

/// Base of the half-words used by the wide multiplication: 2^64.
pub const HALF_BASE: u128 = 0x1_0000_0000_0000_0000;

/// 2^128, the weight of the high half of a wide value.
pub open spec fn base128() -> int {
    (HALF_BASE as int) * (HALF_BASE as int)
}

/// The integer a high/low pair of 128-bit halves stands for.
pub open spec fn wide(hi: u128, lo: u128) -> int {
    hi * base128() + lo
}

/// `r` is the square root of `n`, rounded down.
pub open spec fn is_sqrt(n: int, r: int) -> bool {
    &&& 0 <= r
    &&& r * r <= n
    &&& n < (r + 1) * (r + 1)
}

/// The square root of `n`, rounded down.
pub open spec fn sqrt_of(n: int) -> int {
    choose|r: int| is_sqrt(n, r)
}

/// Two rounded-down square roots of the same number are equal.
pub proof fn lemma_sqrt_unique(n: int, r1: int, r2: int)
    requires
        is_sqrt(n, r1),
        is_sqrt(n, r2),
    ensures
        r1 == r2,
{
    assert(r1 < r2 ==> (r1 + 1) * (r1 + 1) <= r2 * r2) by (nonlinear_arith)
        requires
            0 <= r1,
            0 <= r2,
    ;
    assert(r2 < r1 ==> (r2 + 1) * (r2 + 1) <= r1 * r1) by (nonlinear_arith)
        requires
            0 <= r1,
            0 <= r2,
    ;
}

/// A witness pins down [`sqrt_of`].
pub proof fn lemma_sqrt_of(n: int, r: int)
    requires
        is_sqrt(n, r),
    ensures
        sqrt_of(n) == r,
{
    let w = choose|x: int| is_sqrt(n, x);
    assert(is_sqrt(n, w));
    lemma_sqrt_unique(n, w, r);
}

/// Full 128x128 multiplication into a high/low pair; never overflows.
pub fn wide_mul(a: u128, b: u128) -> (r: (u128, u128))
    ensures
        wide(r.0, r.1) == a * b,
{
    let ah = a / HALF_BASE;
    let al = a % HALF_BASE;
    let bh = b / HALF_BASE;
    let bl = b % HALF_BASE;
    proof {
        let h = HALF_BASE as int;
        lemma_mul_upper_bound(al as int, h - 1, bl as int, h - 1);
        lemma_mul_upper_bound(ah as int, h - 1, bl as int, h - 1);
        lemma_mul_upper_bound(al as int, h - 1, bh as int, h - 1);
        lemma_mul_upper_bound(ah as int, h - 1, bh as int, h - 1);
    }
    let ll = al * bl;
    proof {
        let h = HALF_BASE as int;
        assert((ll as int) < h * h) by (nonlinear_arith)
            requires
                (ll as int) <= (h - 1) * (h - 1),
                h == HALF_BASE as int,
        ;
        lemma_multiply_divide_lt(ll as int, h, h);
    }
    let mid1 = ah * bl + ll / HALF_BASE;
    proof {
        let h = HALF_BASE as int;
        lemma_multiply_divide_lt(mid1 as int, h, h);
    }
    let mid2 = al * bh + mid1 % HALF_BASE;
    proof {
        let h = HALF_BASE as int;
        lemma_multiply_divide_lt(mid2 as int, h, h);
    }
    let hi = ah * bh + mid1 / HALF_BASE + mid2 / HALF_BASE;
    let lo = (mid2 % HALF_BASE) * HALF_BASE + ll % HALF_BASE;
    proof {
        let h = HALF_BASE as int;
        lemma_fundamental_div_mod(a as int, h);
        lemma_fundamental_div_mod(b as int, h);
        lemma_fundamental_div_mod(ll as int, h);
        lemma_fundamental_div_mod(mid1 as int, h);
        lemma_fundamental_div_mod(mid2 as int, h);
        assert((hi as int) * base128() + (lo as int) == (a as int) * (b as int))
            by (nonlinear_arith)
            requires
                h == HALF_BASE as int,
                base128() == h * h,
                a as int == h * (ah as int) + (al as int),
                b as int == h * (bh as int) + (bl as int),
                ll as int == (al as int) * (bl as int),
                ll as int == h * ((ll as int) / h) + (ll as int) % h,
                mid1 as int == (ah as int) * (bl as int) + (ll as int) / h,
                mid1 as int == h * ((mid1 as int) / h) + (mid1 as int) % h,
                mid2 as int == (al as int) * (bh as int) + (mid1 as int) % h,
                mid2 as int == h * ((mid2 as int) / h) + (mid2 as int) % h,
                hi as int == (ah as int) * (bh as int) + (mid1 as int) / h + (mid2 as int) / h,
                lo as int == ((mid2 as int) % h) * h + (ll as int) % h,
        ;
    }
    (hi, lo)
}

/// Compares two wide values.
pub fn wide_le(h1: u128, l1: u128, h2: u128, l2: u128) -> (r: bool)
    ensures
        r == (wide(h1, l1) <= wide(h2, l2)),
{
    proof {
        if h1 < h2 {
            lemma_mul_inequality(h1 as int + 1, h2 as int, base128());
        }
        if h2 < h1 {
            lemma_mul_inequality(h2 as int + 1, h1 as int, base128());
        }
    }
    if h1 < h2 {
        true
    } else if h1 == h2 {
        l1 <= l2
    } else {
        false
    }
}

/// Square root of a wide value, rounded down; always fits in 128 bits.
pub fn isqrt_wide(hi: u128, lo: u128) -> (r: u128)
    ensures
        is_sqrt(wide(hi, lo), r as int),
        r as int == sqrt_of(wide(hi, lo)),
{
    let ghost n = wide(hi, lo);
    let mut low: u128 = 0;
    let mut high: u128 = u128::MAX;
    proof {
        lemma_mul_upper_bound(hi as int, u128::MAX as int, base128(), base128());
        assert(n < (u128::MAX as int + 1) * (u128::MAX as int + 1)) by (nonlinear_arith)
            requires
                n == (hi as int) * base128() + lo as int,
                (hi as int) * base128() <= (u128::MAX as int) * base128(),
                (lo as int) <= u128::MAX as int,
                base128() == u128::MAX as int + 1,
        ;
    }
    while low < high
        invariant
            n == wide(hi, lo),
            low <= high,
            (low as int) * (low as int) <= n,
            n < (high as int + 1) * (high as int + 1),
        decreases high - low,
    {
        let d = high - low;
        proof {
            lemma_fundamental_div_mod(d as int, 2);
        }
        let mid = low + d / 2 + d % 2;
        let (ph, pl) = wide_mul(mid, mid);
        if wide_le(ph, pl, hi, lo) {
            low = mid;
        } else {
            proof {
                assert((mid as int) * (mid as int) <= (high as int + 1) * (high as int + 1))
                    by (nonlinear_arith)
                    requires
                        0 <= mid as int,
                        (mid as int) <= high as int + 1,
                ;
            }
            high = mid - 1;
        }
    }
    proof {
        lemma_sqrt_of(n, low as int);
    }
    low
}

/// Divides a wide value by `d`, rounding down. The requirement `hi < d`
/// says exactly that the quotient fits in 128 bits.
pub fn div_wide(hi: u128, lo: u128, d: u128) -> (r: u128)
    requires
        0 < d,
        hi < d,
    ensures
        r as int == wide(hi, lo) / (d as int),
{
    let ghost n = wide(hi, lo);
    let mut low: u128 = 0;
    let mut high: u128 = u128::MAX;
    proof {
        lemma_mul_inequality(hi as int + 1, d as int, base128());
        assert(n < (u128::MAX as int + 1) * (d as int)) by (nonlinear_arith)
            requires
                n == (hi as int) * base128() + lo as int,
                (lo as int) < base128(),
                (hi as int + 1) * base128() <= (d as int) * base128(),
                base128() == u128::MAX as int + 1,
        ;
    }
    while low < high
        invariant
            n == wide(hi, lo),
            0 < d,
            low <= high,
            (low as int) * (d as int) <= n,
            n < (high as int + 1) * (d as int),
        decreases high - low,
    {
        let dd = high - low;
        proof {
            lemma_fundamental_div_mod(dd as int, 2);
        }
        let mid = low + dd / 2 + dd % 2;
        let (ph, pl) = wide_mul(mid, d);
        if wide_le(ph, pl, hi, lo) {
            low = mid;
        } else {
            proof {
                assert((mid as int) * (d as int) <= (high as int + 1) * (d as int))
                    by (nonlinear_arith)
                    requires
                        0 <= mid as int,
                        (mid as int) <= high as int + 1,
                        0 < d as int,
                ;
            }
            high = mid - 1;
        }
    }
    proof {
        assert(n < (low as int) * (d as int) + d as int) by (nonlinear_arith)
            requires
                n < (low as int + 1) * (d as int),
        ;
        lemma_fundamental_div_mod_converse(n, d as int, low as int, n - (low as int) * (d as int));
    }
    low
}

/// Divides a wide value by `d`, rounding down; reports overflow instead of
/// truncating when the quotient does not fit in 128 bits.
pub fn div_wide_checked(hi: u128, lo: u128, d: u128) -> (r: VaultResult<u128>)
    requires
        0 < d,
    ensures
        r is Ok <==> wide(hi, lo) / (d as int) <= u128::MAX,
        r matches Ok(q) ==> q as int == wide(hi, lo) / (d as int),
        r is Err ==> r == Err::<u128, VaultError>(VaultError::Arithmetic),
{
    let ghost n = wide(hi, lo);
    if hi >= d {
        proof {
            lemma_mul_inequality(d as int, hi as int, base128());
            lemma_fundamental_div_mod(n, d as int);
            assert(n / (d as int) > u128::MAX as int) by (nonlinear_arith)
                requires
                    n >= (d as int) * base128(),
                    n == (d as int) * (n / (d as int)) + n % (d as int),
                    0 <= n % (d as int) < d as int,
                    0 < d as int,
                    base128() == u128::MAX as int + 1,
            ;
        }
        Err(VaultError::Arithmetic)
    } else {
        Ok(div_wide(hi, lo, d))
    }
}

/// Multiplies two 128-bit values, reporting overflow instead of wrapping.
pub fn checked_mul(a: u128, b: u128) -> (r: VaultResult<u128>)
    ensures
        r is Ok <==> a * b <= u128::MAX,
        r matches Ok(p) ==> p == a * b,
        r is Err ==> r == Err::<u128, VaultError>(VaultError::Arithmetic),
{
    let (hi, lo) = wide_mul(a, b);
    if hi == 0 {
        Ok(lo)
    } else {
        proof {
            lemma_mul_inequality(1, hi as int, base128());
        }
        Err(VaultError::Arithmetic)
    }
}

/// `a * b / c`, rounded down. With `b <= c` the result never leaves the
/// 128-bit range; it is bounded by `a`.
pub fn mul_ratio(a: u128, b: u128, c: u128) -> (r: u128)
    requires
        0 < c,
        b <= c,
    ensures
        r as int == (a as int) * (b as int) / (c as int),
        r <= a,
{
    let (hi, lo) = wide_mul(a, b);
    proof {
        lemma_mul_upper_bound(a as int, u128::MAX as int, b as int, c as int);
        assert(hi < c) by (nonlinear_arith)
            requires
                (hi as int) * base128() + lo as int == (a as int) * (b as int),
                (a as int) * (b as int) <= (u128::MAX as int) * (c as int),
                0 <= lo as int,
                0 <= hi as int,
                0 < c as int,
                base128() == u128::MAX as int + 1,
        ;
    }
    let q = div_wide(hi, lo, c);
    proof {
        lemma_fundamental_div_mod((a as int) * (b as int), c as int);
        assert((a as int) * (b as int) / (c as int) <= a as int) by (nonlinear_arith)
            requires
                (a as int) * (b as int) == (c as int) * ((a as int) * (b as int) / (c as int)) + (
                a as int) * (b as int) % (c as int),
                0 <= (a as int) * (b as int) % (c as int),
                0 <= a as int,
                0 <= (b as int) <= c as int,
                0 < c as int,
        ;
    }
    q
}

/// `a * b / c`, rounded down, reporting overflow of the 128-bit result.
pub fn mul_ratio_checked(a: u128, b: u128, c: u128) -> (r: VaultResult<u128>)
    requires
        0 < c,
    ensures
        r is Ok <==> (a as int) * (b as int) / (c as int) <= u128::MAX,
        r matches Ok(q) ==> q as int == (a as int) * (b as int) / (c as int),
        r is Err ==> r == Err::<u128, VaultError>(VaultError::Arithmetic),
{
    let (hi, lo) = wide_mul(a, b);
    div_wide_checked(hi, lo, c)
}

/// `2 * s / d`, rounded down, reporting overflow of the 128-bit result.
pub fn twice_div(s: u128, d: u128) -> (r: VaultResult<u128>)
    requires
        0 < d,
    ensures
        r is Ok <==> 2 * (s as int) / (d as int) <= u128::MAX,
        r matches Ok(q) ==> q as int == 2 * (s as int) / (d as int),
        r is Err ==> r == Err::<u128, VaultError>(VaultError::Arithmetic),
{
    let q1 = s / d;
    let r1 = s % d;
    let extra: u128 = if r1 >= d - r1 {
        1
    } else {
        0
    };
    proof {
        lemma_fundamental_div_mod(s as int, d as int);
        assert(2 * (s as int) == (2 * (q1 as int)) * (d as int) + 2 * (r1 as int))
            by (nonlinear_arith)
            requires
                s as int == (d as int) * (q1 as int) + r1 as int,
        ;
        if 2 * (r1 as int) < d as int {
            lemma_fundamental_div_mod_converse(
                2 * (s as int),
                d as int,
                2 * (q1 as int),
                2 * (r1 as int),
            );
        } else {
            assert(2 * (s as int) == (2 * (q1 as int) + 1) * (d as int) + (2 * (r1 as int) - d
                as int)) by (nonlinear_arith)
                requires
                    2 * (s as int) == (2 * (q1 as int)) * (d as int) + 2 * (r1 as int),
            ;
            lemma_fundamental_div_mod_converse(
                2 * (s as int),
                d as int,
                2 * (q1 as int) + 1,
                2 * (r1 as int) - d as int,
            );
        }
    }
    let limit = (u128::MAX - extra) / 2;
    if q1 > limit {
        Err(VaultError::Arithmetic)
    } else {
        Ok(2 * q1 + extra)
    }
}

} // verus!
