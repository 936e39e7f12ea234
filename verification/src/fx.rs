//! Exact fixed-point arithmetic: signed 64-bit values scaled by one
//! million, with truncating (round-toward-zero) rescaling after products
//! and quotients. Every executable operation is proved equal to a spec
//! function over unbounded integers, so higher layers can reason about
//! the pipeline exactly.

use vstd::prelude::*;
use vstd::arithmetic::div_mod::{lemma_div_is_ordered, lemma_div_multiples_vanish};

verus! {

/// Number of raw units in 1.0.
pub const SCALE: i64 = 1_000_000;

/// Largest magnitude accepted by `fx_mul` for both factors at once: the
/// rescaled product of two such values still fits in an `i64`.
pub const MUL_IN_MAX: i64 = 2_000_000_000_000;

/// Largest magnitude accepted by `fx_div`: the scaled numerator still
/// fits in 64 bits.
pub const DIV_IN_MAX: i64 = 8_000_000_000_000;

/// The factors of a rescaled product must either both sit within
/// `MUL_IN_MAX` or have a product of magnitudes whose rescaling fits in
/// an `i64`.
pub open spec fn mul_in_ok(a: int, b: int) -> bool {
    (-MUL_IN_MAX <= a <= MUL_IN_MAX && -MUL_IN_MAX <= b <= MUL_IN_MAX) || iabs(a) * iabs(b)
        <= 4_000_000_000_000_000_000_000_000
}

/// Magnitude of an integer.
pub open spec fn iabs(a: int) -> int {
    if a >= 0 {
        a
    } else {
        -a
    }
}

/// Division truncated toward zero, for a positive divisor.
pub open spec fn tdiv(a: int, b: int) -> int
    recommends
        b > 0,
{
    if a >= 0 {
        a / b
    } else {
        -((-a) / b)
    }
}

/// Fixed-point product: the mathematical product, rescaled and truncated.
pub open spec fn mul_s(a: int, b: int) -> int {
    tdiv(a * b, SCALE as int)
}

/// Fixed-point quotient: the scaled numerator over `b`, truncated.
pub open spec fn div_s(a: int, b: int) -> int
    recommends
        b > 0,
{
    tdiv(a * (SCALE as int), b)
}

/// Clamping to a closed interval.
pub open spec fn clamp_s(v: int, lo: int, hi: int) -> int {
    if v < lo {
        lo
    } else if v > hi {
        hi
    } else {
        v
    }
}

/// Square root of a natural number, rounded down.
pub open spec fn sqrt_floor(n: nat) -> nat
    decreases n,
{
    if n == 0 {
        0
    } else {
        let r = sqrt_floor((n - 1) as nat);
        if (r + 1) * (r + 1) <= n {
            r + 1
        } else {
            r
        }
    }
}

/// Square root of a non-negative fixed-point value: the scale factor is
/// reapplied under the root so that `sqrt_s(SCALE) == SCALE`.
pub open spec fn sqrt_s(v: int) -> int
    recommends
        v >= 0,
{
    sqrt_floor((v * (SCALE as int)) as nat) as int
}

/// The magnitude of a product is the product of the magnitudes, and the
/// product is negative exactly when the signs differ and neither factor
/// is zero.
proof fn lemma_abs_mul(a: int, b: int)
    by (nonlinear_arith)
    ensures
        iabs(a * b) == iabs(a) * iabs(b),
        (a * b < 0) <==> (((a < 0) != (b < 0)) && a != 0 && b != 0),
{
}

/// `sqrt_floor(n)` is the unique natural number whose square is at most
/// `n` while the next square is beyond it.
pub proof fn lemma_sqrt_floor_bounds(n: nat)
    ensures
        sqrt_floor(n) * sqrt_floor(n) <= n,
        n < (sqrt_floor(n) + 1) * (sqrt_floor(n) + 1),
    decreases n,
{
    if n == 0 {
        assert(sqrt_floor(0) == 0);
        assert(0 < (0 + 1) * (0 + 1)) by (nonlinear_arith);
    } else {
        lemma_sqrt_floor_bounds((n - 1) as nat);
        let r = sqrt_floor((n - 1) as nat);
        if (r + 1) * (r + 1) <= n {
            assert(sqrt_floor(n) == r + 1);
            assert(n < (r + 1 + 1) * (r + 1 + 1)) by (nonlinear_arith)
                requires
                    n - 1 < (r + 1) * (r + 1),
            ;
        } else {
            assert(sqrt_floor(n) == r);
            assert(r * r <= n);
        }
    }
}

pub proof fn lemma_sqrt_floor_unique(n: nat, r: nat)
    requires
        r * r <= n,
        n < (r + 1) * (r + 1),
    ensures
        r == sqrt_floor(n),
{
    lemma_sqrt_floor_bounds(n);
    let s = sqrt_floor(n);
    assert(r < s + 1 && s < r + 1) by (nonlinear_arith)
        requires
            r * r <= n,
            n < (r + 1) * (r + 1),
            s * s <= n,
            n < (s + 1) * (s + 1),
    ;
}

/// A truncated quotient never exceeds the quotient of a bound on the
/// numerator's magnitude.
pub proof fn lemma_tdiv_bound(a: int, m: int, b: int)
    requires
        iabs(a) <= m,
        b > 0,
    ensures
        iabs(tdiv(a, b)) <= m / b,
        tdiv(a, b) == 0 <==> iabs(a) < b,
{
    if a >= 0 {
        lemma_div_is_ordered(a, m, b);
        assert(a / b >= 0) by (nonlinear_arith)
            requires
                a >= 0,
                b > 0,
        ;
        assert(a / b == 0 <==> a < b) by (nonlinear_arith)
            requires
                a >= 0,
                b > 0,
        ;
    } else {
        lemma_div_is_ordered(-a, m, b);
        assert((-a) / b >= 0) by (nonlinear_arith)
            requires
                a < 0,
                b > 0,
        ;
        assert((-a) / b == 0 <==> -a < b) by (nonlinear_arith)
            requires
                a < 0,
                b > 0,
        ;
    }
}

/// A truncated quotient of a non-negative numerator bounded by `k` times
/// the divisor stays within `[0, k]`.
pub proof fn lemma_tdiv_le_mul(a: int, b: int, k: int)
    requires
        0 <= a,
        a <= k * b,
        b > 0,
        k >= 0,
    ensures
        0 <= tdiv(a, b) <= k,
{
    lemma_div_is_ordered(a, k * b, b);
    lemma_div_multiples_vanish(k, b);
    assert(k * b == b * k) by (nonlinear_arith);
    assert(a / b >= 0) by (nonlinear_arith)
        requires
            a >= 0,
            b > 0,
    ;
}

/// Bound on a rescaled product from bounds on the two factors.
pub proof fn lemma_mul_s_bound(a: int, b: int, m: int, k: int)
    requires
        iabs(a) <= m,
        iabs(b) <= k,
    ensures
        iabs(mul_s(a, b)) <= (m * k) / (SCALE as int),
{
    lemma_abs_mul(a, b);
    assert(iabs(a) * iabs(b) <= m * k) by (nonlinear_arith)
        requires
            0 <= iabs(a) <= m,
            0 <= iabs(b) <= k,
    ;
    lemma_tdiv_bound(a * b, m * k, SCALE as int);
}

/// Multiplying by the fixed-point one is exact.
pub proof fn lemma_mul_s_one(a: int)
    ensures
        mul_s(a, SCALE as int) == a,
        mul_s(SCALE as int, a) == a,
{
    if a >= 0 {
        lemma_div_multiples_vanish(a, SCALE as int);
    } else {
        lemma_div_multiples_vanish(-a, SCALE as int);
        assert((-a) * (SCALE as int) == -(a * (SCALE as int))) by (nonlinear_arith);
    }
    assert(a * (SCALE as int) == (SCALE as int) * a) by (nonlinear_arith);
}

/// Multiplying by zero gives zero.
pub proof fn lemma_mul_s_zero(a: int)
    ensures
        mul_s(a, 0) == 0,
        mul_s(0, a) == 0,
{
    assert(a * 0 == 0) by (nonlinear_arith);
    assert(0 * a == 0) by (nonlinear_arith);
}

/// Fixed-point multiplication, exact with respect to `mul_s`.
pub fn fx_mul(a: i64, b: i64) -> (r: i64)
    requires
        mul_in_ok(a as int, b as int),
    ensures
        r == mul_s(a as int, b as int),
        iabs(r as int) <= (iabs(a as int) * iabs(b as int)) / (SCALE as int),
{
    let neg = (a < 0) != (b < 0);
    let ma: u128 = if a >= 0 {
        a as u128
    } else {
        (-(a as i128)) as u128
    };
    let mb: u128 = if b >= 0 {
        b as u128
    } else {
        (-(b as i128)) as u128
    };
    proof {
        assert(ma == iabs(a as int) && mb == iabs(b as int));
        if -MUL_IN_MAX <= a <= MUL_IN_MAX && -MUL_IN_MAX <= b <= MUL_IN_MAX {
            assert(ma * mb <= 4_000_000_000_000_000_000_000_000) by (nonlinear_arith)
                requires
                    0 <= ma <= MUL_IN_MAX as int,
                    0 <= mb <= MUL_IN_MAX as int,
            ;
        }
        lemma_abs_mul(a as int, b as int);
    }
    let p: u128 = ma * mb;
    let q: u128 = p / (SCALE as u128);
    proof {
        let ab = (a as int) * (b as int);
        assert(q == iabs(ab) / (SCALE as int));
        lemma_tdiv_bound(ab, iabs(ab), SCALE as int);
        assert(iabs(tdiv(ab, SCALE as int)) == q);
        if q != 0 {
            assert(ab != 0);
            assert(a != 0 && b != 0) by (nonlinear_arith)
                requires
                    (a as int) * (b as int) != 0,
            ;
        }
    }
    if neg {
        (-(q as i128)) as i64
    } else {
        q as i64
    }
}

/// Fixed-point division by a positive divisor, exact with respect to
/// `div_s`.
pub fn fx_div(a: i64, b: i64) -> (r: i64)
    requires
        -DIV_IN_MAX <= a <= DIV_IN_MAX,
        b > 0,
    ensures
        r == div_s(a as int, b as int),
        iabs(r as int) <= (iabs(a as int) * (SCALE as int)) / (b as int),
{
    let ma: u128 = if a >= 0 {
        a as u128
    } else {
        (-(a as i128)) as u128
    };
    let p: u128 = ma * (SCALE as u128);
    let q: u128 = p / (b as u128);
    proof {
        let asc = (a as int) * (SCALE as int);
        assert(ma == iabs(a as int));
        assert(ma * (SCALE as int) == iabs(asc)) by (nonlinear_arith)
            requires
                ma == iabs(a as int),
                asc == (a as int) * (SCALE as int),
        ;
        assert(q == iabs(asc) / (b as int));
        lemma_tdiv_bound(asc, iabs(asc), b as int);
        assert(iabs(tdiv(asc, b as int)) == q);
        assert(q <= (DIV_IN_MAX as int) * (SCALE as int)) by (nonlinear_arith)
            requires
                0 <= ma <= DIV_IN_MAX as int,
                p == ma * (SCALE as u128),
                q == p / (b as u128),
                b > 0,
        ;
    }
    if a >= 0 {
        q as i64
    } else {
        (-(q as i128)) as i64
    }
}

/// Integer square root by bisection.
pub fn isqrt(n: u128) -> (r: u64)
    requires
        n < 85070591730234615865843651857942052864,
    ensures
        r == sqrt_floor(n as nat),
{
    let mut lo: u64 = 0;
    let mut hi: u64 = 9_223_372_036_854_775_808;
    proof {
        assert((hi as int) * (hi as int) > n as int) by (nonlinear_arith)
            requires
                hi == 9_223_372_036_854_775_808,
                n < 85070591730234615865843651857942052864,
        ;
    }
    while lo + 1 < hi
        invariant
            lo < hi <= 9_223_372_036_854_775_808,
            (lo as int) * (lo as int) <= n as int,
            (n as int) < (hi as int) * (hi as int),
        decreases hi - lo,
    {
        let mid = lo + (hi - lo) / 2;
        proof {
            assert((mid as int) * (mid as int) <= u128::MAX) by (nonlinear_arith)
                requires
                    0 <= mid <= 9_223_372_036_854_775_808,
            ;
        }
        let sq: u128 = (mid as u128) * (mid as u128);
        if sq <= n {
            lo = mid;
        } else {
            hi = mid;
        }
    }
    proof {
        assert((n as int) < ((lo + 1) as int) * ((lo + 1) as int)) by (nonlinear_arith)
            requires
                hi <= lo + 1,
                (n as int) < (hi as int) * (hi as int),
        ;
        lemma_sqrt_floor_unique(n as nat, lo as nat);
    }
    lo
}

/// Fixed-point square root of a non-negative value, exact with respect
/// to `sqrt_s`.
pub fn fx_sqrt(v: i64) -> (r: i64)
    requires
        0 <= v,
    ensures
        r == sqrt_s(v as int),
        0 <= r <= 4_000_000_000_000,
{
    proof {
        assert((v as int) * (SCALE as int) < 85070591730234615865843651857942052864)
            by (nonlinear_arith)
            requires
                0 <= v <= i64::MAX,
        ;
    }
    let n: u128 = (v as u128) * (SCALE as u128);
    let r = isqrt(n);
    proof {
        lemma_sqrt_floor_bounds(n as nat);
        assert(r <= 4_000_000_000_000) by (nonlinear_arith)
            requires
                (r as int) * (r as int) <= n as int,
                n == (v as int) * (SCALE as int),
                0 <= v <= i64::MAX,
        ;
    }
    r as i64
}

/// A rescaled product by a fraction in `[0, SCALE)` of a non-negative
/// value stays within `[0, that value]`.
pub proof fn lemma_mul_s_frac(a: int, d: int)
    requires
        a >= 0,
        0 <= d < SCALE as int,
    ensures
        0 <= mul_s(a, d) <= a,
{
    assert(0 <= a * d <= a * (SCALE as int)) by (nonlinear_arith)
        requires
            a >= 0,
            0 <= d < SCALE as int,
    ;
    lemma_div_is_ordered(a * d, a * (SCALE as int), SCALE as int);
    lemma_div_multiples_vanish(a, SCALE as int);
    assert(a * d / (SCALE as int) >= 0) by (nonlinear_arith)
        requires
            a * d >= 0,
    ;
}

/// A rescaled product of non-negative values is non-negative.
pub proof fn lemma_mul_s_nonneg(a: int, b: int)
    requires
        a >= 0,
        b >= 0,
    ensures
        mul_s(a, b) >= 0,
{
    assert(a * b >= 0) by (nonlinear_arith)
        requires
            a >= 0,
            b >= 0,
    ;
    assert(a * b / (SCALE as int) >= 0) by (nonlinear_arith)
        requires
            a * b >= 0,
    ;
}

/// Scaling a non-negative value by a factor of at most one cannot grow
/// it.
pub proof fn lemma_mul_s_le_one(a: int, b: int)
    requires
        0 <= a <= SCALE as int,
        0 <= b,
    ensures
        0 <= mul_s(a, b) <= b,
{
    lemma_mul_s_nonneg(a, b);
    assert(a * b <= (SCALE as int) * b) by (nonlinear_arith)
        requires
            0 <= a <= SCALE as int,
            0 <= b,
    ;
    assert((SCALE as int) * b == b * (SCALE as int)) by (nonlinear_arith);
    lemma_div_is_ordered(a * b, b * (SCALE as int), SCALE as int);
    lemma_div_multiples_vanish(b, SCALE as int);
}

/// The rescaled square of a value is non-negative.
pub proof fn lemma_mul_s_square_nonneg(a: int)
    ensures
        mul_s(a, a) >= 0,
{
    assert(a * a >= 0) by (nonlinear_arith);
    assert(a * a / (SCALE as int) >= 0) by (nonlinear_arith)
        requires
            a * a >= 0,
    ;
}

/// Clamping to a closed interval, exact with respect to `clamp_s`.
pub fn clamp(value: i64, min: i64, max: i64) -> (r: i64)
    requires
        min <= max,
    ensures
        r == clamp_s(value as int, min as int, max as int),
{
    if value < min {
        return min;
    }
    if value > max {
        return max;
    }
    value
}

} // verus!
