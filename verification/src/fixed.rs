//! Fixed-point scalars: an `i64` counts millionths of a unit.
//!
//! Every quantity of the simulation (pixels, seconds, pixels per second,
//! radians, ratios) is held in this representation. Products and quotients
//! are computed exactly in a wider type and then rounded toward zero, so that
//! negating an operand negates the result.

use vstd::prelude::*;

verus! {

/// The fixed-point representation of 1.
pub const ONE: i64 = 1_000_000;

/// The quotient of `n` by `d`, rounded toward zero.
pub open spec fn div_toward_zero(n: int, d: int) -> int
    recommends
        d > 0,
{
    if n >= 0 {
        n / d
    } else {
        -((-n) / d)
    }
}

/// The fixed-point product of `a` and `b`: the exact product, rescaled and
/// rounded toward zero.
pub open spec fn mul_spec(a: int, b: int) -> int {
    div_toward_zero(a * b, ONE as int)
}

/// The fixed-point quotient of `a` by `b`: the exact quotient, rescaled and
/// rounded toward zero.
pub open spec fn div_spec(a: int, b: int) -> int
    recommends
        b > 0,
{
    div_toward_zero(a * ONE, b)
}

/// The absolute value of `a`.
pub open spec fn abs_spec(a: int) -> int {
    if a >= 0 {
        a
    } else {
        -a
    }
}

/// The sign of `a`: -1, 0 or 1.
pub open spec fn signum_spec(a: int) -> int {
    if a > 0 {
        1
    } else if a < 0 {
        -1
    } else {
        0
    }
}

/// Rounding toward zero never moves a quotient away from zero, keeps its sign,
/// and commutes with negation.
pub proof fn lemma_div_toward_zero(n: int, d: int)
    requires
        d > 0,
    ensures
        div_toward_zero(-n, d) == -div_toward_zero(n, d),
        n >= 0 ==> 0 <= div_toward_zero(n, d) * d <= n,
        n >= 0 ==> n < (div_toward_zero(n, d) + 1) * d,
        n <= 0 ==> n <= div_toward_zero(n, d) * d <= 0,
        n <= 0 ==> (div_toward_zero(n, d) - 1) * d < n,
        abs_spec(div_toward_zero(n, d)) == abs_spec(n) / d,
{
    let m = abs_spec(n);
    assert(0 <= (m / d) * d <= m && m < (m / d + 1) * d && 0 <= m / d) by (nonlinear_arith)
        requires
            d > 0,
            m >= 0,
    ;
    assert((-(m / d)) * d == -((m / d) * d)) by (nonlinear_arith);
    assert((-(m / d) - 1) * d == -((m / d + 1) * d)) by (nonlinear_arith);
    assert(0int / d == 0) by (nonlinear_arith)
        requires
            d > 0,
    ;
}

/// A quotient rounded toward zero is monotonic in its numerator.
pub proof fn lemma_div_toward_zero_monotonic(n1: int, n2: int, d: int)
    requires
        d > 0,
        n1 <= n2,
    ensures
        div_toward_zero(n1, d) <= div_toward_zero(n2, d),
{
    lemma_div_toward_zero(n1, d);
    lemma_div_toward_zero(n2, d);
    let q1 = div_toward_zero(n1, d);
    let q2 = div_toward_zero(n2, d);
    if q1 > q2 {
        // q1 >= q2 + 1, which the bounds on both quotients rule out
        assert(q1 * d >= (q2 + 1) * d) by (nonlinear_arith)
            requires
                q1 >= q2 + 1,
                d > 0,
        ;
        assert((q1 - 1) * d >= q2 * d) by (nonlinear_arith)
            requires
                q1 - 1 >= q2,
                d > 0,
        ;
    }
}

/// A multiple of the divisor is divided exactly.
pub proof fn lemma_div_toward_zero_exact(q: int, d: int)
    requires
        d > 0,
    ensures
        div_toward_zero(q * d, d) == q,
{
    if q >= 0 {
        assert(q * d >= 0 && (q * d) / d == q) by (nonlinear_arith)
            requires
                q >= 0,
                d > 0,
        ;
    } else {
        assert(q * d < 0 && (-(q * d)) / d == -q) by (nonlinear_arith)
            requires
                q < 0,
                d > 0,
        ;
    }
}

/// Facts about fixed-point products: negating an operand negates the product,
/// 1 is neutral, 0 absorbs, the product has the sign of the exact product, and
/// a factor of magnitude at most 1 does not enlarge the other factor.
pub proof fn lemma_mul_spec(a: int, b: int)
    ensures
        mul_spec(-a, b) == -mul_spec(a, b),
        mul_spec(a, -b) == -mul_spec(a, b),
        mul_spec(a, b) == mul_spec(b, a),
        mul_spec(a, ONE as int) == a,
        mul_spec(a, 0) == 0,
        (a >= 0 && b >= 0) || (a <= 0 && b <= 0) ==> mul_spec(a, b) >= 0,
        (a >= 0 && b <= 0) || (a <= 0 && b >= 0) ==> mul_spec(a, b) <= 0,
        abs_spec(a) <= ONE ==> abs_spec(mul_spec(a, b)) <= abs_spec(b),
{
    let one = ONE as int;
    lemma_div_toward_zero(a * b, one);
    assert((-a) * b == -(a * b)) by (nonlinear_arith);
    assert(a * (-b) == -(a * b)) by (nonlinear_arith);
    assert(a * b == b * a) by (nonlinear_arith);
    assert(a * 0 == 0) by (nonlinear_arith);
    lemma_div_toward_zero_exact(a, one);
    lemma_div_toward_zero_exact(0, one);
    assert((a >= 0 && b >= 0) || (a <= 0 && b <= 0) ==> a * b >= 0) by (nonlinear_arith);
    assert((a >= 0 && b <= 0) || (a <= 0 && b >= 0) ==> a * b <= 0) by (nonlinear_arith);
    if abs_spec(a) <= one {
        let m = abs_spec(b);
        assert(-(m * one) <= a * b <= m * one) by (nonlinear_arith)
            requires
                -one <= a <= one,
                -m <= b <= m,
                one > 0,
        ;
        lemma_div_toward_zero_monotonic(a * b, m * one, one);
        lemma_div_toward_zero_monotonic(-(m * one), a * b, one);
        lemma_div_toward_zero_exact(m, one);
        lemma_div_toward_zero_exact(-m, one);
        assert((-m) * one == -(m * one)) by (nonlinear_arith);
    }
}

/// The magnitude of a fixed-point product is bounded by the product of
/// bounds on the magnitudes of its factors.
pub proof fn lemma_mul_spec_bound(a: int, b: int, a_max: int, b_max: int)
    requires
        abs_spec(a) <= a_max,
        abs_spec(b) <= b_max,
    ensures
        abs_spec(mul_spec(a, b)) <= mul_spec(a_max, b_max),
{
    let one = ONE as int;
    assert(-(a_max * b_max) <= a * b <= a_max * b_max) by (nonlinear_arith)
        requires
            -a_max <= a <= a_max,
            -b_max <= b <= b_max,
    ;
    lemma_div_toward_zero_monotonic(a * b, a_max * b_max, one);
    lemma_div_toward_zero_monotonic(-(a_max * b_max), a * b, one);
    lemma_div_toward_zero(a_max * b_max, one);
}

/// The fixed-point quotient of `a` by a positive `b` has the sign of `a`, and
/// magnitude at most 1 when `a` is no larger than `b` in magnitude.
pub proof fn lemma_div_spec(a: int, b: int)
    requires
        b > 0,
    ensures
        div_spec(-a, b) == -div_spec(a, b),
        div_spec(0, b) == 0,
        a >= 0 ==> div_spec(a, b) >= 0,
        a <= 0 ==> div_spec(a, b) <= 0,
        abs_spec(a) <= b ==> abs_spec(div_spec(a, b)) <= ONE,
        div_spec(b, b) == ONE,
{
    let one = ONE as int;
    lemma_div_toward_zero(a * one, b);
    assert((-a) * one == -(a * one)) by (nonlinear_arith);
    assert(0 * one == 0) by (nonlinear_arith);
    lemma_div_toward_zero_exact(0, b);
    assert(0 * b == 0) by (nonlinear_arith);
    assert(b * one == one * b) by (nonlinear_arith);
    lemma_div_toward_zero_exact(one, b);
    lemma_div_toward_zero_exact(-one, b);
    assert((-one) * b == -(one * b)) by (nonlinear_arith);
    if abs_spec(a) <= b {
        lemma_div_toward_zero_monotonic(a * one, b * one, b);
        lemma_div_toward_zero_monotonic(-(b * one), a * one, b);
    }
}

/// A fixed-point product is monotonic in a factor when the other factor is
/// not negative.
pub proof fn lemma_mul_spec_monotonic(a1: int, a2: int, b: int)
    requires
        a1 <= a2,
        b >= 0,
    ensures
        mul_spec(a1, b) <= mul_spec(a2, b),
        mul_spec(b, a1) <= mul_spec(b, a2),
{
    assert(a1 * b <= a2 * b) by (nonlinear_arith)
        requires
            a1 <= a2,
            b >= 0,
    ;
    lemma_div_toward_zero_monotonic(a1 * b, a2 * b, ONE as int);
    lemma_mul_spec(a1, b);
    lemma_mul_spec(a2, b);
}

/// Multiplies two fixed-point numbers.
pub fn mul_fixed(a: i64, b: i64) -> (r: i64)
    requires
        i64::MIN <= mul_spec(a as int, b as int) <= i64::MAX,
    ensures
        r == mul_spec(a as int, b as int),
{
    let wide: i128 = (a as i128) * (b as i128);
    let q: i128 = wide / (ONE as i128);
    q as i64
}

/// Divides one fixed-point number by a positive one.
pub fn div_fixed(a: i64, b: i64) -> (r: i64)
    requires
        b > 0,
        i64::MIN <= div_spec(a as int, b as int) <= i64::MAX,
    ensures
        r == div_spec(a as int, b as int),
{
    let wide: i128 = (a as i128) * (ONE as i128);
    let q: i128 = wide / (b as i128);
    q as i64
}

/// The integer square root of `n`: the largest `r` whose square does not
/// exceed `n`.
pub open spec fn is_sqrt(n: int, r: int) -> bool {
    r >= 0 && r * r <= n < (r + 1) * (r + 1)
}

/// At most one number is the integer square root of `n`.
pub proof fn lemma_sqrt_unique(n: int, r1: int, r2: int)
    requires
        is_sqrt(n, r1),
        is_sqrt(n, r2),
    ensures
        r1 == r2,
{
    if r1 < r2 {
        assert((r1 + 1) * (r1 + 1) <= r2 * r2) by (nonlinear_arith)
            requires
                0 <= r1 + 1 <= r2,
        ;
    } else if r2 < r1 {
        assert((r2 + 1) * (r2 + 1) <= r1 * r1) by (nonlinear_arith)
            requires
                0 <= r2 + 1 <= r1,
        ;
    }
}

/// Every non-negative number has an integer square root.
pub proof fn lemma_sqrt_exists(n: int)
    requires
        0 <= n,
    ensures
        is_sqrt(n, sqrt_spec(n)),
{
    assert((n + 1) * (n + 1) > n) by (nonlinear_arith)
        requires
            n >= 0,
    ;
    lemma_sqrt_exists_below(n, n + 1);
}

/// If `hi * hi > n >= 0`, an integer square root of `n` lies below `hi`.
proof fn lemma_sqrt_exists_below(n: int, hi: int)
    requires
        0 <= n,
        hi >= 1,
        hi * hi > n,
    ensures
        is_sqrt(n, sqrt_spec(n)),
    decreases hi,
{
    let r = hi - 1;
    if r * r <= n {
        assert(is_sqrt(n, r));
    } else {
        assert(r >= 1) by (nonlinear_arith)
            requires
                r >= 0,
                r * r > n,
                n >= 0,
        ;
        lemma_sqrt_exists_below(n, r);
    }
}

/// The integer square root of `n`, for `n >= 0`.
pub open spec fn sqrt_spec(n: int) -> int {
    choose|r: int| is_sqrt(n, r)
}

/// Computes the integer square root of `n` by bisection.
pub fn isqrt(n: u64) -> (r: u64)
    ensures
        is_sqrt(n as int, r as int),
        r == sqrt_spec(n as int),
{
    let mut lo: u64 = 0;
    let mut hi: u64 = 4_294_967_296;
    assert(4_294_967_296int * 4_294_967_296int > n);
    while hi - lo > 1
        invariant
            lo < hi <= 4_294_967_296,
            lo * lo <= n < hi * hi,
        decreases hi - lo,
    {
        let mid: u64 = lo + (hi - lo) / 2;
        assert(mid * mid <= 4_294_967_295int * 4_294_967_295int) by (nonlinear_arith)
            requires
                0 <= mid <= 4_294_967_295,
        ;
        if mid * mid <= n {
            lo = mid;
        } else {
            hi = mid;
        }
    }
    proof {
        assert(is_sqrt(n as int, lo as int));
        lemma_sqrt_unique(n as int, lo as int, sqrt_spec(n as int));
    }
    lo
}

} // verus!
