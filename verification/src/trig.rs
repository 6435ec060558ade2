//! Sine and cosine of a bounce angle, in fixed point.
//!
//! The sine is the Taylor polynomial of degree nine, evaluated by Horner's
//! rule with every intermediate product rounded toward zero, and saturated at
//! the sine of the steepest bounce angle. The cosine is the integer square
//! root of what the sine leaves of the unit circle, so the pair is a unit
//! vector up to the rounding of that root.

use vstd::prelude::*;
use crate::config::{MAX_BALL_BOUNCE_ANGLE, MAX_BALL_BOUNCE_SINE, MIN_HEADING_COSINE};
use crate::fixed::{
    is_sqrt, isqrt, lemma_mul_spec, lemma_sqrt_exists, lemma_sqrt_unique, mul_fixed, mul_spec,
    sqrt_spec, ONE,
};

verus! {

/// The square of the fixed-point 1, in squared raw units.
pub open spec fn one_squared() -> int {
    ONE * ONE
}

/// `x - x^3/3! + x^5/5! - x^7/7! + x^9/9!` at `x = a`, by Horner's rule in
/// fixed point.
pub open spec fn sine_series(a: int) -> int {
    let z = mul_spec(a, a);
    let t4 = ONE - z / 72;
    let t3 = ONE - mul_spec(z, t4) / 42;
    let t2 = ONE - mul_spec(z, t3) / 20;
    let t1 = ONE - mul_spec(z, t2) / 6;
    mul_spec(a, t1)
}

/// The sine of the angle `a` (radians), saturated at the sine of the steepest
/// bounce angle.
pub open spec fn sine_spec(a: int) -> int {
    let s = sine_series(a);
    if s > MAX_BALL_BOUNCE_SINE {
        MAX_BALL_BOUNCE_SINE as int
    } else if s < -MAX_BALL_BOUNCE_SINE {
        -MAX_BALL_BOUNCE_SINE
    } else {
        s
    }
}

/// The cosine of the angle `a` (radians), for an angle between -75 and 75
/// degrees: the non-negative number that completes `sine_spec(a)` to a unit
/// vector.
pub open spec fn cosine_spec(a: int) -> int {
    sqrt_spec(one_squared() - sine_spec(a) * sine_spec(a))
}

/// Whether `a` is an angle at which the ball can leave a paddle.
pub open spec fn is_bounce_angle(a: int) -> bool {
    -MAX_BALL_BOUNCE_ANGLE <= a <= MAX_BALL_BOUNCE_ANGLE
}

/// The sine is odd, vanishes at 0 and stays within the sine of the steepest
/// bounce angle.
pub proof fn lemma_sine(a: int)
    ensures
        sine_spec(-a) == -sine_spec(a),
        sine_spec(0) == 0,
        -MAX_BALL_BOUNCE_SINE <= sine_spec(a) <= MAX_BALL_BOUNCE_SINE,
{
    assert((-a) * (-a) == a * a) by (nonlinear_arith);
    let z = mul_spec(a, a);
    let t4 = ONE - z / 72;
    let t3 = ONE - mul_spec(z, t4) / 42;
    let t2 = ONE - mul_spec(z, t3) / 20;
    let t1 = ONE - mul_spec(z, t2) / 6;
    lemma_mul_spec(a, t1);
    lemma_mul_spec(0, 0);
    let u1 = ONE - mul_spec(0, ONE - mul_spec(0, ONE - mul_spec(0, ONE - 0int / 72) / 42) / 20) / 6;
    lemma_mul_spec(0, u1);
    lemma_mul_spec(u1, 0);
}

/// The cosine of a bounce angle is at least the cosine of 75 degrees, at most
/// 1, exactly 1 at angle 0, even, and completes the sine to a vector whose
/// squared length is within `2 * ONE` below that of a unit vector.
pub proof fn lemma_cosine(a: int)
    ensures
        is_sqrt(one_squared() - sine_spec(a) * sine_spec(a), cosine_spec(a)),
        MIN_HEADING_COSINE <= cosine_spec(a) <= ONE,
        cosine_spec(-a) == cosine_spec(a),
        cosine_spec(0) == ONE,
        one_squared() - 2 * ONE < cosine_spec(a) * cosine_spec(a) + sine_spec(a) * sine_spec(a)
            <= one_squared(),
{
    lemma_sine(a);
    let s = sine_spec(a);
    let n = one_squared() - s * s;
    assert(0 <= s * s <= 965_926int * 965_926int) by (nonlinear_arith)
        requires
            -965_926 <= s <= 965_926,
    ;
    lemma_sqrt_exists(n);
    let c = cosine_spec(a);
    assert(is_sqrt(n, c));
    assert(c >= 258_818) by (nonlinear_arith)
        requires
            c >= 0,
            n < (c + 1) * (c + 1),
            n >= 258_818int * 258_818int,
    ;
    assert(c <= ONE) by (nonlinear_arith)
        requires
            c >= 0,
            c * c <= n,
            n <= 1_000_000int * 1_000_000int,
            ONE == 1_000_000,
    ;
    assert((c + 1) * (c + 1) == c * c + 2 * c + 1) by (nonlinear_arith);
    if c == ONE {
        assert(c * c == one_squared()) by (nonlinear_arith)
            requires
                c == ONE,
                one_squared() == ONE * ONE,
        ;
    }
    assert((-s) * (-s) == s * s) by (nonlinear_arith);
    assert(is_sqrt(one_squared(), ONE as int)) by (nonlinear_arith)
        requires
            ONE == 1_000_000,
            one_squared() == ONE * ONE,
    ;
    lemma_sqrt_exists(one_squared());
    lemma_sqrt_unique(one_squared(), ONE as int, sqrt_spec(one_squared()));
    lemma_sine(0);
    assert(0int * 0int == 0) by (nonlinear_arith);
}

/// One step of Horner's rule in fixed point, against the same step in exact
/// arithmetic.
///
/// With `z` the rounded square of the angle and `t_next` the value of the
/// inner bracket, the step computes `t = ONE - ((z * t_next) / ONE) / c`. If
/// the inner bracket stands for the exact fraction `e_next / p_next`, off by
/// `d_next / p_next`, then `t` stands for the exact fraction `ek / pk`, off by
/// `dk / pk`, and `dk` is bounded as stated.
proof fn lemma_horner_stage(a2: int, t_next: int, e_next: int, p_next: int, c: int)
    requires
        0 <= a2,
        0 <= t_next <= ONE,
        p_next > 0,
        c > 0,
    ensures
        ({
            let m = ONE as int;
            let z = a2 / m;
            let t = m - ((z * t_next) / m) / c;
            let d_next = p_next * t_next - e_next;
            let pk = c * m * m * p_next;
            let dk = pk * t - (pk * m - a2 * e_next);
            &&& -(a2 * d_next) <= dk <= -(a2 * d_next) + (c + 1) * m * m * p_next
            &&& t <= m
            &&& z <= c * m ==> 0 <= t
        }),
{
    let m = ONE as int;
    let z = a2 / m;
    let r0 = a2 % m;
    let q = z * t_next;
    let p = q / m;
    let r2 = q % m;
    let f = p / c;
    let r1 = p % c;
    let t = m - f;
    let w = p_next * t_next;
    let d_next = w - e_next;
    let u = m * m * p_next;
    let pk = c * m * m * p_next;
    let dk = pk * t - (pk * m - a2 * e_next);
    assert(a2 == m * z + r0 && 0 <= r0 < m && z >= 0);
    assert(q >= 0) by (nonlinear_arith)
        requires
            q == z * t_next,
            z >= 0,
            t_next >= 0,
    ;
    assert(q == m * p + r2 && 0 <= r2 < m && p >= 0);
    assert(p == c * f + r1 && 0 <= r1 < c && f >= 0) by (nonlinear_arith)
        requires
            p >= 0,
            c > 0,
            f == p / c,
            r1 == p % c,
    ;
    assert(pk == c * u) by (nonlinear_arith)
        requires
            pk == c * m * m * p_next,
            u == m * m * p_next,
    ;
    // dk = a2 * e_next - pk * f
    assert(dk == a2 * e_next - pk * f) by (nonlinear_arith)
        requires
            dk == pk * t - (pk * m - a2 * e_next),
            t == m - f,
    ;
    // pk * f = u * (p - r1)
    assert(pk * f == u * p - u * r1) by (nonlinear_arith)
        requires
            pk == c * u,
            p == c * f + r1,
    ;
    // u * p = p_next * m * (m * p) = p_next * m * (q - r2)
    assert(u * p == m * p_next * q - m * p_next * r2) by (nonlinear_arith)
        requires
            u == m * m * p_next,
            q == m * p + r2,
    ;
    // m * p_next * q = (m * z) * (p_next * t_next) = (a2 - r0) * w
    assert(m * p_next * q == a2 * w - r0 * w) by (nonlinear_arith)
        requires
            q == z * t_next,
            w == p_next * t_next,
            a2 == m * z + r0,
    ;
    assert(a2 * e_next - a2 * w == -(a2 * d_next)) by (nonlinear_arith)
        requires
            d_next == w - e_next,
    ;
    assert(dk == -(a2 * d_next) + r0 * w + m * p_next * r2 + u * r1);
    assert(0 <= w <= p_next * m) by (nonlinear_arith)
        requires
            w == p_next * t_next,
            0 <= t_next <= m,
            p_next > 0,
    ;
    assert(0 <= r0 * w <= m * (p_next * m)) by (nonlinear_arith)
        requires
            0 <= r0 < m,
            0 <= w <= p_next * m,
    ;
    assert(m * (p_next * m) == u) by (nonlinear_arith)
        requires
            u == m * m * p_next,
    ;
    assert(0 <= m * p_next * r2 <= u) by (nonlinear_arith)
        requires
            0 <= r2 < m,
            p_next > 0,
            m > 0,
            u == m * m * p_next,
    ;
    assert(0 <= u * r1 <= u * (c - 1)) by (nonlinear_arith)
        requires
            0 <= r1 <= c - 1,
            u >= 0,
    ;
    assert(u * (c - 1) + u + u == (c + 1) * u) by (nonlinear_arith);
    assert((c + 1) * u == (c + 1) * m * m * p_next) by (nonlinear_arith)
        requires
            u == m * m * p_next,
    ;
    if z <= c * m {
        assert(q <= z * m) by (nonlinear_arith)
            requires
                q == z * t_next,
                z >= 0,
                0 <= t_next <= m,
        ;
        assert(p <= z);
        assert(f <= m) by (nonlinear_arith)
            requires
                p == c * f + r1,
                r1 >= 0,
                p <= c * m,
                c > 0,
        ;
    }
}

/// Scales a bound in thousandths through a product with a bounded factor.
proof fn lemma_per_mille_product(x: int, x_max: int, d: int, lo: int, hi: int, p: int)
    by (nonlinear_arith)
    requires
        0 <= x <= x_max,
        lo >= 0,
        hi >= 0,
        p >= 0,
        -(lo * p) <= 1000 * d <= hi * p,
    ensures
        -((x_max * lo) * p) <= 1000 * (x * d) <= (x_max * hi) * p,
{
    assert(x * (1000 * d) <= x * (hi * p));
    assert(x * (hi * p) <= x_max * (hi * p));
    assert(x * (1000 * d) >= x * (-(lo * p)));
    assert(x * (lo * p) <= x_max * (lo * p));
}

/// The denominator over which `sine_taylor_numerator` is to be read:
/// `9! * ONE^8`.
pub open spec fn sine_taylor_denominator() -> int {
    362880_000_000_000_000_000_000_000_000_000_000_000_000_000_000_000_000int
}

/// The polynomial `x - x^3/3! + x^5/5! - x^7/7! + x^9/9!` at `x = a / ONE`,
/// in exact arithmetic, as a multiple of `1 / (9! * ONE^9)`.
pub open spec fn sine_taylor_numerator(a: int) -> int {
    let a2 = a * a;
    a * (362880_000_000_000_000_000_000_000_000_000_000_000_000_000_000_000_000int - a2 * (60480_000_000_000_000_000_000_000_000_000_000_000_000int - a2 * (3024_000_000_000_000_000_000_000_000int - a2 * (72_000_000_000_000 - a2))))
}

/// The series that the sine is computed by is accurate: for a bounce angle
/// `a`, `sine_series(a) / ONE` differs by at most `2 / ONE` from the exact
/// value of `x - x^3/3! + x^5/5! - x^7/7! + x^9/9!` at `x = a / ONE`.
pub proof fn lemma_sine_series_accuracy(a: int)
    requires
        is_bounce_angle(a),
    ensures
        -2 * sine_taylor_denominator() <= sine_series(a) * sine_taylor_denominator()
            - sine_taylor_numerator(a) <= 2 * sine_taylor_denominator(),
{
    if a < 0 {
        lemma_sine_series_accuracy_right(-a);
        assert((-a) * (-a) == a * a) by (nonlinear_arith);
        let a2 = a * a;
        let e = 362880_000_000_000_000_000_000_000_000_000_000_000_000_000_000_000_000int - a2 * (60480_000_000_000_000_000_000_000_000_000_000_000_000int - a2 * (3024_000_000_000_000_000_000_000_000int - a2 * (72_000_000_000_000 - a2)));
        assert((-a) * e == -(a * e)) by (nonlinear_arith);
        lemma_sine_series_odd(a);
        let d = sine_taylor_denominator();
        assert((-sine_series(a)) * d == -(sine_series(a) * d)) by (nonlinear_arith);
    } else {
        lemma_sine_series_accuracy_right(a);
    }
}

/// The series is odd.
proof fn lemma_sine_series_odd(a: int)
    ensures
        sine_series(-a) == -sine_series(a),
{
    assert((-a) * (-a) == a * a) by (nonlinear_arith);
    let z = mul_spec(a, a);
    let t4 = ONE - z / 72;
    let t3 = ONE - mul_spec(z, t4) / 42;
    let t2 = ONE - mul_spec(z, t3) / 20;
    let t1 = ONE - mul_spec(z, t2) / 6;
    lemma_mul_spec(a, t1);
}

/// The accuracy of the series for angles that are not negative.
proof fn lemma_sine_series_accuracy_right(a: int)
    requires
        0 <= a <= MAX_BALL_BOUNCE_ANGLE,
    ensures
        -2 * sine_taylor_denominator() <= sine_series(a) * sine_taylor_denominator()
            - sine_taylor_numerator(a) <= 2 * sine_taylor_denominator(),
{
    let m = ONE as int;
    let a_max = MAX_BALL_BOUNCE_ANGLE as int;
    let a2 = a * a;
    let a2_max = a_max * a_max;
    assert(0 <= a2 <= a2_max) by (nonlinear_arith)
        requires
            0 <= a <= a_max,
            a2 == a * a,
            a2_max == a_max * a_max,
    ;
    assert(a2_max == 1_713_473_146_009);
    let z = a2 / m;
    assert(z == mul_spec(a, a));
    assert(0 <= z <= 1_713_473);
    let den5 = 1int;
    let den4 = 72_000_000_000_000int;
    let den3 = 3024_000_000_000_000_000_000_000_000int;
    let den2 = 60480_000_000_000_000_000_000_000_000_000_000_000_000int;
    let den1 = 362880_000_000_000_000_000_000_000_000_000_000_000_000_000_000_000_000int;

    // innermost bracket: 1 - x^2 / 72
    let t4 = m - z / 72;
    let e5 = m;
    let d5 = den5 * m - e5;
    lemma_horner_stage(a2, m, e5, den5, 72);
    assert((z * m) / m == z);
    assert(72 * m * m * den5 == den4);
    let e4 = den4 * m - a2 * e5;
    let d4 = den4 * t4 - e4;
    assert(a2 * d5 == 0) by (nonlinear_arith)
        requires
            d5 == 0,
    ;
    assert(0 <= 1000 * d4 <= 1014 * den4);

    // 1 - x^2 / 42 * (..)
    assert(z * t4 >= 0) by (nonlinear_arith)
        requires
            z >= 0,
            t4 >= 0,
    ;
    let t3 = m - ((z * t4) / m) / 42;
    assert(t3 == m - mul_spec(z, t4) / 42);
    lemma_horner_stage(a2, t4, e4, den4, 42);
    assert(42 * m * m * den4 == den3);
    let e3 = den3 * m - a2 * e4;
    let d3 = den3 * t3 - e3;
    lemma_per_mille_product(a2, a2_max, d4, 0, 1014, den4);
    assert(-42 * den3 <= 1000 * d3 <= 1024 * den3);

    // 1 - x^2 / 20 * (..)
    assert(z * t3 >= 0) by (nonlinear_arith)
        requires
            z >= 0,
            t3 >= 0,
    ;
    let t2 = m - ((z * t3) / m) / 20;
    assert(t2 == m - mul_spec(z, t3) / 20);
    lemma_horner_stage(a2, t3, e3, den3, 20);
    assert(20 * m * m * den3 == den2);
    let e2 = den2 * m - a2 * e3;
    let d2 = den2 * t2 - e2;
    lemma_per_mille_product(a2, a2_max, d3, 42, 1024, den3);
    assert(-88 * den2 <= 1000 * d2 <= 1054 * den2);

    // 1 - x^2 / 6 * (..)
    assert(z * t2 >= 0) by (nonlinear_arith)
        requires
            z >= 0,
            t2 >= 0,
    ;
    let t1 = m - ((z * t2) / m) / 6;
    assert(t1 == m - mul_spec(z, t2) / 6);
    lemma_horner_stage(a2, t2, e2, den2, 6);
    assert(6 * m * m * den2 == den1);
    let e1 = den1 * m - a2 * e2;
    let d1 = den1 * t1 - e1;
    lemma_per_mille_product(a2, a2_max, d2, 88, 1054, den2);
    assert(-302 * den1 <= 1000 * d1 <= 1192 * den1);

    // x * (..)
    assert(a * t1 >= 0) by (nonlinear_arith)
        requires
            a >= 0,
            t1 >= 0,
    ;
    let s = (a * t1) / m;
    assert(s == sine_series(a));
    let r = (a * t1) % m;
    assert(s * m == a * t1 - r && 0 <= r < m);
    lemma_per_mille_product(a, a_max, d1, 302, 1192, den1);

    // the exact brackets, each scaled by ONE
    let b4 = den4 - a2;
    let b3 = den3 - a2 * b4;
    let b2 = den2 - a2 * b3;
    let b1 = den1 - a2 * b2;
    assert(e4 == m * b4);
    assert(e3 == m * b3) by (nonlinear_arith)
        requires
            e3 == den3 * m - a2 * e4,
            e4 == m * b4,
            b3 == den3 - a2 * b4,
    ;
    assert(e2 == m * b2) by (nonlinear_arith)
        requires
            e2 == den2 * m - a2 * e3,
            e3 == m * b3,
            b2 == den2 - a2 * b3,
    ;
    assert(e1 == m * b1) by (nonlinear_arith)
        requires
            e1 == den1 * m - a2 * e2,
            e2 == m * b2,
            b1 == den1 - a2 * b2,
    ;
    let n = a * b1;
    assert(n == sine_taylor_numerator(a));
    // (s * den1 - n) * m = a * d1 - den1 * r
    assert((s * den1 - n) * m == a * d1 - den1 * r) by (nonlinear_arith)
        requires
            s * m == a * t1 - r,
            d1 == den1 * t1 - e1,
            e1 == m * b1,
            n == a * b1,
    ;
    assert(0 <= den1 * r <= den1 * m) by (nonlinear_arith)
        requires
            0 <= r < m,
            den1 > 0,
    ;
    let x = s * den1 - n;
    assert(-2 * den1 <= x <= 2 * den1) by {
        assert(1000 * (x * m) <= (a_max * 1192) * den1);
        assert(1000 * (x * m) >= -((a_max * 302) * den1) - 1000 * (den1 * m));
        assert(x * m <= 2 * den1 * m);
        assert(x * m >= -2 * den1 * m);
    }
}

/// Computes the sine of a bounce angle.
pub fn sine(a: i64) -> (s: i64)
    requires
        is_bounce_angle(a as int),
    ensures
        s == sine_spec(a as int),
{
    proof {
        assert(0 <= a * a <= 1_308_997int * 1_308_997int) by (nonlinear_arith)
            requires
                -1_308_997 <= a <= 1_308_997,
        ;
    }
    let z: i64 = mul_fixed(a, a);
    assert(0 <= z <= 1_713_474);
    let t4: i64 = ONE - z / 72;
    proof {
        lemma_mul_spec(t4 as int, z as int);
    }
    let t3: i64 = ONE - mul_fixed(z, t4) / 42;
    proof {
        lemma_mul_spec(t3 as int, z as int);
    }
    let t2: i64 = ONE - mul_fixed(z, t3) / 20;
    proof {
        lemma_mul_spec(t2 as int, z as int);
    }
    let t1: i64 = ONE - mul_fixed(z, t2) / 6;
    proof {
        lemma_mul_spec(t1 as int, a as int);
        lemma_mul_spec(a as int, t1 as int);
    }
    let s: i64 = mul_fixed(a, t1);
    if s > MAX_BALL_BOUNCE_SINE {
        MAX_BALL_BOUNCE_SINE
    } else if s < -MAX_BALL_BOUNCE_SINE {
        -MAX_BALL_BOUNCE_SINE
    } else {
        s
    }
}

/// Computes the cosine of a bounce angle.
pub fn cosine(a: i64) -> (c: i64)
    requires
        is_bounce_angle(a as int),
    ensures
        c == cosine_spec(a as int),
{
    let s: i64 = sine(a);
    proof {
        lemma_sine(a as int);
        lemma_cosine(a as int);
        assert(0 <= s * s <= 965_926int * 965_926int) by (nonlinear_arith)
            requires
                -965_926 <= s <= 965_926,
        ;
    }
    let rest: i64 = ONE * ONE - s * s;
    let c: u64 = isqrt(rest as u64);
    c as i64
}

} // verus!
