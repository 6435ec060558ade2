use pong::ball::signum;
use pong::config::{MAX_BALL_BOUNCE_ANGLE, MAX_BALL_BOUNCE_SINE};
use pong::fixed::{div_fixed, isqrt, mul_fixed, ONE};
use pong::trig::{cosine, sine};
use pong::vector::Vector2;

#[test]
fn product_of_halves_is_a_quarter() {
    assert_eq!(mul_fixed(500_000, 500_000), 250_000);
}

#[test]
fn product_rounds_toward_zero() {
    assert_eq!(mul_fixed(3, 333_333), 0);
    assert_eq!(mul_fixed(-3, 333_333), 0);
    assert_eq!(mul_fixed(1_500_000, 1_000_001), 1_500_001);
    assert_eq!(mul_fixed(-1_500_000, 1_000_001), -1_500_001);
    assert_eq!(mul_fixed(1_999_999, 500_000), 999_999);
    assert_eq!(mul_fixed(-1_999_999, 500_000), -999_999);
}

#[test]
fn product_with_one_is_identity() {
    assert_eq!(mul_fixed(123_456_789, ONE), 123_456_789);
    assert_eq!(mul_fixed(ONE, -42), -42);
}

#[test]
fn product_takes_wide_factors() {
    // 1e6 px/s for 4294.967295 s
    assert_eq!(mul_fixed(1_000_000_000_000, 4_294_967_295), 4_294_967_295_000_000);
}

#[test]
fn quotient_of_one_by_four() {
    assert_eq!(div_fixed(ONE, 4 * ONE), 250_000);
    assert_eq!(div_fixed(-ONE, 4 * ONE), -250_000);
}

#[test]
fn quotient_rounds_toward_zero() {
    assert_eq!(div_fixed(ONE, 3 * ONE), 333_333);
    assert_eq!(div_fixed(-ONE, 3 * ONE), -333_333);
    assert_eq!(div_fixed(2 * ONE, 3 * ONE), 666_666);
}

#[test]
fn quotient_of_equal_numbers_is_one() {
    assert_eq!(div_fixed(20_000_000, 20_000_000), ONE);
    assert_eq!(div_fixed(-20_000_000, 20_000_000), -ONE);
}

#[test]
fn isqrt_of_squares_and_neighbours() {
    assert_eq!(isqrt(0), 0);
    assert_eq!(isqrt(1), 1);
    assert_eq!(isqrt(3), 1);
    assert_eq!(isqrt(4), 2);
    assert_eq!(isqrt(1_000_000_000_000), 1_000_000);
    assert_eq!(isqrt(999_999_999_999), 999_999);
    assert_eq!(isqrt(u64::MAX), 4_294_967_295);
}

#[test]
fn signum_of_each_sign() {
    assert_eq!(signum(17), 1);
    assert_eq!(signum(-17), -1);
    assert_eq!(signum(0), 0);
}

#[test]
fn sine_of_zero_is_zero_and_cosine_one() {
    assert_eq!(sine(0), 0);
    assert_eq!(cosine(0), ONE);
}

#[test]
fn sine_is_odd_and_cosine_even() {
    for a in [1, 1000, 261_799, 654_498, 1_000_000, MAX_BALL_BOUNCE_ANGLE] {
        assert_eq!(sine(-a), -sine(a));
        assert_eq!(cosine(-a), cosine(a));
    }
}

#[test]
fn sine_agrees_with_floating_point() {
    let mut a = -MAX_BALL_BOUNCE_ANGLE;
    while a <= MAX_BALL_BOUNCE_ANGLE {
        let exact = (a as f64 / 1e6).sin() * 1e6;
        let got = sine(a) as f64;
        assert!((got - exact).abs() <= 4.0, "sine({}) = {}, expected {}", a, got, exact);
        a += 997;
    }
}

#[test]
fn cosine_agrees_with_floating_point() {
    let mut a = -MAX_BALL_BOUNCE_ANGLE;
    while a <= MAX_BALL_BOUNCE_ANGLE {
        let exact = (a as f64 / 1e6).cos() * 1e6;
        let got = cosine(a) as f64;
        assert!((got - exact).abs() <= 20.0, "cosine({}) = {}, expected {}", a, got, exact);
        a += 997;
    }
}

#[test]
fn sine_of_thirty_degrees_is_a_half() {
    // pi / 6 = 0.523599 rad
    let s = sine(523_599);
    assert!((s - 500_000).abs() <= 2, "got {}", s);
}

#[test]
fn sine_stays_within_sine_of_steepest_angle() {
    assert!(sine(MAX_BALL_BOUNCE_ANGLE) <= MAX_BALL_BOUNCE_SINE);
    assert!(sine(MAX_BALL_BOUNCE_ANGLE) >= MAX_BALL_BOUNCE_SINE - 4);
    assert!(sine(-MAX_BALL_BOUNCE_ANGLE) >= -MAX_BALL_BOUNCE_SINE);
}

#[test]
fn sine_and_cosine_make_a_unit_vector() {
    let mut a = -MAX_BALL_BOUNCE_ANGLE;
    while a <= MAX_BALL_BOUNCE_ANGLE {
        let s = sine(a) as i128;
        let c = cosine(a) as i128;
        let n = s * s + c * c;
        let one = (ONE as i128) * (ONE as i128);
        assert!(n <= one && n > one - 2 * ONE as i128, "angle {}", a);
        a += 1303;
    }
}

#[test]
fn vector_new_and_zero() {
    let v = Vector2::new(3, -4);
    assert_eq!(v.x, 3);
    assert_eq!(v.y, -4);
    assert_eq!(Vector2::zero(), Vector2 { x: 0, y: 0 });
}

#[test]
fn vector_add_is_componentwise() {
    let v = Vector2::new(1_000_000, -2_000_000).add(Vector2::new(250_000, 500_000));
    assert_eq!(v, Vector2 { x: 1_250_000, y: -1_500_000 });
}

#[test]
fn vector_scale_is_componentwise() {
    let v = Vector2::new(-1_000_000, 600_000).scale(100_000_000);
    assert_eq!(v, Vector2 { x: -100_000_000, y: 60_000_000 });
}
