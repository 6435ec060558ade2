use pong::ball::{serve_direction, Ball};
use pong::camera::{Camera, MAX_SHAKE_OFFSET};
use pong::config::{
    INITIAL_BALL_SPEED, INITIAL_BALL_X, INITIAL_BALL_Y, MAX_BALL_SPEED, MAX_GAME_TIME,
    SCREEN_HEIGHT,
};
use pong::fixed::ONE;
use pong::player::{rect_has_point, Player, Players};
use pong::vector::Vector2;

fn px(n: i64) -> i64 {
    n * ONE
}

fn ball(x: i64, y: i64, dx: i64, dy: i64, speed: i64) -> Ball {
    Ball { pos: Vector2 { x, y }, direction: Vector2 { x: dx, y: dy }, speed }
}

fn norm_squared(v: Vector2) -> i128 {
    (v.x as i128) * (v.x as i128) + (v.y as i128) * (v.y as i128)
}

#[test]
fn rect_has_point_inside_and_outside() {
    let centre = Vector2 { x: px(67), y: px(200) };
    let half = Vector2 { x: px(4), y: px(20) };
    assert!(rect_has_point(centre, half, Vector2 { x: px(67), y: px(200) }));
    assert!(rect_has_point(centre, half, Vector2 { x: px(65), y: px(185) }));
    assert!(!rect_has_point(centre, half, Vector2 { x: px(72), y: px(200) }));
    assert!(!rect_has_point(centre, half, Vector2 { x: px(67), y: px(221) }));
    assert!(!rect_has_point(centre, half, Vector2 { x: px(62), y: px(200) }));
    assert!(!rect_has_point(centre, half, Vector2 { x: px(67), y: px(179) }));
}

#[test]
fn rect_has_point_includes_all_four_edges() {
    let centre = Vector2 { x: px(67), y: px(200) };
    let half = Vector2 { x: px(4), y: px(20) };
    assert!(rect_has_point(centre, half, Vector2 { x: px(63), y: px(200) }));
    assert!(rect_has_point(centre, half, Vector2 { x: px(71), y: px(200) }));
    assert!(rect_has_point(centre, half, Vector2 { x: px(67), y: px(180) }));
    assert!(rect_has_point(centre, half, Vector2 { x: px(67), y: px(220) }));
    assert!(rect_has_point(centre, half, Vector2 { x: px(71), y: px(220) }));
    assert!(!rect_has_point(centre, half, Vector2 { x: px(71) + 1, y: px(220) }));
    assert!(!rect_has_point(centre, half, Vector2 { x: px(63) - 1, y: px(200) }));
    assert!(!rect_has_point(centre, half, Vector2 { x: px(67), y: px(180) - 1 }));
}

#[test]
fn rect_has_point_at_the_ends_of_the_range() {
    let centre = Vector2 { x: i64::MAX, y: i64::MIN };
    let half = Vector2 { x: i64::MAX, y: i64::MAX };
    assert!(rect_has_point(centre, half, Vector2 { x: i64::MAX, y: -1 }));
    assert!(!rect_has_point(centre, half, Vector2 { x: -1, y: 0 }));
}

#[test]
fn player_new_has_no_points() {
    let p = Player::new(Vector2 { x: px(67), y: px(200) }, Vector2 { x: px(4), y: px(20) });
    assert_eq!(p.score, 0);
    assert_eq!(p.pos, Vector2 { x: px(67), y: px(200) });
    assert_eq!(p.half_size, Vector2 { x: px(4), y: px(20) });
}

#[test]
fn paddle_moves_at_150_pixels_per_second() {
    let mut p = Player::new(Vector2 { x: px(67), y: px(200) }, Vector2 { x: px(4), y: px(20) });
    p.steer(true, false, 100_000);
    assert_eq!(p.pos.y, px(185));
    p.steer(false, true, 200_000);
    assert_eq!(p.pos.y, px(215));
    assert_eq!(p.pos.x, px(67));
}

#[test]
fn paddle_with_both_keys_held_stays() {
    let mut p = Player::new(Vector2 { x: px(67), y: px(200) }, Vector2 { x: px(4), y: px(20) });
    p.steer(true, true, 100_000);
    assert_eq!(p.pos.y, px(200));
}

#[test]
fn paddle_without_keys_stays() {
    let mut p = Player::new(Vector2 { x: px(67), y: px(200) }, Vector2 { x: px(4), y: px(20) });
    p.steer(false, false, 1_000_000);
    assert_eq!(p.pos.y, px(200));
}

#[test]
fn paddle_stops_at_the_edges_of_the_field() {
    let mut p = Player::new(Vector2 { x: px(67), y: px(10) }, Vector2 { x: px(4), y: px(20) });
    p.steer(true, false, 1_000_000);
    assert_eq!(p.pos.y, 0);
    p.steer(true, false, 1_000_000);
    assert_eq!(p.pos.y, 0);
    p.steer(false, true, u32::MAX);
    assert_eq!(p.pos.y, SCREEN_HEIGHT);
    p.steer(false, true, 1_000_000);
    assert_eq!(p.pos.y, SCREEN_HEIGHT);
}

#[test]
fn serve_goes_toward_the_loser() {
    assert_eq!(serve_direction(Players::Player1), Vector2 { x: ONE, y: 0 });
    assert_eq!(serve_direction(Players::Player2), Vector2 { x: -ONE, y: 0 });
    let b = Ball::served(Players::Player2);
    assert_eq!(b.pos, Vector2 { x: INITIAL_BALL_X, y: INITIAL_BALL_Y });
    assert_eq!(b.speed, INITIAL_BALL_SPEED);
    assert_eq!(b.direction, Vector2 { x: -ONE, y: 0 });
}

#[test]
fn ball_moves_by_direction_times_speed_times_time() {
    let mut b = ball(px(320), px(200), 600_000, -800_000, px(100));
    b.integrate(500_000);
    assert_eq!(b.pos, Vector2 { x: px(350), y: px(160) });
    assert_eq!(b.direction, Vector2 { x: 600_000, y: -800_000 });
    assert_eq!(b.speed, px(100));
}

#[test]
fn ball_does_not_move_in_no_time() {
    let mut b = ball(px(320), px(200), 600_000, -800_000, px(100));
    b.integrate(0);
    assert_eq!(b.pos, Vector2 { x: px(320), y: px(200) });
}

#[test]
fn ball_at_top_speed_for_the_longest_frame() {
    let mut b = ball(0, 0, ONE, 0, MAX_BALL_SPEED);
    b.integrate(u32::MAX);
    assert_eq!(b.pos.x, 4_294_967_295_000_000);
    assert_eq!(b.pos.y, 0);
}

#[test]
fn ball_turns_back_at_the_top() {
    let mut b = ball(px(100), -1, 600_000, -800_000, px(100));
    b.reflect();
    assert_eq!(b.direction, Vector2 { x: 600_000, y: 800_000 });
    assert_eq!(b.pos, Vector2 { x: px(100), y: -1 });
    assert_eq!(b.speed, px(100));
}

#[test]
fn ball_turns_back_at_the_bottom() {
    let mut b = ball(px(100), SCREEN_HEIGHT + 1, 600_000, 800_000, px(100));
    b.reflect();
    assert_eq!(b.direction, Vector2 { x: 600_000, y: -800_000 });
}

#[test]
fn ball_reflects_once_per_crossing() {
    let mut b = ball(px(100), -px(3), 600_000, -800_000, px(100));
    b.reflect();
    let once = b;
    b.reflect();
    assert_eq!(b, once);
    assert_eq!(b.direction.y, 800_000);
}

#[test]
fn ball_on_the_edge_or_heading_back_is_left_alone() {
    let mut b = ball(px(100), 0, 600_000, -800_000, px(100));
    b.reflect();
    assert_eq!(b.direction.y, -800_000);
    let mut b = ball(px(100), SCREEN_HEIGHT, 600_000, 800_000, px(100));
    b.reflect();
    assert_eq!(b.direction.y, 800_000);
    let mut b = ball(px(100), -px(5), 600_000, 800_000, px(100));
    b.reflect();
    assert_eq!(b.direction.y, 800_000);
    let mut b = ball(px(100), SCREEN_HEIGHT + px(5), 600_000, -800_000, px(100));
    b.reflect();
    assert_eq!(b.direction.y, -800_000);
}

#[test]
fn bounce_at_the_centre_sends_the_ball_straight_back() {
    let mut b = ball(px(67), px(200), -ONE, 0, px(100));
    b.bounce(0);
    assert_eq!(b.direction, Vector2 { x: ONE, y: 0 });
    assert_eq!(b.speed, px(110));
    assert_eq!(b.pos, Vector2 { x: px(67), y: px(200) });
    let mut b = ball(px(573), px(200), 600_000, 800_000, px(100));
    b.bounce(0);
    assert_eq!(b.direction, Vector2 { x: -ONE, y: 0 });
}

#[test]
fn bounce_at_the_edge_leaves_at_75_degrees() {
    let mut b = ball(px(67), px(220), -ONE, 0, px(100));
    b.bounce(ONE);
    let sin75 = (75.0f64).to_radians().sin() * 1e6;
    let cos75 = (75.0f64).to_radians().cos() * 1e6;
    assert!((b.direction.y as f64 - sin75).abs() <= 4.0);
    assert!((b.direction.x as f64 - cos75).abs() <= 20.0);
    let mut b = ball(px(573), px(180), ONE, 0, px(100));
    b.bounce(-ONE);
    assert!((b.direction.y as f64 + sin75).abs() <= 4.0);
    assert!((b.direction.x as f64 + cos75).abs() <= 20.0);
}

#[test]
fn bounce_gives_a_unit_direction_for_every_offset() {
    let one = (ONE as i128) * (ONE as i128);
    let mut r = -ONE;
    while r <= ONE {
        for dx in [-ONE, ONE, 600_000, -258_818] {
            let mut b = ball(px(67), px(200), dx, 0, px(100));
            b.bounce(r);
            let n = norm_squared(b.direction);
            assert!(n <= one && n > one - 2 * ONE as i128, "offset {}", r);
            assert_eq!(b.direction.x > 0, dx < 0);
            let angle = (r as f64 / 1e6) * (75.0f64).to_radians();
            assert!((b.direction.y as f64 - angle.sin() * 1e6).abs() <= 5.0);
            assert!((b.direction.x.abs() as f64 - angle.cos() * 1e6).abs() <= 20.0);
        }
        r += 1009;
    }
}

#[test]
fn bounce_without_horizontal_motion_has_no_horizontal_direction() {
    let mut b = ball(px(67), px(200), 0, ONE, px(100));
    b.bounce(500_000);
    assert_eq!(b.direction.x, 0);
}

#[test]
fn bounce_speeds_up_by_a_tenth_up_to_the_limit() {
    let mut b = ball(px(67), px(200), -ONE, 0, px(110));
    b.bounce(0);
    assert_eq!(b.speed, px(121));
    let mut b = ball(px(67), px(200), -ONE, 0, MAX_BALL_SPEED - 1);
    b.bounce(0);
    assert_eq!(b.speed, MAX_BALL_SPEED);
    b.bounce(0);
    assert_eq!(b.speed, MAX_BALL_SPEED);
    let mut b = ball(px(67), px(200), -ONE, 0, 1);
    b.bounce(0);
    assert_eq!(b.speed, 1);
}

#[test]
fn camera_with_seed_is_calm_and_seeds_differ() {
    let c = Camera::with_seed(Vector2 { x: px(320), y: px(200) }, 41);
    assert_eq!(c.trauma, 0);
    assert_eq!(c.pos, Vector2 { x: px(320), y: px(200) });
    assert_eq!(c.seed_x, 41);
    assert_eq!(c.seed_y, 42);
    let c = Camera::with_seed(Vector2 { x: 0, y: 0 }, u32::MAX);
    assert_eq!(c.seed_x, u32::MAX);
    assert_eq!(c.seed_y, 0);
}

#[test]
fn camera_new_is_calm_and_seeds_follow() {
    for _ in 0..20 {
        let c = Camera::new(Vector2 { x: px(320), y: px(200) });
        assert_eq!(c.trauma, 0);
        assert_eq!(c.pos, Vector2 { x: px(320), y: px(200) });
        assert_eq!(c.seed_y, c.seed_x.wrapping_add(1));
        assert_ne!(c.seed_x, c.seed_y);
    }
}

#[test]
fn camera_new_draws_its_seed() {
    let first = Camera::new(Vector2 { x: 0, y: 0 }).seed_x;
    let mut differs = false;
    for _ in 0..64 {
        if Camera::new(Vector2 { x: 0, y: 0 }).seed_x != first {
            differs = true;
        }
    }
    assert!(differs);
}

#[test]
fn trauma_adds_up_to_one() {
    let mut c = Camera::with_seed(Vector2 { x: 0, y: 0 }, 7);
    c.add_trauma(500_000);
    assert_eq!(c.trauma, 500_000);
    c.add_trauma(300_000);
    assert_eq!(c.trauma, 800_000);
    c.add_trauma(500_000);
    assert_eq!(c.trauma, ONE);
    for _ in 0..10 {
        c.add_trauma(500_000);
        assert_eq!(c.trauma, ONE);
    }
    c.add_trauma(i64::MAX);
    assert_eq!(c.trauma, ONE);
    c.add_trauma(0);
    assert_eq!(c.trauma, ONE);
}

#[test]
fn trauma_decays_by_half_a_unit_per_second_down_to_zero() {
    let mut c = Camera::with_seed(Vector2 { x: 0, y: 0 }, 7);
    c.add_trauma(500_000);
    c.update_trauma(200_000);
    assert_eq!(c.trauma, 400_000);
    c.update_trauma(0);
    assert_eq!(c.trauma, 400_000);
    c.update_trauma(1_000_000);
    assert_eq!(c.trauma, 0);
    c.update_trauma(u32::MAX);
    assert_eq!(c.trauma, 0);
}

#[test]
fn calm_camera_is_not_displaced() {
    let c = Camera::with_seed(Vector2 { x: 0, y: 0 }, 7);
    assert_eq!(c.offset(900_000, -900_000), Vector2 { x: 0, y: 0 });
}

#[test]
fn camera_offset_is_trauma_squared_times_thirty_times_noise() {
    let mut c = Camera::with_seed(Vector2 { x: 0, y: 0 }, 7);
    c.add_trauma(500_000);
    // 0.25 * 30 * 0.5 and 0.25 * 30 * -1
    assert_eq!(c.offset(500_000, -1_000_000), Vector2 { x: 3_750_000, y: -7_500_000 });
    c.add_trauma(500_000);
    assert_eq!(c.offset(1_000_000, 250_000), Vector2 { x: 30_000_000, y: 7_500_000 });
}

#[test]
fn camera_offset_takes_every_sample() {
    let mut c = Camera::with_seed(Vector2 { x: 0, y: 0 }, 7);
    c.add_trauma(ONE);
    let v = c.offset(i32::MIN, i32::MAX);
    assert_eq!(v.x, -MAX_SHAKE_OFFSET);
    assert_eq!(v.y, 64_424_509_410);
}

#[test]
fn barely_shaken_camera_is_not_displaced() {
    let mut c = Camera::with_seed(Vector2 { x: 0, y: 0 }, 7);
    c.add_trauma(999);
    assert_eq!(c.offset(1_000_000, 1_000_000), Vector2 { x: 0, y: 0 });
}

#[test]
fn noise_is_sampled_three_units_per_second() {
    assert_eq!(Camera::sample_point(0), 0);
    assert_eq!(Camera::sample_point(1_000_000), 3_000_000);
    assert_eq!(Camera::sample_point(1_234_567), 3_703_701);
    assert_eq!(Camera::sample_point(MAX_GAME_TIME), 9_000_000_000_000_000_000);
}
