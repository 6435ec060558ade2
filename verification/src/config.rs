//! The constants of the game, in fixed-point units: pixels, seconds, pixels
//! per second and radians, each counted in millionths.

use vstd::prelude::*;

verus! {

/// Width of the playfield.
pub const SCREEN_WIDTH: i64 = 640_000_000;

/// Height of the playfield.
pub const SCREEN_HEIGHT: i64 = 400_000_000;

/// Horizontal centre of the playfield, where the camera rests.
pub const SCREEN_CENTER_X: i64 = 320_000_000;

/// Vertical centre of the playfield, where the camera rests.
pub const SCREEN_CENTER_Y: i64 = 200_000_000;

/// Width of the window at scale 1, in whole pixels.
pub const WINDOW_WIDTH: u32 = 640;

/// Height of the window at scale 1, in whole pixels.
pub const WINDOW_HEIGHT: u32 = 400;

/// Speed of the ball at every serve, in pixels per second.
pub const INITIAL_BALL_SPEED: i64 = 100_000_000;

/// Horizontal position of the ball at every serve.
pub const INITIAL_BALL_X: i64 = 320_000_000;

/// Vertical position of the ball at every serve.
pub const INITIAL_BALL_Y: i64 = 200_000_000;

/// Horizontal position of the left paddle.
pub const INITIAL_PLAYER1_X: i64 = 67_000_000;

/// Horizontal position of the right paddle.
pub const INITIAL_PLAYER2_X: i64 = 573_000_000;

/// Vertical position of both paddles at the start of a rally.
pub const INITIAL_PLAYER_Y: i64 = 200_000_000;

/// Speed of a paddle while its key is held, in pixels per second.
pub const PADDLE_SPEED: i64 = 150_000_000;

/// The steepest angle at which the ball leaves a paddle: 75 degrees, in
/// radians.
pub const MAX_BALL_BOUNCE_ANGLE: i64 = 1_308_997;

/// The sine of `MAX_BALL_BOUNCE_ANGLE`.
pub const MAX_BALL_BOUNCE_SINE: i64 = 965_926;

/// The cosine of `MAX_BALL_BOUNCE_ANGLE`, rounded down: the smallest
/// horizontal component that the direction of the ball can have.
pub const MIN_HEADING_COSINE: i64 = 258_818;

/// The factor by which the ball speeds up at every paddle hit: 1.1.
pub const BALL_SPEEDUP: i64 = 1_100_000;

/// The fastest the ball can get, in pixels per second. The speed-up at a
/// paddle hit saturates here.
pub const MAX_BALL_SPEED: i64 = 1_000_000_000_000;

/// The furthest the ball can travel in one frame: `MAX_BALL_SPEED` for the
/// longest frame a `u32` of microseconds can express.
pub const MAX_FRAME_TRAVEL: i64 = 4_294_967_295_000_000;

/// The largest magnitude of a coordinate that the simulation accepts.
pub const MAX_COORDINATE: i64 = 1_000_000_000_000_000_000;

/// The largest half-width and half-height a paddle can have.
pub const MAX_PADDLE_HALF_SIZE: i64 = 1_000_000_000_000;

/// The score that wins the match.
pub const WINNING_SCORE: u8 = 11;

/// The trauma that every point scored adds to the camera: 0.5.
pub const SCORE_TRAUMA: i64 = 500_000;

/// The trauma that the camera loses per second: 0.5.
pub const TRAUMA_DECAY_RATE: i64 = 500_000;

/// The furthest the camera is displaced along an axis, in pixels, per unit
/// of noise.
pub const CAMERA_SHAKE_MAX_OFFSET: i64 = 30_000_000;

/// How fast the camera shake runs through the noise field: 3 noise units per
/// second.
pub const CAMERA_SHAKE_FREQUENCY: i64 = 3_000_000;

/// The game clock stops here, in microseconds.
pub const MAX_GAME_TIME: u64 = 3_000_000_000_000_000_000;

} // verus!
