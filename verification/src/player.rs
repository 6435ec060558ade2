//! The two players and their paddles.

use vstd::prelude::*;
use crate::config::{MAX_PADDLE_HALF_SIZE, PADDLE_SPEED, SCREEN_HEIGHT};
use crate::fixed::{lemma_mul_spec, lemma_mul_spec_bound, mul_fixed, mul_spec};
use crate::vector::Vector2;

verus! {

/// The two sides of the match.
#[derive(Clone, Copy, Debug, PartialEq, Eq, Structural)]
pub enum Players {
    Player1,
    Player2,
}

/// A player: a score and a paddle.
///
/// The paddle is the axis-aligned rectangle centred at `pos` that reaches
/// `half_size.x` to either side and `half_size.y` up and down.
#[derive(Clone, Copy, Debug, PartialEq, Eq, Structural)]
pub struct Player {
    pub score: u8,
    pub pos: Vector2,
    pub half_size: Vector2,
}

/// Whether `point` lies in the axis-aligned rectangle centred at `rect_pos`
/// that reaches `half_size.x` to either side and `half_size.y` up and down,
/// edges included.
pub open spec fn rect_has_point_spec(rect_pos: Vector2, half_size: Vector2, point: Vector2) -> bool {
    &&& rect_pos.x - half_size.x <= point.x <= rect_pos.x + half_size.x
    &&& rect_pos.y - half_size.y <= point.y <= rect_pos.y + half_size.y
}

/// Tests whether a point lies in a rectangle given by its centre and its
/// half-extents. Points on the edges are inside.
pub fn rect_has_point(rect_pos: Vector2, half_size: Vector2, point: Vector2) -> (inside: bool)
    ensures
        inside == rect_has_point_spec(rect_pos, half_size, point),
{
    let left: i128 = rect_pos.x as i128 - half_size.x as i128;
    let right: i128 = rect_pos.x as i128 + half_size.x as i128;
    let top: i128 = rect_pos.y as i128 - half_size.y as i128;
    let bottom: i128 = rect_pos.y as i128 + half_size.y as i128;
    left <= point.x as i128 && right >= point.x as i128 && top <= point.y as i128 && bottom
        >= point.y as i128
}

/// How far a paddle travels in `dt` microseconds.
pub open spec fn paddle_travel(dt: int) -> int {
    mul_spec(PADDLE_SPEED as int, dt)
}

/// The height of a paddle at `y` after `dt` microseconds with the given keys
/// held: first up, then down, each only while the paddle is strictly inside
/// the edge it moves toward, and never past that edge.
pub open spec fn steer_spec(y: int, up: bool, down: bool, dt: int) -> int {
    let step = paddle_travel(dt);
    let raised = if y > 0 && up {
        if y - step < 0 {
            0
        } else {
            y - step
        }
    } else {
        y
    };
    if raised < SCREEN_HEIGHT && down {
        if raised + step > SCREEN_HEIGHT {
            SCREEN_HEIGHT as int
        } else {
            raised + step
        }
    } else {
        raised
    }
}

/// A steered paddle stays level with the playfield, and stays where it is
/// in a frame of no duration.
pub proof fn lemma_steer(y: int, up: bool, down: bool, dt: int)
    requires
        0 <= y <= SCREEN_HEIGHT,
        0 <= dt <= u32::MAX,
    ensures
        0 <= steer_spec(y, up, down, dt) <= SCREEN_HEIGHT,
        steer_spec(y, up, down, 0) == y,
        0 <= paddle_travel(dt) <= 644_245_094_250,
{
    lemma_mul_spec_bound(PADDLE_SPEED as int, dt, PADDLE_SPEED as int, u32::MAX as int);
    lemma_mul_spec(PADDLE_SPEED as int, dt);
    assert(mul_spec(PADDLE_SPEED as int, u32::MAX as int) == 644_245_094_250) by {
        assert(PADDLE_SPEED * u32::MAX == 644_245_094_250_000_000);
    }
}

impl Player {
    /// A paddle is valid when it has a positive extent within the limit and
    /// its centre is level with the playfield.
    pub open spec fn wf(self) -> bool {
        &&& 0 < self.half_size.x <= MAX_PADDLE_HALF_SIZE
        &&& 0 < self.half_size.y <= MAX_PADDLE_HALF_SIZE
        &&& 0 <= self.pos.y <= SCREEN_HEIGHT
    }

    /// Tells whether the paddle is valid.
    pub fn is_valid(&self) -> (valid: bool)
        ensures
            valid == self.wf(),
    {
        0 < self.half_size.x && self.half_size.x <= MAX_PADDLE_HALF_SIZE && 0 < self.half_size.y
            && self.half_size.y <= MAX_PADDLE_HALF_SIZE && 0 <= self.pos.y && self.pos.y
            <= SCREEN_HEIGHT
    }

    /// A player without points whose paddle is centred at `pos`.
    pub fn new(pos: Vector2, half_size: Vector2) -> (player: Player)
        ensures
            player.score == 0,
            player.pos == pos,
            player.half_size == half_size,
    {
        Player { score: 0, pos, half_size }
    }

    /// Whether `point` lies in this player's paddle.
    pub open spec fn covers(self, point: Vector2) -> bool {
        rect_has_point_spec(self.pos, self.half_size, point)
    }

    /// Moves the paddle for a frame of `dt` microseconds during which the
    /// given keys were held. The paddle stays level with the playfield.
    pub fn steer(&mut self, up: bool, down: bool, dt: u32)
        requires
            old(self).wf(),
        ensures
            final(self).pos.y == steer_spec(old(self).pos.y as int, up, down, dt as int),
            final(self).pos.x == old(self).pos.x,
            final(self).score == old(self).score,
            final(self).half_size == old(self).half_size,
            final(self).wf(),
    {
        proof {
            lemma_steer(self.pos.y as int, up, down, dt as int);
        }
        let step: i64 = mul_fixed(PADDLE_SPEED, dt as i64);
        if self.pos.y > 0 && up {
            self.pos.y = if self.pos.y - step < 0 {
                0
            } else {
                self.pos.y - step
            };
        }
        if self.pos.y < SCREEN_HEIGHT && down {
            self.pos.y = if self.pos.y + step > SCREEN_HEIGHT {
                SCREEN_HEIGHT
            } else {
                self.pos.y + step
            };
        }
    }
}

} // verus!
