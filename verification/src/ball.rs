//! The ball: motion, reflection off the walls and bounce off a paddle.

use vstd::prelude::*;
use crate::config::{
    BALL_SPEEDUP, INITIAL_BALL_SPEED, INITIAL_BALL_X, INITIAL_BALL_Y, MAX_BALL_BOUNCE_ANGLE,
    MAX_BALL_SPEED, MAX_COORDINATE, MAX_FRAME_TRAVEL, MAX_PADDLE_HALF_SIZE, MIN_HEADING_COSINE,
    SCREEN_HEIGHT, SCREEN_WIDTH,
};
use crate::fixed::{
    abs_spec, lemma_mul_spec, lemma_mul_spec_bound, lemma_mul_spec_monotonic, mul_fixed, mul_spec,
    signum_spec, ONE,
};
use crate::player::Players;
use crate::trig::{
    cosine, cosine_spec, is_bounce_angle, lemma_cosine, lemma_sine, one_squared, sine, sine_spec,
};
use crate::vector::Vector2;

verus! {

/// The ball.
///
/// `direction` is a unit vector and `speed` the distance covered per second
/// along it.
#[derive(Clone, Copy, Debug, PartialEq, Eq, Structural)]
pub struct Ball {
    pub pos: Vector2,
    pub direction: Vector2,
    pub speed: i64,
}

/// Whether `v` has length 1, up to the rounding of a square root: its squared
/// length is at most that of a unit vector and less than `2 * ONE` below it.
pub open spec fn is_unit(v: Vector2) -> bool {
    one_squared() - 2 * ONE < v.norm_squared() <= one_squared()
}

/// Whether `v` is a direction the ball can have: a unit vector that is not
/// steeper than the steepest bounce angle.
pub open spec fn is_heading(v: Vector2) -> bool {
    &&& is_unit(v)
    &&& abs_spec(v.x as int) >= MIN_HEADING_COSINE
}

/// The components of a unit vector are at most 1 in magnitude.
pub proof fn lemma_unit_components(v: Vector2)
    requires
        is_unit(v),
    ensures
        -ONE <= v.x <= ONE,
        -ONE <= v.y <= ONE,
{
    let x = v.x as int;
    let y = v.y as int;
    assert(-1_000_000 <= x <= 1_000_000 && -1_000_000 <= y <= 1_000_000) by (nonlinear_arith)
        requires
            x * x + y * y <= 1_000_000int * 1_000_000int,
    ;
}

/// The sign of `a`: -1, 0 or 1.
pub fn signum(a: i64) -> (s: i64)
    ensures
        s == signum_spec(a as int),
{
    if a > 0 {
        1
    } else if a < 0 {
        -1
    } else {
        0
    }
}

/// The unit vector along which the ball is served after `winner` took a
/// point: toward the side that lost it.
pub open spec fn serve_direction_spec(winner: Players) -> Vector2 {
    match winner {
        Players::Player1 => Vector2 { x: ONE, y: 0 },
        Players::Player2 => Vector2 { x: (-ONE) as i64, y: 0 },
    }
}

/// The direction of a serve after `winner` took a point.
pub fn serve_direction(winner: Players) -> (v: Vector2)
    ensures
        v == serve_direction_spec(winner),
        is_heading(v),
{
    assert(ONE * ONE + 0 * 0 == one_squared() && (-ONE) * (-ONE) + 0 * 0 == one_squared())
        by (nonlinear_arith)
        requires
            one_squared() == ONE * ONE,
    ;
    match winner {
        Players::Player1 => Vector2 { x: ONE, y: 0 },
        Players::Player2 => Vector2 { x: -ONE, y: 0 },
    }
}

impl Ball {
    /// A ball is valid when its coordinates are within the limit, its speed
    /// is positive and within the limit, and its direction is a heading.
    pub open spec fn wf(self) -> bool {
        &&& -MAX_COORDINATE <= self.pos.x <= MAX_COORDINATE
        &&& -MAX_COORDINATE <= self.pos.y <= MAX_COORDINATE
        &&& 0 < self.speed <= MAX_BALL_SPEED
        &&& is_heading(self.direction)
    }

    /// Whether the ball is where straight motion, the walls and paddles that
    /// reach `reach` above and below their centres can have brought it: no
    /// further beyond the field than one frame carries it, plus, above and
    /// below, the reach of a paddle; and beyond the reach of the paddles
    /// only while heading back.
    pub open spec fn in_bounds(self, reach: int) -> bool {
        &&& -MAX_FRAME_TRAVEL <= self.pos.x <= SCREEN_WIDTH + MAX_FRAME_TRAVEL
        &&& -(reach + MAX_FRAME_TRAVEL) <= self.pos.y <= SCREEN_HEIGHT + reach + MAX_FRAME_TRAVEL
        &&& self.direction.y < 0 ==> self.pos.y >= -reach
        &&& self.direction.y > 0 ==> self.pos.y <= SCREEN_HEIGHT + reach
    }

    /// Tells whether the ball is valid.
    pub fn is_valid(&self) -> (valid: bool)
        ensures
            valid == self.wf(),
    {
        let d = self.direction;
        if d.x < -ONE || d.x > ONE || d.y < -ONE || d.y > ONE {
            proof {
                if is_unit(d) {
                    lemma_unit_components(d);
                }
            }
            return false;
        }
        assert(0 <= d.x * d.x <= 1_000_000_000_000 && 0 <= d.y * d.y <= 1_000_000_000_000)
            by (nonlinear_arith)
            requires
                -1_000_000 <= d.x <= 1_000_000,
                -1_000_000 <= d.y <= 1_000_000,
        ;
        let norm: i64 = d.x * d.x + d.y * d.y;
        let unit = ONE * ONE - 2 * ONE < norm && norm <= ONE * ONE;
        let steep = -MIN_HEADING_COSINE < d.x && d.x < MIN_HEADING_COSINE;
        -MAX_COORDINATE <= self.pos.x && self.pos.x <= MAX_COORDINATE && -MAX_COORDINATE
            <= self.pos.y && self.pos.y <= MAX_COORDINATE && 0 < self.speed && self.speed
            <= MAX_BALL_SPEED && unit && !steep
    }

    /// Tells whether the ball is within bounds, for paddles that reach
    /// `reach` above and below their centres.
    pub fn is_in_bounds(&self, reach: i64) -> (inside: bool)
        requires
            0 <= reach <= MAX_PADDLE_HALF_SIZE,
        ensures
            inside == self.in_bounds(reach as int),
    {
        -MAX_FRAME_TRAVEL <= self.pos.x && self.pos.x <= SCREEN_WIDTH + MAX_FRAME_TRAVEL && -(reach
            + MAX_FRAME_TRAVEL) <= self.pos.y && self.pos.y <= SCREEN_HEIGHT + reach
            + MAX_FRAME_TRAVEL && (self.direction.y >= 0 || self.pos.y >= -reach) && (
        self.direction.y <= 0 || self.pos.y <= SCREEN_HEIGHT + reach)
    }

    /// The ball as it is served after `winner` took a point: at the centre,
    /// at the initial speed, toward the side that lost the point.
    pub open spec fn served_spec(winner: Players) -> Ball {
        Ball {
            pos: Vector2 { x: INITIAL_BALL_X, y: INITIAL_BALL_Y },
            direction: serve_direction_spec(winner),
            speed: INITIAL_BALL_SPEED,
        }
    }

    /// Serves the ball after `winner` took a point.
    pub fn served(winner: Players) -> (ball: Ball)
        ensures
            ball == Ball::served_spec(winner),
            ball.wf(),
    {
        Ball {
            pos: Vector2 { x: INITIAL_BALL_X, y: INITIAL_BALL_Y },
            direction: serve_direction(winner),
            speed: INITIAL_BALL_SPEED,
        }
    }

    /// A served ball is valid and within bounds, whatever the reach of the
    /// paddles.
    pub proof fn lemma_served(winner: Players, reach: int)
        requires
            0 <= reach <= MAX_PADDLE_HALF_SIZE,
        ensures
            Ball::served_spec(winner).wf(),
            Ball::served_spec(winner).in_bounds(reach),
    {
        assert(ONE * ONE + 0 * 0 == one_squared() && (-ONE) * (-ONE) + 0 * 0 == one_squared())
            by (nonlinear_arith)
            requires
                one_squared() == ONE * ONE,
        ;
    }

    /// The distance along each axis that the ball covers in `dt`
    /// microseconds: `direction * speed * dt`, rounded after each product.
    pub open spec fn travel_spec(self, dt: int) -> (int, int) {
        (
            mul_spec(mul_spec(self.direction.x as int, self.speed as int), dt),
            mul_spec(mul_spec(self.direction.y as int, self.speed as int), dt),
        )
    }

    /// The ball after `dt` microseconds of straight motion.
    pub open spec fn integrate_spec(self, dt: int) -> Ball {
        Ball {
            pos: Vector2 {
                x: (self.pos.x + self.travel_spec(dt).0) as i64,
                y: (self.pos.y + self.travel_spec(dt).1) as i64,
            },
            ..self
        }
    }

    /// In one frame a valid ball travels at most `MAX_FRAME_TRAVEL` along
    /// each axis, in the direction of its heading, and not at all in a frame
    /// of no duration.
    pub proof fn lemma_travel(self, dt: int)
        requires
            self.wf(),
            0 <= dt <= u32::MAX,
        ensures
            abs_spec(self.travel_spec(dt).0) <= MAX_FRAME_TRAVEL,
            abs_spec(self.travel_spec(dt).1) <= MAX_FRAME_TRAVEL,
            self.direction.x >= 0 ==> self.travel_spec(dt).0 >= 0,
            self.direction.x <= 0 ==> self.travel_spec(dt).0 <= 0,
            self.direction.y >= 0 ==> self.travel_spec(dt).1 >= 0,
            self.direction.y <= 0 ==> self.travel_spec(dt).1 <= 0,
            self.travel_spec(0) == (0int, 0int),
    {
        lemma_unit_components(self.direction);
        let vx = mul_spec(self.direction.x as int, self.speed as int);
        let vy = mul_spec(self.direction.y as int, self.speed as int);
        lemma_mul_spec(self.direction.x as int, self.speed as int);
        lemma_mul_spec(self.direction.y as int, self.speed as int);
        lemma_mul_spec_bound(vx, dt, MAX_BALL_SPEED as int, u32::MAX as int);
        lemma_mul_spec_bound(vy, dt, MAX_BALL_SPEED as int, u32::MAX as int);
        lemma_mul_spec(vx, dt);
        lemma_mul_spec(vy, dt);
        assert(mul_spec(MAX_BALL_SPEED as int, u32::MAX as int) == MAX_FRAME_TRAVEL) by {
            assert(MAX_BALL_SPEED * u32::MAX == 4_294_967_295_000_000_000_000);
        }
    }

    /// Moves the ball along its direction for `dt` microseconds.
    pub fn integrate(&mut self, dt: u32)
        requires
            old(self).wf(),
        ensures
            *final(self) == old(self).integrate_spec(dt as int),
            final(self).pos.x == old(self).pos.x + old(self).travel_spec(dt as int).0,
            final(self).pos.y == old(self).pos.y + old(self).travel_spec(dt as int).1,
    {
        proof {
            self.lemma_travel(dt as int);
            lemma_unit_components(self.direction);
            lemma_mul_spec(self.direction.x as int, self.speed as int);
            lemma_mul_spec(self.direction.y as int, self.speed as int);
        }
        let velocity = self.direction.scale(self.speed);
        let travel = velocity.scale(dt as i64);
        self.pos = self.pos.add(travel);
    }

    /// Whether the ball is past the top edge and still moving up, or past the
    /// bottom edge and still moving down.
    pub open spec fn hits_wall(self) -> bool {
        ||| self.pos.y < 0 && self.direction.y < 0
        ||| self.pos.y > SCREEN_HEIGHT && self.direction.y > 0
    }

    /// The ball after the walls had their say: heading back into the field
    /// if it was leaving it, untouched otherwise.
    pub open spec fn reflect_spec(self) -> Ball {
        if self.hits_wall() {
            Ball { direction: Vector2 { x: self.direction.x, y: (-self.direction.y) as i64 }, ..self }
        } else {
            self
        }
    }

    /// A reflection leaves a ball that the walls have nothing more to say
    /// to: reflecting twice is reflecting once. It keeps position, speed,
    /// horizontal direction and the length of the direction.
    pub proof fn lemma_reflect(self)
        requires
            -ONE <= self.direction.y <= ONE,
        ensures
            !self.reflect_spec().hits_wall(),
            self.reflect_spec().reflect_spec() == self.reflect_spec(),
            self.reflect_spec().pos == self.pos,
            self.reflect_spec().speed == self.speed,
            self.reflect_spec().direction.x == self.direction.x,
            self.reflect_spec().direction.y == self.direction.y || self.reflect_spec().direction.y
                == -self.direction.y,
            self.reflect_spec().direction.norm_squared() == self.direction.norm_squared(),
            is_heading(self.direction) ==> is_heading(self.reflect_spec().direction),
    {
        let y = self.direction.y as int;
        assert((-y) * (-y) == y * y) by (nonlinear_arith);
    }

    /// Turns the ball back into the field if it is leaving it through the top
    /// or the bottom. Position, speed and horizontal direction are kept.
    pub fn reflect(&mut self)
        requires
            -ONE <= old(self).direction.y <= ONE,
        ensures
            *final(self) == old(self).reflect_spec(),
            !final(self).hits_wall(),
            final(self).direction.norm_squared() == old(self).direction.norm_squared(),
    {
        proof {
            self.lemma_reflect();
        }
        if (self.pos.y < 0 && self.direction.y < 0) || (self.pos.y > SCREEN_HEIGHT
            && self.direction.y > 0) {
            self.direction.y = -self.direction.y;
        }
    }

    /// The angle at which the ball leaves a paddle that it struck at the
    /// offset `ratio`, from -1 at one edge through 0 at the centre to 1 at the
    /// other edge.
    pub open spec fn bounce_angle(ratio: int) -> int {
        mul_spec(ratio, MAX_BALL_BOUNCE_ANGLE as int)
    }

    /// The speed after a paddle hit at `speed`: a tenth more, up to the
    /// limit.
    pub open spec fn sped_up(speed: int) -> int {
        let faster = mul_spec(speed, BALL_SPEEDUP as int);
        if faster > MAX_BALL_SPEED {
            MAX_BALL_SPEED as int
        } else {
            faster
        }
    }

    /// The ball after it bounced off a paddle that it struck at the offset
    /// `ratio`: it leaves at `bounce_angle(ratio)` to the horizontal, on the
    /// side opposite to the one it came from, and faster.
    pub open spec fn bounce_spec(self, ratio: int) -> Ball {
        let angle = Ball::bounce_angle(ratio);
        Ball {
            pos: self.pos,
            direction: Vector2 {
                x: (cosine_spec(angle) * -signum_spec(self.direction.x as int)) as i64,
                y: sine_spec(angle) as i64,
            },
            speed: Ball::sped_up(self.speed as int) as i64,
        }
    }

    /// The bounce angle of an offset between -1 and 1 is a bounce angle, and
    /// 0 for the offset 0.
    pub proof fn lemma_bounce_angle(ratio: int)
        requires
            -ONE <= ratio <= ONE,
        ensures
            is_bounce_angle(Ball::bounce_angle(ratio)),
            Ball::bounce_angle(0) == 0,
    {
        lemma_mul_spec(ratio, MAX_BALL_BOUNCE_ANGLE as int);
        lemma_mul_spec(MAX_BALL_BOUNCE_ANGLE as int, 0);
    }

    /// A paddle hit never slows the ball down, and keeps its speed within the
    /// limit.
    pub proof fn lemma_sped_up(speed: int)
        requires
            0 < speed <= MAX_BALL_SPEED,
        ensures
            speed <= Ball::sped_up(speed) <= MAX_BALL_SPEED,
            mul_spec(speed, BALL_SPEEDUP as int) <= 1_100_000_000_000,
    {
        lemma_mul_spec_monotonic(ONE as int, BALL_SPEEDUP as int, speed);
        lemma_mul_spec(speed, ONE as int);
        lemma_mul_spec_monotonic(speed, MAX_BALL_SPEED as int, BALL_SPEEDUP as int);
        assert(mul_spec(MAX_BALL_SPEED as int, BALL_SPEEDUP as int) == 1_100_000_000_000) by {
            assert(MAX_BALL_SPEED * BALL_SPEEDUP == 1_100_000_000_000_000_000);
        }
    }

    /// For every offset between -1 and 1, a ball with horizontal motion
    /// leaves the paddle along a unit vector: its direction after the bounce
    /// is a heading, on the side opposite to the one it came from, as steep
    /// as the bounce angle says and level for a hit at the centre. The ball
    /// stays where it is and gets no slower.
    pub proof fn lemma_bounce(self, ratio: int)
        requires
            -ONE <= ratio <= ONE,
            0 < self.speed <= MAX_BALL_SPEED,
        ensures
            self.direction.x != 0 ==> is_heading(self.bounce_spec(ratio).direction),
            self.direction.x > 0 ==> self.bounce_spec(ratio).direction.x == -cosine_spec(
                Ball::bounce_angle(ratio),
            ),
            self.direction.x < 0 ==> self.bounce_spec(ratio).direction.x == cosine_spec(
                Ball::bounce_angle(ratio),
            ),
            self.direction.x == 0 ==> self.bounce_spec(ratio).direction.x == 0,
            self.bounce_spec(ratio).direction.y == sine_spec(Ball::bounce_angle(ratio)),
            self.direction.x < 0 ==> self.bounce_spec(0).direction == (Vector2 { x: ONE, y: 0 }),
            self.direction.x > 0 ==> self.bounce_spec(0).direction == (Vector2 {
                x: (-ONE) as i64,
                y: 0,
            }),
            self.bounce_spec(ratio).pos == self.pos,
            self.speed <= self.bounce_spec(ratio).speed <= MAX_BALL_SPEED,
            self.bounce_spec(ratio).speed == Ball::sped_up(self.speed as int),
    {
        Ball::lemma_bounce_angle(ratio);
        Ball::lemma_sped_up(self.speed as int);
        let angle = Ball::bounce_angle(ratio);
        lemma_cosine(angle);
        lemma_sine(angle);
        lemma_cosine(0);
        lemma_sine(0);
        let c = cosine_spec(angle);
        assert(c * 1 == c && c * -1 == -c && c * 0 == 0) by (nonlinear_arith);
        assert((-c) * (-c) == c * c) by (nonlinear_arith);
        let c0 = cosine_spec(0);
        assert(c0 * 1 == c0 && c0 * -1 == -c0) by (nonlinear_arith);
    }

    /// Bounces the ball off a paddle that it struck at the offset `ratio`.
    ///
    /// Unless the ball had no horizontal motion at all, the new direction is
    /// again a heading: a unit vector, not steeper than the steepest bounce
    /// angle.
    pub fn bounce(&mut self, ratio: i64)
        requires
            -ONE <= ratio <= ONE,
            0 < old(self).speed <= MAX_BALL_SPEED,
        ensures
            *final(self) == old(self).bounce_spec(ratio as int),
            old(self).direction.x != 0 ==> is_heading(final(self).direction),
            old(self).direction.x > 0 ==> final(self).direction.x < 0,
            old(self).direction.x < 0 ==> final(self).direction.x > 0,
            old(self).speed <= final(self).speed <= MAX_BALL_SPEED,
    {
        proof {
            self.lemma_bounce(ratio as int);
            Ball::lemma_bounce_angle(ratio as int);
            Ball::lemma_sped_up(self.speed as int);
            lemma_cosine(Ball::bounce_angle(ratio as int));
        }
        let new_x_multiplier: i64 = -signum(self.direction.x);
        let angle: i64 = mul_fixed(ratio, MAX_BALL_BOUNCE_ANGLE);
        let c: i64 = cosine(angle);
        let s: i64 = sine(angle);
        assert(c * 1 == c && c * -1 == -c && c * 0 == 0) by (nonlinear_arith);
        self.direction.x = c * new_x_multiplier;
        self.direction.y = s;
        let faster: i64 = mul_fixed(self.speed, BALL_SPEEDUP);
        self.speed = if faster > MAX_BALL_SPEED {
            MAX_BALL_SPEED
        } else {
            faster
        };
    }
}

} // verus!
