//! The match: its state, its rules, and the step that advances it by one
//! frame.

use vstd::prelude::*;
use crate::ball::Ball;
use crate::camera::Camera;
use crate::config::{
    INITIAL_PLAYER1_X, INITIAL_PLAYER2_X, INITIAL_PLAYER_Y, MAX_GAME_TIME, MAX_PADDLE_HALF_SIZE,
    SCREEN_CENTER_X, SCREEN_CENTER_Y, SCREEN_WIDTH, WINNING_SCORE,
};
use crate::fixed::{div_fixed, div_spec, lemma_div_spec, ONE};
use crate::player::{rect_has_point, Player, Players};
use crate::random::random_bool;
use crate::vector::Vector2;

verus! {

/// Where the match stands.
#[derive(Clone, Copy, Debug, PartialEq, Eq, Structural)]
pub enum GameState {
    /// Before the first rally: everything rests until play is confirmed.
    Ready,
    /// A rally is on.
    Playing,
    /// A player has won: everything rests until a new match is confirmed.
    End,
}

/// The whole of the game: clock, state, players, ball and camera.
#[derive(Clone, Copy, Debug, PartialEq, Eq, Structural)]
pub struct GameApp {
    /// Microseconds since the game was created.
    pub game_time: u64,
    pub state: GameState,
    pub player1: Player,
    pub player2: Player,
    pub ball: Ball,
    pub last_round_winner: Players,
    pub camera: Camera,
}

/// The offset, from -1 to 1, at which `ball` strikes the paddle of `player`:
/// its height above or below the paddle's centre, as a fraction of the
/// paddle's half-height.
pub open spec fn hit_ratio_spec(ball: Ball, player: Player) -> int {
    div_spec(ball.pos.y - player.pos.y, player.half_size.y as int)
}

/// Where `ball` strikes a paddle, if it does: it must be inside the paddle
/// and moving toward the side that the paddle guards. The left paddle is
/// asked first.
pub open spec fn contact_spec(ball: Ball, player1: Player, player2: Player) -> Option<int> {
    if player1.covers(ball.pos) && ball.direction.x < 0 {
        Some(hit_ratio_spec(ball, player1))
    } else if player2.covers(ball.pos) && ball.direction.x > 0 {
        Some(hit_ratio_spec(ball, player2))
    } else {
        None
    }
}

/// A ball inside a valid paddle strikes it at an offset between -1 and 1,
/// and at 0 when it is level with the paddle's centre.
pub proof fn lemma_hit_ratio(ball: Ball, player: Player)
    requires
        player.half_size.y > 0,
        player.covers(ball.pos),
    ensures
        -ONE <= hit_ratio_spec(ball, player) <= ONE,
        ball.pos.y == player.pos.y ==> hit_ratio_spec(ball, player) == 0,
{
    lemma_div_spec(ball.pos.y - player.pos.y, player.half_size.y as int);
}

impl GameApp {
    /// How far above and below its centre the taller of the paddles
    /// reaches.
    pub open spec fn paddle_reach(self) -> int {
        if self.player1.half_size.y >= self.player2.half_size.y {
            self.player1.half_size.y as int
        } else {
            self.player2.half_size.y as int
        }
    }

    /// The state of a game in the middle of a frame is valid when its parts
    /// are valid, the clock has not passed its limit, the ball is within
    /// bounds, no score is beyond the winning score and a match that is not
    /// over has no winner yet.
    pub open spec fn in_flight(self) -> bool {
        &&& self.game_time <= MAX_GAME_TIME
        &&& self.player1.wf()
        &&& self.player2.wf()
        &&& self.ball.wf()
        &&& self.ball.in_bounds(self.paddle_reach())
        &&& self.camera.wf()
        &&& self.player1.score <= WINNING_SCORE
        &&& self.player2.score <= WINNING_SCORE
        &&& !(self.state is End) ==> {
            &&& self.player1.score < WINNING_SCORE
            &&& self.player2.score < WINNING_SCORE
        }
    }

    /// The state of a game between frames is valid when it is valid in the
    /// middle of a frame and, unless the match is over, the ball is level
    /// with the field.
    pub open spec fn wf(self) -> bool {
        &&& self.in_flight()
        &&& !(self.state is End) ==> 0 <= self.ball.pos.x <= SCREEN_WIDTH
    }

    /// Tells whether the state of the game is valid.
    pub fn is_valid(&self) -> (valid: bool)
        ensures
            valid == self.wf(),
    {
        if !self.player1.is_valid() || !self.player2.is_valid() {
            return false;
        }
        let reach: i64 = if self.player1.half_size.y >= self.player2.half_size.y {
            self.player1.half_size.y
        } else {
            self.player2.half_size.y
        };
        let on = match self.state {
            GameState::End => false,
            _ => true,
        };
        self.game_time <= MAX_GAME_TIME && self.ball.is_valid() && self.ball.is_in_bounds(reach)
            && self.camera.is_valid() && self.player1.score <= WINNING_SCORE
            && self.player2.score <= WINNING_SCORE && (!on || (self.player1.score < WINNING_SCORE
            && self.player2.score < WINNING_SCORE && 0 <= self.ball.pos.x && self.ball.pos.x
            <= SCREEN_WIDTH))
    }

    /// The game before its first frame, with the first serve going to the
    /// right if `serve_right` and to the left otherwise, and the camera's
    /// noise seeded from `seed`.
    pub open spec fn with_serve_spec(
        serve_right: bool,
        seed: u32,
        half_size1: Vector2,
        half_size2: Vector2,
    ) -> GameApp {
        GameApp {
            game_time: 0,
            state: GameState::Ready,
            player1: Player {
                score: 0,
                pos: Vector2 { x: INITIAL_PLAYER1_X, y: INITIAL_PLAYER_Y },
                half_size: half_size1,
            },
            player2: Player {
                score: 0,
                pos: Vector2 { x: INITIAL_PLAYER2_X, y: INITIAL_PLAYER_Y },
                half_size: half_size2,
            },
            ball: Ball::served_spec(
                if serve_right {
                    Players::Player1
                } else {
                    Players::Player2
                },
            ),
            last_round_winner: Players::Player1,
            camera: Camera::with_seed_spec(
                Vector2 { x: SCREEN_CENTER_X, y: SCREEN_CENTER_Y },
                seed,
            ),
        }
    }

    /// Whether the half-extents of a paddle are positive and within the
    /// limit.
    pub open spec fn valid_half_size(half_size: Vector2) -> bool {
        &&& 0 < half_size.x <= MAX_PADDLE_HALF_SIZE
        &&& 0 < half_size.y <= MAX_PADDLE_HALF_SIZE
    }

    /// Sets up a game whose first serve and whose noise seed are given.
    ///
    /// The paddles are at their initial positions with the given
    /// half-extents, the ball rests at the centre, nobody has scored, and the
    /// game waits in `Ready`.
    pub fn with_serve(serve_right: bool, seed: u32, half_size1: Vector2, half_size2: Vector2) -> (game:
        GameApp)
        requires
            GameApp::valid_half_size(half_size1),
            GameApp::valid_half_size(half_size2),
        ensures
            game == GameApp::with_serve_spec(serve_right, seed, half_size1, half_size2),
            game.wf(),
    {
        let first = if serve_right {
            Players::Player1
        } else {
            Players::Player2
        };
        proof {
            Ball::lemma_served(first, half_size1.y as int);
            Ball::lemma_served(first, half_size2.y as int);
        }
        GameApp {
            game_time: 0,
            state: GameState::Ready,
            player1: Player::new(
                Vector2 { x: INITIAL_PLAYER1_X, y: INITIAL_PLAYER_Y },
                half_size1,
            ),
            player2: Player::new(
                Vector2 { x: INITIAL_PLAYER2_X, y: INITIAL_PLAYER_Y },
                half_size2,
            ),
            ball: Ball::served(first),
            last_round_winner: Players::Player1,
            camera: Camera::with_seed(Vector2 { x: SCREEN_CENTER_X, y: SCREEN_CENTER_Y }, seed),
        }
    }

    /// Sets up a game whose first serve goes left or right by chance, and
    /// whose camera noise is seeded by chance.
    pub fn create(half_size1: Vector2, half_size2: Vector2) -> (game: GameApp)
        requires
            GameApp::valid_half_size(half_size1),
            GameApp::valid_half_size(half_size2),
        ensures
            game == GameApp::with_serve_spec(
                game.ball.direction.x > 0,
                game.camera.seed_x,
                half_size1,
                half_size2,
            ),
            game.wf(),
    {
        let serve_right = random_bool();
        let first = if serve_right {
            Players::Player1
        } else {
            Players::Player2
        };
        proof {
            Ball::lemma_served(first, half_size1.y as int);
            Ball::lemma_served(first, half_size2.y as int);
        }
        GameApp {
            game_time: 0,
            state: GameState::Ready,
            player1: Player::new(
                Vector2 { x: INITIAL_PLAYER1_X, y: INITIAL_PLAYER_Y },
                half_size1,
            ),
            player2: Player::new(
                Vector2 { x: INITIAL_PLAYER2_X, y: INITIAL_PLAYER_Y },
                half_size2,
            ),
            ball: Ball::served(first),
            last_round_winner: Players::Player1,
            camera: Camera::new(Vector2 { x: SCREEN_CENTER_X, y: SCREEN_CENTER_Y }),
        }
    }

    /// Tells whether the ball strikes a paddle and, if so, where: at an
    /// offset from -1 (top edge) through 0 (centre) to 1 (bottom edge).
    pub fn did_ball_hit_paddle(&self) -> (hit: Option<i64>)
        requires
            self.player1.half_size.y > 0,
            self.player2.half_size.y > 0,
        ensures
            hit matches Some(ratio) ==> contact_spec(self.ball, self.player1, self.player2) == Some(
                ratio as int,
            ) && -ONE <= ratio <= ONE,
            hit is None ==> contact_spec(self.ball, self.player1, self.player2) is None,
    {
        if rect_has_point(self.player1.pos, self.player1.half_size, self.ball.pos)
            && self.ball.direction.x < 0 {
            proof {
                lemma_hit_ratio(self.ball, self.player1);
            }
            let distance: i64 = self.ball.pos.y - self.player1.pos.y;
            Some(div_fixed(distance, self.player1.half_size.y))
        } else if rect_has_point(self.player2.pos, self.player2.half_size, self.ball.pos)
            && self.ball.direction.x > 0 {
            proof {
                lemma_hit_ratio(self.ball, self.player2);
            }
            let distance: i64 = self.ball.pos.y - self.player2.pos.y;
            Some(div_fixed(distance, self.player2.half_size.y))
        } else {
            None
        }
    }
}

} // verus!
