//! One frame of the game.
//!
//! The host hands in the time that has passed and the keys that are down;
//! `GameApp::step` advances the game and hands back what is to be drawn. The
//! order within a frame is fixed: quit, state changes, motion of the ball,
//! walls, paddles, scoring, steering, camera.

use vstd::prelude::*;
use crate::ball::{lemma_unit_components, serve_direction, serve_direction_spec, Ball};
use crate::camera::Camera;
use crate::config::{
    INITIAL_PLAYER1_X, INITIAL_PLAYER2_X, INITIAL_PLAYER_Y, MAX_GAME_TIME, MAX_PADDLE_HALF_SIZE,
    SCORE_TRAUMA, SCREEN_WIDTH, WINDOW_HEIGHT, WINDOW_WIDTH, WINNING_SCORE,
};
use crate::game::{contact_spec, lemma_hit_ratio, GameApp, GameState};
use crate::player::{lemma_steer, steer_spec, Player, Players};
use crate::vector::Vector2;

verus! {

/// What the host has to tell the game at every frame.
#[derive(Clone, Copy, Debug)]
pub struct FrameInput {
    /// Microseconds since the last frame.
    pub dt: u32,
    /// The player asked to leave.
    pub quit: bool,
    /// The player confirmed: start, or start again.
    pub confirm: bool,
    /// The window is to have its natural size.
    pub scale_1: bool,
    /// The window is to have twice its natural size.
    pub scale_2: bool,
    /// The window is to have three times its natural size.
    pub scale_3: bool,
    pub player1_up: bool,
    pub player1_down: bool,
    pub player2_up: bool,
    pub player2_down: bool,
    /// The horizontal noise generator's sample at `GameApp::noise_point`, in
    /// millionths.
    pub noise_x: i32,
    /// The vertical noise generator's sample at `GameApp::noise_point`, in
    /// millionths.
    pub noise_y: i32,
}

/// The line of text that goes with a frame.
#[derive(Clone, Copy, Debug, PartialEq, Eq, Structural)]
pub enum Message {
    /// Nothing: a rally is on.
    Nothing,
    PressSpaceToPlay,
    Player1Wins,
    Player2Wins,
}

/// What the host has to draw after a frame.
#[derive(Clone, Copy, Debug, PartialEq, Eq)]
pub struct Frame {
    pub ball: Vector2,
    pub player1: Vector2,
    pub player2: Vector2,
    pub score1: u8,
    pub score2: u8,
    /// Where the camera is: its resting place plus the shake.
    pub camera: Vector2,
    pub message: Message,
    /// The size, in pixels, that the window is to take, if it is to change.
    pub resize: Option<(u32, u32)>,
}

/// How a frame ended.
#[derive(Clone, Copy, Debug, PartialEq, Eq)]
pub enum StepOutcome {
    /// The player asked to leave: nothing has changed, nothing is to be
    /// drawn.
    Quit,
    Frame(Frame),
}

impl Message {
    /// The text of the message.
    pub open spec fn text_spec(self) -> Seq<char> {
        match self {
            Message::Nothing => ""@,
            Message::PressSpaceToPlay => "Press Space to play!"@,
            Message::Player1Wins => "Player 1 wins!\nPress Space to play again!"@,
            Message::Player2Wins => "Player 2 wins!\nPress Space to play again!"@,
        }
    }

    /// The text of the message; empty while a rally is on.
    pub fn text(&self) -> (s: &'static str)
        ensures
            s@ == self.text_spec(),
    {
        match self {
            Message::Nothing => "",
            Message::PressSpaceToPlay => "Press Space to play!",
            Message::Player1Wins => "Player 1 wins!\nPress Space to play again!",
            Message::Player2Wins => "Player 2 wins!\nPress Space to play again!",
        }
    }
}

/// The window size that the keys ask for, if any: the natural size times 1,
/// 2 or 3, the smallest factor winning.
pub open spec fn resize_spec(input: FrameInput) -> Option<(u32, u32)> {
    if input.scale_1 {
        Some((WINDOW_WIDTH, WINDOW_HEIGHT))
    } else if input.scale_2 {
        Some(((2 * WINDOW_WIDTH) as u32, (2 * WINDOW_HEIGHT) as u32))
    } else if input.scale_3 {
        Some(((3 * WINDOW_WIDTH) as u32, (3 * WINDOW_HEIGHT) as u32))
    } else {
        None
    }
}

/// Tells the window size that the keys ask for, if any.
pub fn resize(input: &FrameInput) -> (size: Option<(u32, u32)>)
    ensures
        size == resize_spec(*input),
{
    if input.scale_1 {
        Some((WINDOW_WIDTH, WINDOW_HEIGHT))
    } else if input.scale_2 {
        Some((2 * WINDOW_WIDTH, 2 * WINDOW_HEIGHT))
    } else if input.scale_3 {
        Some((3 * WINDOW_WIDTH, 3 * WINDOW_HEIGHT))
    } else {
        None
    }
}

/// The ball at the end of a frame of `dt` microseconds in which nobody
/// scores: moved along its direction, turned back by the walls, and bounced
/// off a paddle that it struck.
pub open spec fn ball_after(ball: Ball, player1: Player, player2: Player, dt: int) -> Ball {
    let flown = ball.integrate_spec(dt).reflect_spec();
    match contact_spec(flown, player1, player2) {
        Some(ratio) => flown.bounce_spec(ratio),
        None => flown,
    }
}

/// A frame takes a valid ball within bounds to a valid ball within bounds,
/// no slower than before; in a frame of no duration the ball stays where it
/// is.
pub proof fn lemma_ball_after(ball: Ball, player1: Player, player2: Player, dt: int, reach: int)
    requires
        ball.wf(),
        ball.in_bounds(reach),
        player1.wf(),
        player2.wf(),
        player1.half_size.y <= reach,
        player2.half_size.y <= reach,
        reach <= MAX_PADDLE_HALF_SIZE,
        0 <= dt <= u32::MAX,
        dt == 0 || 0 <= ball.pos.x <= SCREEN_WIDTH,
    ensures
        ball_after(ball, player1, player2, dt).wf(),
        ball_after(ball, player1, player2, dt).in_bounds(reach),
        ball_after(ball, player1, player2, dt).pos == ball.integrate_spec(dt).pos,
        dt == 0 ==> ball_after(ball, player1, player2, dt).pos == ball.pos,
        ball.speed <= ball_after(ball, player1, player2, dt).speed,
        ball.integrate_spec(dt).wf(),
        ball.integrate_spec(dt).reflect_spec().wf(),
{
    ball.lemma_travel(dt);
    lemma_unit_components(ball.direction);
    let moved = ball.integrate_spec(dt);
    moved.lemma_reflect();
    let flown = moved.reflect_spec();
    assert(flown.in_bounds(reach));
    match contact_spec(flown, player1, player2) {
        Some(ratio) => {
            if player1.covers(flown.pos) && flown.direction.x < 0 {
                lemma_hit_ratio(flown, player1);
            } else {
                lemma_hit_ratio(flown, player2);
            }
            flown.lemma_bounce(ratio);
        },
        None => {},
    }
}

impl GameApp {
    /// The clock after `dt` more microseconds: it stops at `MAX_GAME_TIME`.
    pub open spec fn clock_spec(time: int, dt: int) -> int {
        if time + dt > MAX_GAME_TIME {
            MAX_GAME_TIME as int
        } else {
            time + dt
        }
    }

    /// The part of a frame's duration during which the game runs: all of it
    /// while a rally is on, none of it otherwise.
    pub open spec fn effective_dt(self, dt: int) -> int {
        if self.state is Playing {
            dt
        } else {
            0
        }
    }

    /// The message that goes with a frame that begins in this state.
    pub open spec fn message_spec(self) -> Message {
        match self.state {
            GameState::Ready => Message::PressSpaceToPlay,
            GameState::Playing => Message::Nothing,
            GameState::End => match self.last_round_winner {
                Players::Player1 => Message::Player1Wins,
                Players::Player2 => Message::Player2Wins,
            },
        }
    }

    /// The game at the start of a new match: nobody has scored, the paddles
    /// are back at their initial positions, and the ball is served toward
    /// the side that lost the last point.
    pub open spec fn restart_spec(self) -> GameApp {
        GameApp {
            state: GameState::Playing,
            player1: Player {
                score: 0,
                pos: Vector2 { x: INITIAL_PLAYER1_X, y: INITIAL_PLAYER_Y },
                half_size: self.player1.half_size,
            },
            player2: Player {
                score: 0,
                pos: Vector2 { x: INITIAL_PLAYER2_X, y: INITIAL_PLAYER_Y },
                half_size: self.player2.half_size,
            },
            ball: Ball::served_spec(self.last_round_winner),
            ..self
        }
    }

    /// The game after the confirm key was seen or not: from `Ready` a
    /// confirmation starts the first rally, from `End` it starts a new
    /// match, and during a rally it changes nothing.
    pub open spec fn confirm_spec(self, confirm: bool) -> GameApp {
        if !confirm {
            self
        } else {
            match self.state {
                GameState::Ready => GameApp { state: GameState::Playing, ..self },
                GameState::Playing => self,
                GameState::End => self.restart_spec(),
            }
        }
    }

    /// Whether the ball has left the field to the left or to the right.
    pub open spec fn ball_is_out(self) -> bool {
        self.ball.pos.x < 0 || self.ball.pos.x > SCREEN_WIDTH
    }

    /// The player who takes the point when the ball is out: the right one
    /// if it left to the left, the left one otherwise.
    pub open spec fn point_winner(self) -> Players {
        if self.ball.pos.x < 0 {
            Players::Player2
        } else {
            Players::Player1
        }
    }

    /// The game after the point was given for a ball that is out.
    ///
    /// The winner of the point has one point more and is remembered, the
    /// camera is shaken. If that point wins the match, the match ends and the
    /// ball stays where it is, turned toward the loser; if not, the ball is
    /// served toward the loser.
    pub open spec fn point_spec(self) -> GameApp {
        let winner = self.point_winner();
        let score1 = if winner is Player1 {
            self.player1.score + 1
        } else {
            self.player1.score as int
        };
        let score2 = if winner is Player2 {
            self.player2.score + 1
        } else {
            self.player2.score as int
        };
        let over = score1 >= WINNING_SCORE || score2 >= WINNING_SCORE;
        GameApp {
            game_time: self.game_time,
            state: if over {
                GameState::End
            } else {
                self.state
            },
            player1: Player { score: score1 as u8, ..self.player1 },
            player2: Player { score: score2 as u8, ..self.player2 },
            ball: if over {
                Ball { direction: serve_direction_spec(winner), ..self.ball }
            } else {
                Ball::served_spec(winner)
            },
            last_round_winner: winner,
            camera: Camera {
                trauma: Camera::add_trauma_spec(self.camera.trauma as int, SCORE_TRAUMA as int) as i64,
                ..self.camera
            },
        }
    }

    /// The game at the end of a frame that began in the state `self` and
    /// brought the input `input`.
    ///
    /// A frame in which the player asks to leave changes nothing. In every
    /// other frame the clock advances, a confirmation takes effect, and
    /// then, for the effective duration of the frame, the ball moves, the
    /// walls and the paddles turn it, a point is given if the frame had a
    /// duration and the ball is out, the paddles are steered and the camera
    /// calms down.
    pub open spec fn step_spec(self, input: FrameInput) -> GameApp {
        if input.quit {
            self
        } else {
            let dt = self.effective_dt(input.dt as int);
            let begun = GameApp {
                game_time: GameApp::clock_spec(self.game_time as int, input.dt as int) as u64,
                ..self.confirm_spec(input.confirm)
            };
            let flown = GameApp {
                ball: ball_after(begun.ball, begun.player1, begun.player2, dt),
                ..begun
            };
            let scored = if dt > 0 && flown.ball_is_out() {
                flown.point_spec()
            } else {
                flown
            };
            GameApp {
                player1: Player {
                    pos: Vector2 {
                        x: scored.player1.pos.x,
                        y: steer_spec(
                            scored.player1.pos.y as int,
                            input.player1_up,
                            input.player1_down,
                            dt,
                        ) as i64,
                    },
                    ..scored.player1
                },
                player2: Player {
                    pos: Vector2 {
                        x: scored.player2.pos.x,
                        y: steer_spec(
                            scored.player2.pos.y as int,
                            input.player2_up,
                            input.player2_down,
                            dt,
                        ) as i64,
                    },
                    ..scored.player2
                },
                camera: Camera {
                    trauma: Camera::decay_spec(scored.camera.trauma as int, dt) as i64,
                    ..scored.camera
                },
                ..scored
            }
        }
    }

    /// What is to be drawn at the end of a frame that began in the state
    /// `self` and brought the input `input`.
    pub open spec fn frame_spec(self, input: FrameInput) -> Frame {
        let after = self.step_spec(input);
        let offset = after.camera.offset_spec(input.noise_x as int, input.noise_y as int);
        Frame {
            ball: after.ball.pos,
            player1: after.player1.pos,
            player2: after.player2.pos,
            score1: after.player1.score,
            score2: after.player2.score,
            camera: Vector2 {
                x: (after.camera.pos.x + offset.x) as i64,
                y: (after.camera.pos.y + offset.y) as i64,
            },
            message: self.message_spec(),
            resize: resize_spec(input),
        }
    }

    /// How a frame ends that began in the state `self` and brought the input
    /// `input`.
    pub open spec fn outcome_spec(self, input: FrameInput) -> StepOutcome {
        if input.quit {
            StepOutcome::Quit
        } else {
            StepOutcome::Frame(self.frame_spec(input))
        }
    }

    /// A confirmation takes a valid game to a valid game.
    pub proof fn lemma_confirm(self, confirm: bool)
        requires
            self.wf(),
        ensures
            self.confirm_spec(confirm).wf(),
            self.confirm_spec(confirm).paddle_reach() == self.paddle_reach(),
            self.state is Playing ==> self.confirm_spec(confirm) == self,
    {
        Ball::lemma_served(self.last_round_winner, self.paddle_reach());
    }

    /// A point takes a game in flight, in which the match is on and the
    /// ball is out, to a valid game; the winner of the point has one point
    /// more, the other player's score is unchanged.
    pub proof fn lemma_point(self)
        requires
            self.in_flight(),
            self.state is Playing,
            self.ball_is_out(),
        ensures
            self.point_spec().wf(),
            self.point_spec().player1.score + self.point_spec().player2.score == self.player1.score
                + self.player2.score + 1,
            self.point_spec().player1.score >= self.player1.score,
            self.point_spec().player2.score >= self.player2.score,
            self.point_spec().camera.trauma >= self.camera.trauma,
    {
        Ball::lemma_served(self.point_winner(), self.paddle_reach());
    }

    /// Every frame takes a valid game to a valid game.
    ///
    /// In particular, whatever the inputs, the ball stays within bounds, its
    /// direction stays a unit vector, the trauma stays between 0 and 1, and
    /// no score passes the winning score.
    pub proof fn lemma_step_preserves_wf(self, input: FrameInput)
        requires
            self.wf(),
        ensures
            self.step_spec(input).wf(),
            self.step_spec(input).paddle_reach() == self.paddle_reach(),
    {
        if !input.quit {
            let dt = self.effective_dt(input.dt as int);
            self.lemma_confirm(input.confirm);
            let begun = GameApp {
                game_time: GameApp::clock_spec(self.game_time as int, input.dt as int) as u64,
                ..self.confirm_spec(input.confirm)
            };
            assert(begun.wf());
            lemma_ball_after(begun.ball, begun.player1, begun.player2, dt, begun.paddle_reach());
            let flown = GameApp {
                ball: ball_after(begun.ball, begun.player1, begun.player2, dt),
                ..begun
            };
            assert(flown.in_flight());
            if dt > 0 && flown.ball_is_out() {
                flown.lemma_point();
            }
            let scored = if dt > 0 && flown.ball_is_out() {
                flown.point_spec()
            } else {
                flown
            };
            assert(scored.wf());
            lemma_steer(scored.player1.pos.y as int, input.player1_up, input.player1_down, dt);
            lemma_steer(scored.player2.pos.y as int, input.player2_up, input.player2_down, dt);
            Camera::lemma_trauma_clamp(scored.camera.trauma as int, 0, dt);
        }
    }

    /// No frame takes a point away, except the one that starts a new match:
    /// unless the frame begins in `End` and brings a confirmation, each
    /// score at its end is the score at its start or one more, and at most
    /// one of the two has changed.
    pub proof fn lemma_scores_never_decrease(self, input: FrameInput)
        requires
            self.wf(),
            !(self.state is End && input.confirm && !input.quit),
        ensures
            self.player1.score <= self.step_spec(input).player1.score <= self.player1.score + 1,
            self.player2.score <= self.step_spec(input).player2.score <= self.player2.score + 1,
            self.step_spec(input).player1.score + self.step_spec(input).player2.score
                <= self.player1.score + self.player2.score + 1,
    {
        if !input.quit {
            let dt = self.effective_dt(input.dt as int);
            self.lemma_confirm(input.confirm);
            let begun = GameApp {
                game_time: GameApp::clock_spec(self.game_time as int, input.dt as int) as u64,
                ..self.confirm_spec(input.confirm)
            };
            lemma_ball_after(begun.ball, begun.player1, begun.player2, dt, begun.paddle_reach());
            let flown = GameApp {
                ball: ball_after(begun.ball, begun.player1, begun.player2, dt),
                ..begun
            };
            if dt > 0 && flown.ball_is_out() {
                flown.lemma_point();
            }
        }
    }

    /// The frame that starts a new match: it begins in `End`, brings a
    /// confirmation, and ends in `Playing` with both scores at 0, the
    /// paddles at their initial positions and the ball back at the centre.
    pub proof fn lemma_restart(self, input: FrameInput)
        requires
            self.wf(),
            self.state is End,
            input.confirm,
            !input.quit,
        ensures
            self.step_spec(input).state is Playing,
            self.step_spec(input).player1.score == 0,
            self.step_spec(input).player2.score == 0,
            self.step_spec(input).player1.pos == self.restart_spec().player1.pos,
            self.step_spec(input).player2.pos == self.restart_spec().player2.pos,
            self.step_spec(input).ball.pos == Ball::served_spec(self.last_round_winner).pos,
            self.step_spec(input).last_round_winner == self.last_round_winner,
    {
        self.lemma_confirm(input.confirm);
        let begun = GameApp {
            game_time: GameApp::clock_spec(self.game_time as int, input.dt as int) as u64,
            ..self.confirm_spec(input.confirm)
        };
        lemma_ball_after(begun.ball, begun.player1, begun.player2, 0, begun.paddle_reach());
        lemma_steer(begun.player1.pos.y as int, input.player1_up, input.player1_down, 0);
        lemma_steer(begun.player2.pos.y as int, input.player2_up, input.player2_down, 0);
    }

    /// The game after the frames `inputs`, one after the other.
    pub open spec fn run_spec(self, inputs: Seq<FrameInput>) -> GameApp
        decreases inputs.len(),
    {
        if inputs.len() == 0 {
            self
        } else {
            self.run_spec(inputs.drop_last()).step_spec(inputs.last())
        }
    }

    /// However many frames pass and whatever they bring, a valid game stays
    /// valid: the ball is never further beyond the field than one frame
    /// carries it, plus, above and below, the reach of a paddle.
    pub proof fn lemma_run_preserves_wf(self, inputs: Seq<FrameInput>)
        requires
            self.wf(),
        ensures
            self.run_spec(inputs).wf(),
            self.run_spec(inputs).ball.in_bounds(self.paddle_reach()),
            self.run_spec(inputs).paddle_reach() == self.paddle_reach(),
        decreases inputs.len(),
    {
        if inputs.len() > 0 {
            self.lemma_run_preserves_wf(inputs.drop_last());
            self.run_spec(inputs.drop_last()).lemma_step_preserves_wf(inputs.last());
        }
    }

    /// The point of the noise field at which the host is to sample both
    /// generators for a frame of `dt` microseconds that begins in this
    /// state: the shake frequency times the time at the end of the frame.
    pub fn noise_point(&self, dt: u32) -> (point: i64)
        requires
            self.game_time <= MAX_GAME_TIME,
        ensures
            point == Camera::sample_point_spec(
                GameApp::clock_spec(self.game_time as int, dt as int),
            ),
    {
        let time: u64 = if dt as u64 > MAX_GAME_TIME - self.game_time {
            MAX_GAME_TIME
        } else {
            self.game_time + dt as u64
        };
        Camera::sample_point(time)
    }

    /// Starts a new match: scores to 0, paddles to their initial positions,
    /// ball served toward the side that lost the last point.
    fn restart(&mut self)
        ensures
            *final(self) == old(self).restart_spec(),
    {
        self.state = GameState::Playing;
        self.ball = Ball::served(self.last_round_winner);
        self.player1.pos = Vector2 { x: INITIAL_PLAYER1_X, y: INITIAL_PLAYER_Y };
        self.player1.score = 0;
        self.player2.pos = Vector2 { x: INITIAL_PLAYER2_X, y: INITIAL_PLAYER_Y };
        self.player2.score = 0;
    }

    /// Gives the point for a ball that is out, and ends the match or serves
    /// again.
    fn award_point(&mut self)
        requires
            old(self).in_flight(),
            old(self).state is Playing,
            old(self).ball_is_out(),
        ensures
            *final(self) == old(self).point_spec(),
    {
        let winner = if self.ball.pos.x < 0 {
            self.player2.score += 1;
            Players::Player2
        } else {
            self.player1.score += 1;
            Players::Player1
        };
        self.last_round_winner = winner;
        self.ball.direction = serve_direction(winner);
        self.camera.add_trauma(SCORE_TRAUMA);
        if self.player1.score >= WINNING_SCORE || self.player2.score >= WINNING_SCORE {
            self.state = GameState::End;
        } else {
            self.ball = Ball::served(winner);
        }
    }

    /// Begins a frame: advances the clock and lets a confirmation take
    /// effect. Returns the message of the frame and the duration for which
    /// the game runs in it.
    fn begin_frame(&mut self, input: &FrameInput) -> (begun: (Message, u32))
        requires
            old(self).game_time <= MAX_GAME_TIME,
        ensures
            *final(self) == (GameApp {
                game_time: GameApp::clock_spec(old(self).game_time as int, input.dt as int) as u64,
                ..old(self).confirm_spec(input.confirm)
            }),
            begun.0 == old(self).message_spec(),
            begun.1 == old(self).effective_dt(input.dt as int),
    {
        self.game_time = if input.dt as u64 > MAX_GAME_TIME - self.game_time {
            MAX_GAME_TIME
        } else {
            self.game_time + input.dt as u64
        };
        match self.state {
            GameState::Ready => {
                if input.confirm {
                    self.state = GameState::Playing;
                }
                (Message::PressSpaceToPlay, 0)
            },
            GameState::Playing => (Message::Nothing, input.dt),
            GameState::End => {
                let message = match self.last_round_winner {
                    Players::Player1 => Message::Player1Wins,
                    Players::Player2 => Message::Player2Wins,
                };
                if input.confirm {
                    self.restart();
                }
                (message, 0)
            },
        }
    }

    /// Moves the ball for `dt` microseconds, turns it back at the walls and
    /// bounces it off a paddle that it strikes.
    fn fly_ball(&mut self, dt: u32)
        requires
            old(self).wf(),
            dt == 0 || 0 <= old(self).ball.pos.x <= SCREEN_WIDTH,
        ensures
            *final(self) == (GameApp {
                ball: ball_after(
                    old(self).ball,
                    old(self).player1,
                    old(self).player2,
                    dt as int,
                ),
                ..*old(self)
            }),
    {
        proof {
            lemma_ball_after(self.ball, self.player1, self.player2, dt as int, self.paddle_reach());
        }
        self.ball.integrate(dt);
        proof {
            lemma_unit_components(self.ball.direction);
        }
        self.ball.reflect();
        if let Some(distance_ratio) = self.did_ball_hit_paddle() {
            self.ball.bounce(distance_ratio);
        }
    }

    /// Ends a frame that ran for `dt` microseconds: steers the paddles and
    /// calms the camera.
    fn settle(&mut self, input: &FrameInput, dt: u32)
        requires
            old(self).wf(),
        ensures
            *final(self) == (GameApp {
                player1: Player {
                    pos: Vector2 {
                        x: old(self).player1.pos.x,
                        y: steer_spec(
                            old(self).player1.pos.y as int,
                            input.player1_up,
                            input.player1_down,
                            dt as int,
                        ) as i64,
                    },
                    ..old(self).player1
                },
                player2: Player {
                    pos: Vector2 {
                        x: old(self).player2.pos.x,
                        y: steer_spec(
                            old(self).player2.pos.y as int,
                            input.player2_up,
                            input.player2_down,
                            dt as int,
                        ) as i64,
                    },
                    ..old(self).player2
                },
                camera: Camera {
                    trauma: Camera::decay_spec(old(self).camera.trauma as int, dt as int) as i64,
                    ..old(self).camera
                },
                ..*old(self)
            }),
    {
        self.player1.steer(input.player1_up, input.player1_down, dt);
        self.player2.steer(input.player2_up, input.player2_down, dt);
        self.camera.update_trauma(dt);
    }

    /// Advances the game by one frame.
    ///
    /// If the player asks to leave, nothing changes. Otherwise the clock
    /// advances; a confirmation starts the first rally or a new match; and,
    /// for the duration of the frame if a rally was on when it began and for
    /// no duration otherwise, the ball moves, is turned by the walls and
    /// bounced by a paddle, a point is given if the ball is out, the paddles
    /// follow their keys and the camera calms down. What is to be drawn
    /// carries the message of the state in which the frame began.
    pub fn step(&mut self, input: &FrameInput) -> (outcome: StepOutcome)
        requires
            old(self).wf(),
        ensures
            *final(self) == old(self).step_spec(*input),
            outcome == old(self).outcome_spec(*input),
            final(self).wf(),
    {
        if input.quit {
            return StepOutcome::Quit;
        }
        proof {
            self.lemma_step_preserves_wf(*input);
            self.lemma_confirm(input.confirm);
        }
        let size = resize(input);
        let (message, dt) = self.begin_frame(input);
        proof {
            lemma_ball_after(self.ball, self.player1, self.player2, dt as int, self.paddle_reach());
        }
        self.fly_ball(dt);
        if dt > 0 && (self.ball.pos.x < 0 || self.ball.pos.x > SCREEN_WIDTH) {
            proof {
                self.lemma_point();
            }
            self.award_point();
        }
        self.settle(input, dt);
        let offset = self.camera.offset(input.noise_x, input.noise_y);
        let camera = self.camera.pos.add(offset);
        StepOutcome::Frame(
            Frame {
                ball: self.ball.pos,
                player1: self.player1.pos,
                player2: self.player2.pos,
                score1: self.player1.score,
                score2: self.player2.score,
                camera,
                message,
                resize: size,
            },
        )
    }
}

} // verus!
