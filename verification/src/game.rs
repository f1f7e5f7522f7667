//! The match engine: owns both paddles, the ball and the score pair,
//! advances one simulation tick, aggregates the collision event, applies
//! scoring, and decides the win condition. A score is applied exactly
//! once per edge crossing: the ball is reset the same tick unless that
//! point ends the match, in which case the ball is left untouched and no
//! further tick may be taken.

use vstd::prelude::*;

use crate::ball::Ball;
use crate::ball::CollisionResult;
use crate::ball::Side;
use crate::ball::ball_step_event_spec;
use crate::ball::ball_step_spec;
use crate::ball::core_wf;
use crate::ball::launched_spec;
use crate::ball::scored_spec;
use crate::consts::BALL_INITIAL_SPEED;
use crate::consts::CENTER_X;
use crate::consts::CENTER_Y;
use crate::consts::HUE_STEP_RESET;
use crate::consts::LEFT_PADDLE_X;
use crate::consts::MAX_TICK_MS;
use crate::consts::RIGHT_PADDLE_X;
use crate::consts::SCREEN_WIDTH;
use crate::consts::WIN_SCORE;
use crate::paddle::Paddle;
use crate::paddle::paddle_step_spec;

verus! {

/// The outcome of one engine tick.
#[derive(Clone, Copy, PartialEq, Eq, Structural, Debug)]
pub enum GameResult {
    Continue,
    LeftWins,
    RightWins,
}

/// One running match: both paddles, the ball, and the score pair.
#[derive(Clone, Copy, PartialEq, Eq, Structural, Debug)]
pub struct Game {
    pub left_paddle: Paddle,
    pub right_paddle: Paddle,
    pub ball: Ball,
    pub left_score: u32,
    pub right_score: u32,
}

/// The vertical ball position fed to the right paddle's controller: the
/// AI chases the ball, a human paddle is told nothing.
pub open spec fn ai_ball_view(g: Game) -> Option<i64> {
    if g.right_paddle.is_ai {
        Some(g.ball.y)
    } else {
        None
    }
}

/// The left paddle after this tick's control and motion.
pub open spec fn left_paddle_step(g: Game, dt: int, left_keys: (bool, bool)) -> Paddle {
    paddle_step_spec(g.left_paddle, dt, None, left_keys)
}

/// The right paddle after this tick's control and motion.
pub open spec fn right_paddle_step(g: Game, dt: int, right_keys: (bool, bool)) -> Paddle {
    paddle_step_spec(g.right_paddle, dt, ai_ball_view(g), right_keys)
}

/// The ball after this tick, colliding against this tick's paddle
/// positions (paddles move first, so there is no one-frame lag).
pub open spec fn ball_after_step(g: Game, dt: int, left_keys: (bool, bool), right_keys: (bool, bool)) -> Ball {
    ball_step_spec(g.ball, dt, left_paddle_step(g, dt, left_keys), right_paddle_step(g, dt, right_keys))
}

/// The collision event this tick emits, if any.
pub open spec fn event_after_step(g: Game, dt: int, left_keys: (bool, bool), right_keys: (bool, bool)) -> Option<CollisionResult> {
    ball_step_event_spec(g.ball, dt, left_paddle_step(g, dt, left_keys), right_paddle_step(g, dt, right_keys))
}

impl Game {
    /// The match invariant: both paddles and the ball are well formed,
    /// scores never pass the win threshold, and while nobody has won the
    /// ball's horizontal position is inside the arena (every crossing is
    /// consumed by a score the tick it happens).
    pub open spec fn wf(self) -> bool {
        &&& self.left_paddle.wf()
        &&& self.right_paddle.wf()
        &&& self.ball.wf()
        &&& self.left_score <= WIN_SCORE
        &&& self.right_score <= WIN_SCORE
        &&& (self.left_score < WIN_SCORE && self.right_score < WIN_SCORE) ==> 0 <= self.ball.x
            <= SCREEN_WIDTH
    }

    /// A fresh match: paddles centered at their margins, scores zero,
    /// and the ball launched from the center. A one-player match gives
    /// the right paddle to the AI; a two-player match makes both human.
    pub fn new(two_players: bool) -> (r: Game)
        ensures
            r.wf(),
            !r.left_paddle.is_ai,
            r.right_paddle.is_ai == !two_players,
            r.left_paddle.x == LEFT_PADDLE_X,
            r.right_paddle.x == RIGHT_PADDLE_X,
            r.left_paddle.y == CENTER_Y,
            r.right_paddle.y == CENTER_Y,
            r.left_paddle.velocity == 0,
            r.right_paddle.velocity == 0,
            r.left_paddle.hue == 0,
            r.right_paddle.hue == 180,
            r.ball.hue == 180,
            r.left_score == 0,
            r.right_score == 0,
            r.ball.x == CENTER_X,
            r.ball.y == CENTER_Y,
            r.ball.speed == BALL_INITIAL_SPEED,
            launched_spec(
                Ball {
                    x: CENTER_X,
                    y: CENTER_Y,
                    vx: 0i64,
                    vy: 0i64,
                    speed: BALL_INITIAL_SPEED,
                    hue: 120u32,
                },
                r.ball,
            ),
    {
        let mut ball = Ball::new();
        ball.reset();
        Game {
            left_paddle: Paddle::new(LEFT_PADDLE_X, false),
            right_paddle: Paddle::new(RIGHT_PADDLE_X, !two_players),
            ball,
            left_score: 0,
            right_score: 0,
        }
    }

    /// Reset only the ball, leaving paddles and scores alone.
    pub fn reset_ball(&mut self)
        requires
            core_wf(old(self).ball),
        ensures
            launched_spec(old(self).ball, final(self).ball),
            final(self).ball.wf(),
            final(self).ball.x == CENTER_X,
            final(self).ball.speed == old(self).ball.speed,
            final(self).left_paddle == old(self).left_paddle,
            final(self).right_paddle == old(self).right_paddle,
            final(self).left_score == old(self).left_score,
            final(self).right_score == old(self).right_score,
    {
        self.ball.reset();
    }

    /// One engine tick: both paddles move on this tick's control intents,
    /// the ball moves and collides against the moved paddles, and a score
    /// is applied at most once. If the scoring side reaches the win
    /// threshold the match ends immediately with that winner and the ball
    /// is not reset; otherwise a scored ball is relaunched from the
    /// center and play continues. Callers must not tick a finished match.
    pub fn update(&mut self, dt: i64, left_keys: (bool, bool), right_keys: (bool, bool)) -> (r: (
        GameResult,
        Option<CollisionResult>,
    ))
        requires
            old(self).wf(),
            old(self).left_score < WIN_SCORE,
            old(self).right_score < WIN_SCORE,
            0 <= dt <= MAX_TICK_MS,
        ensures
            final(self).wf(),
            final(self).left_paddle == left_paddle_step(*old(self), dt as int, left_keys),
            final(self).right_paddle == right_paddle_step(*old(self), dt as int, right_keys),
            r.1 == event_after_step(*old(self), dt as int, left_keys, right_keys),
            ({
                let stepped = ball_after_step(*old(self), dt as int, left_keys, right_keys);
                match scored_spec(stepped) {
                    None => {
                        &&& final(self).ball == stepped
                        &&& final(self).left_score == old(self).left_score
                        &&& final(self).right_score == old(self).right_score
                        &&& r.0 == GameResult::Continue
                    },
                    Some(side) => {
                        &&& (side == Side::Right ==> final(self).right_score == old(
                            self,
                        ).right_score + 1 && final(self).left_score == old(self).left_score)
                        &&& (side == Side::Left ==> final(self).left_score == old(self).left_score
                            + 1 && final(self).right_score == old(self).right_score)
                        &&& if final(self).left_score == WIN_SCORE || final(self).right_score
                            == WIN_SCORE {
                            // the winning point: report the winner at once and skip the reset
                            &&& final(self).ball == stepped
                            &&& r.0 == (if side == Side::Left {
                                GameResult::LeftWins
                            } else {
                                GameResult::RightWins
                            })
                        } else {
                            &&& launched_spec(stepped, final(self).ball)
                            &&& final(self).ball.x == CENTER_X
                            &&& final(self).ball.speed == stepped.speed
                            &&& final(self).ball.hue == (stepped.hue + HUE_STEP_RESET) % 360
                            &&& r.0 == GameResult::Continue
                        }
                    },
                }
            }),
            old(self).ball.speed <= final(self).ball.speed,
    {
        let ai_y: Option<i64> = if self.right_paddle.is_ai {
            Some(self.ball.y)
        } else {
            None
        };
        self.left_paddle.update(dt, None, left_keys);
        self.right_paddle.update(dt, ai_y, right_keys);
        let collision = self.ball.update(dt, &self.left_paddle, &self.right_paddle);
        if let Some(side) = self.ball.scored() {
            match side {
                Side::Right => {
                    self.right_score = self.right_score + 1;
                    if self.right_score >= WIN_SCORE {
                        return (GameResult::RightWins, collision);
                    }
                },
                Side::Left => {
                    self.left_score = self.left_score + 1;
                    if self.left_score >= WIN_SCORE {
                        return (GameResult::LeftWins, collision);
                    }
                },
            }
            self.ball.reset();
            (GameResult::Continue, collision)
        } else {
            (GameResult::Continue, collision)
        }
    }
}

} // verus!
