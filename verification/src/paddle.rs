//! Paddle simulation: a control intent (human key pair or the AI's
//! proportional chase) becomes a target velocity; the paddle's velocity
//! follows that target with exponential smoothing, its position is
//! integrated, and the center is clamped so the paddle stays fully
//! inside the arena.

use vstd::prelude::*;

use crate::arith::abs_spec;
use crate::arith::clamp_i64;
use crate::arith::clamp_spec;
use crate::arith::div_trunc;
use crate::arith::div_trunc_i64;
use crate::arith::lemma_smooth_step_bounds;
use crate::consts::AI_DEADBAND;
use crate::consts::AI_PADDLE_SPEED;
use crate::consts::CENTER_X;
use crate::consts::CENTER_Y;
use crate::consts::HALF_PADDLE_H;
use crate::consts::HALF_PADDLE_W;
use crate::consts::MAX_TICK_MS;
use crate::consts::MILLI;
use crate::consts::PADDLE_HEIGHT;
use crate::consts::PADDLE_SMOOTHING;
use crate::consts::PADDLE_SPEED;
use crate::consts::PADDLE_WIDTH;
use crate::consts::SCREEN_HEIGHT;
use crate::consts::SCREEN_WIDTH;
use crate::geom::Rect;

verus! {

/// One paddle, center-anchored: `x` is fixed for the match, `y` is the
/// moving center, `velocity` is the signed vertical speed, `hue` the
/// color phase in whole degrees, and `is_ai` tags the control source.
#[derive(Clone, Copy, PartialEq, Eq, Structural, Debug)]
pub struct Paddle {
    pub x: i64,
    pub y: i64,
    pub velocity: i64,
    pub hue: u32,
    pub is_ai: bool,
}

/// A human intent: up pressed alone drives full speed up (negative),
/// down pressed alone full speed down, any other key pair stops.
pub open spec fn player_target_spec(keys: (bool, bool)) -> int {
    if keys.0 && !keys.1 {
        -PADDLE_SPEED as int
    } else if keys.1 && !keys.0 {
        PADDLE_SPEED as int
    } else {
        0
    }
}

/// The AI intent: chase the ball at 85% speed once it is outside the
/// deadband around the paddle center; with no ball position, hold still.
pub open spec fn ai_target_spec(y: int, ball_y: Option<i64>) -> int {
    match ball_y {
        Some(by) => {
            let diff = by - y;
            if diff > AI_DEADBAND as int {
                AI_PADDLE_SPEED as int
            } else if diff < -(AI_DEADBAND as int) {
                -(AI_PADDLE_SPEED as int)
            } else {
                0
            }
        },
        None => 0,
    }
}

/// The target velocity a paddle steers toward this tick.
pub open spec fn target_velocity_spec(p: Paddle, ball_y: Option<i64>, keys: (bool, bool)) -> int {
    if p.is_ai {
        ai_target_spec(p.y as int, ball_y)
    } else {
        player_target_spec(keys)
    }
}

/// One velocity smoothing step: move from `v` toward `t` by the factor
/// `PADDLE_SMOOTHING * dt / MILLI`.
pub open spec fn smoothed_velocity_spec(v: int, t: int, dt: int) -> int {
    v + div_trunc((t - v) * (PADDLE_SMOOTHING as int * dt), MILLI as int)
}

/// The paddle center after integrating `v` for `dt` and clamping into
/// the arena.
pub open spec fn stepped_y_spec(y: int, v: int, dt: int) -> int {
    clamp_spec(
        HALF_PADDLE_H as int,
        y + div_trunc(v * dt, MILLI as int),
        SCREEN_HEIGHT as int - HALF_PADDLE_H as int,
    )
}

/// The whole per-tick paddle transition.
pub open spec fn paddle_step_spec(p: Paddle, dt: int, ball_y: Option<i64>, keys: (bool, bool)) -> Paddle {
    let t = target_velocity_spec(p, ball_y, keys);
    let v = smoothed_velocity_spec(p.velocity as int, t, dt);
    let y = stepped_y_spec(p.y as int, v, dt);
    Paddle { y: y as i64, velocity: v as i64, ..p }
}

/// For every well-formed paddle, every step length, and every control
/// input, one tick leaves the paddle center inside
/// `[HALF_PADDLE_H, SCREEN_HEIGHT - HALF_PADDLE_H]` and the velocity
/// within the configured top speed.
pub proof fn lemma_paddle_step_in_band(p: Paddle, dt: int, ball_y: Option<i64>, keys: (bool, bool))
    requires
        p.wf(),
        0 <= dt <= MAX_TICK_MS as int,
    ensures
        ({
            let q = paddle_step_spec(p, dt, ball_y, keys);
            &&& HALF_PADDLE_H as int <= q.y as int <= SCREEN_HEIGHT as int - HALF_PADDLE_H as int
            &&& abs_spec(q.velocity as int) <= PADDLE_SPEED as int
        }),
{
    let t = target_velocity_spec(p, ball_y, keys);
    lemma_smooth_step_bounds(p.velocity as int, t, PADDLE_SMOOTHING as int * dt);
}

impl Paddle {
    /// The paddle invariant: the center never leaves
    /// `[HALF_PADDLE_H, SCREEN_HEIGHT - HALF_PADDLE_H]`, the velocity
    /// never exceeds the configured paddle speed, and the hue is a valid
    /// angle in degrees.
    pub open spec fn wf(self) -> bool {
        &&& 0 <= self.x <= SCREEN_WIDTH
        &&& HALF_PADDLE_H as int <= self.y as int <= SCREEN_HEIGHT as int - HALF_PADDLE_H as int
        &&& abs_spec(self.velocity as int) <= PADDLE_SPEED as int
        &&& self.hue < 360
    }

    /// The paddle's bounding rectangle.
    pub open spec fn rect_spec(self) -> Rect {
        Rect {
            x: (self.x - HALF_PADDLE_W) as i64,
            y: (self.y - HALF_PADDLE_H) as i64,
            w: PADDLE_WIDTH,
            h: PADDLE_HEIGHT,
        }
    }

    /// A paddle at rest in the vertical center of the arena; the left
    /// half of the arena hosts the red-phase paddle, the right half the
    /// cyan-phase one.
    pub fn new(x: i64, is_ai: bool) -> (r: Paddle)
        requires
            0 <= x <= SCREEN_WIDTH,
        ensures
            r.wf(),
            r.x == x,
            r.y == CENTER_Y,
            r.velocity == 0,
            r.is_ai == is_ai,
            r.hue == if x < CENTER_X {
                0u32
            } else {
                180u32
            },
    {
        Paddle { x, y: CENTER_Y, velocity: 0, hue: if x < CENTER_X { 0 } else { 180 }, is_ai }
    }

    fn player_velocity(&self, keys: (bool, bool)) -> (r: i64)
        ensures
            r as int == player_target_spec(keys),
    {
        match keys {
            (true, false) => -PADDLE_SPEED,
            (false, true) => PADDLE_SPEED,
            _ => 0,
        }
    }

    fn ai_velocity(&self, ball_y: Option<i64>) -> (r: i64)
        requires
            self.wf(),
            ball_y matches Some(by) ==> 0 <= by <= SCREEN_HEIGHT,
        ensures
            r as int == ai_target_spec(self.y as int, ball_y),
    {
        if let Some(ball_y_val) = ball_y {
            let diff: i64 = ball_y_val - self.y;
            if diff > AI_DEADBAND {
                AI_PADDLE_SPEED
            } else if diff < -AI_DEADBAND {
                -AI_PADDLE_SPEED
            } else {
                0
            }
        } else {
            0
        }
    }

    /// One simulation tick: pick the target velocity from the control
    /// source, smooth the velocity toward it, integrate the position and
    /// clamp it into the arena. The center provably never leaves the
    /// arena band.
    pub fn update(&mut self, dt: i64, ball_y: Option<i64>, keys: (bool, bool))
        requires
            old(self).wf(),
            0 <= dt <= MAX_TICK_MS,
            ball_y matches Some(by) ==> 0 <= by <= SCREEN_HEIGHT,
        ensures
            *final(self) == paddle_step_spec(*old(self), dt as int, ball_y, keys),
            final(self).wf(),
            HALF_PADDLE_H <= final(self).y <= SCREEN_HEIGHT - HALF_PADDLE_H,
            final(self).x == old(self).x,
            final(self).is_ai == old(self).is_ai,
            final(self).hue == old(self).hue,
    {
        let target: i64 = if self.is_ai {
            self.ai_velocity(ball_y)
        } else {
            self.player_velocity(keys)
        };
        let delta: i64 = target - self.velocity;
        proof {
            lemma_smooth_step_bounds(self.velocity as int, target as int, PADDLE_SMOOTHING as int * dt as int);
            crate::arith::lemma_mul_bound(delta as int, PADDLE_SMOOTHING as int * dt as int, 800_000, 990);
        }
        let scaled: i64 = delta * (PADDLE_SMOOTHING * dt);
        self.velocity = self.velocity + div_trunc_i64(scaled, MILLI);
        proof {
            crate::arith::lemma_mul_bound(self.velocity as int, dt as int, PADDLE_SPEED as int, MAX_TICK_MS as int);
        }
        let travel: i64 = div_trunc_i64(self.velocity * dt, MILLI);
        self.y = clamp_i64(HALF_PADDLE_H, self.y + travel, SCREEN_HEIGHT - HALF_PADDLE_H);
    }

    /// The paddle's bounding rectangle.
    pub fn get_rect(&self) -> (r: Rect)
        requires
            self.wf(),
        ensures
            r == self.rect_spec(),
            r.wf(),
    {
        Rect::new(self.x - HALF_PADDLE_W, self.y - HALF_PADDLE_H, PADDLE_WIDTH, PADDLE_HEIGHT)
    }

    /// The paddle's center point.
    pub fn get_center(&self) -> (r: (i64, i64))
        ensures
            r.0 == self.x,
            r.1 == self.y,
    {
        (self.x, self.y)
    }
}

} // verus!
