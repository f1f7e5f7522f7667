//! Fixed configuration of the simulation, in fixed-point milli-units:
//! one pixel is 1000 position units, one second is 1000 time units, and
//! speeds are position units per second. Angles are in millidegrees and
//! the trigonometric scale is 1000 (see `trig`).

use vstd::prelude::*;

verus! {

/// Horizontal extent of the arena.
pub const SCREEN_WIDTH: i64 = 800_000;

/// Vertical extent of the arena.
pub const SCREEN_HEIGHT: i64 = 600_000;

/// Fixed-point scale: milli-units per unit, and milliseconds per second.
pub const MILLI: i64 = 1000;

pub const PADDLE_WIDTH: i64 = 15_000;

pub const PADDLE_HEIGHT: i64 = 100_000;

/// Top speed a paddle can be driven at.
pub const PADDLE_SPEED: i64 = 400_000;

/// Gap between the arena's side walls and the near edge of each paddle.
pub const PADDLE_MARGIN: i64 = 30_000;

/// Paddles chase their target velocity with this exponential smoothing
/// rate (per second).
pub const PADDLE_SMOOTHING: i64 = 15;

/// The AI moves only when the ball is at least this far from the paddle
/// center.
pub const AI_DEADBAND: i64 = 20_000;

/// The AI drives its paddle at 85% of the full paddle speed.
pub const AI_PADDLE_SPEED: i64 = 340_000;

/// Side length of the ball's bounding square.
pub const BALL_SIZE: i64 = 15_000;

pub const BALL_INITIAL_SPEED: i64 = 300_000;

/// Speed gained on every paddle bounce.
pub const BALL_SPEED_INCREASE: i64 = 20_000;

/// Speed is clamped here; rallies cannot escalate further.
pub const BALL_MAX_SPEED: i64 = 600_000;

/// Largest bounce angle, at the paddle's extreme edge, in millidegrees.
pub const MAX_BOUNCE_ANGLE: i64 = 60_000;

/// Largest launch angle magnitude at a ball reset, in whole degrees.
pub const MAX_LAUNCH_ANGLE_DEG: i32 = 45;

/// Hue advance (degrees) on a paddle bounce.
pub const HUE_STEP_HIT: u32 = 30;

/// Hue advance (degrees) on a ball reset; larger than the bounce step so
/// a new rally is visually distinct.
pub const HUE_STEP_RESET: u32 = 60;

/// First side to reach this score wins the match.
pub const WIN_SCORE: u32 = 7;

/// Longest simulation step accepted, in milliseconds. Keeps the paddle
/// smoothing factor `PADDLE_SMOOTHING * dt / MILLI` at or below one, so a
/// step never overshoots its target velocity, and keeps every fixed-point
/// product far from overflow.
pub const MAX_TICK_MS: i64 = 66;

/// Half the ball's bounding square.
pub const HALF_BALL: i64 = 7_500;

/// Half the paddle height.
pub const HALF_PADDLE_H: i64 = 50_000;

/// Half the paddle width.
pub const HALF_PADDLE_W: i64 = 7_500;

/// Farthest the ball can travel in one step:
/// `BALL_MAX_SPEED * MAX_TICK_MS / MILLI`.
pub const MAX_BALL_STEP: i64 = 39_600;

/// Lowest horizontal ball position the simulation ever produces: one full
/// step past the left edge.
pub const BALL_X_MIN: i64 = -39_600;

/// Highest horizontal ball position the simulation ever produces: one full
/// step past the right edge.
pub const BALL_X_MAX: i64 = 839_600;

/// Horizontal position the ball is pushed to after bouncing off the left
/// paddle: `PADDLE_MARGIN + PADDLE_WIDTH + HALF_BALL`.
pub const LEFT_BOUNCE_X: i64 = 52_500;

/// Horizontal position the ball is pushed to after bouncing off the right
/// paddle: `SCREEN_WIDTH - PADDLE_MARGIN - PADDLE_WIDTH - HALF_BALL`.
pub const RIGHT_BOUNCE_X: i64 = 747_500;

/// Horizontal center of the arena.
pub const CENTER_X: i64 = 400_000;

/// Vertical center of the arena.
pub const CENTER_Y: i64 = 300_000;

/// Center of the left paddle: `PADDLE_MARGIN + HALF_PADDLE_W`.
pub const LEFT_PADDLE_X: i64 = 37_500;

/// Center of the right paddle: `SCREEN_WIDTH - PADDLE_MARGIN - HALF_PADDLE_W`.
pub const RIGHT_PADDLE_X: i64 = 762_500;

} // verus!
