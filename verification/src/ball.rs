//! Ball simulation: position integration, paddle collision with the
//! classic offset-to-angle bounce rule, wall bounce with anti-tunneling
//! clamp, rally speed escalation, scoring detection, and the randomized
//! reset between points.

use vstd::prelude::*;

use crate::arith::abs_spec;
use crate::arith::clamp_i64;
use crate::arith::clamp_spec;
use crate::arith::div_trunc;
use crate::arith::div_trunc_i64;
use crate::arith::lemma_div_trunc_bounds;
use crate::arith::lemma_div_trunc_scale;
use crate::arith::lemma_mul_bound;
use crate::consts::BALL_INITIAL_SPEED;
use crate::consts::BALL_MAX_SPEED;
use crate::consts::BALL_SIZE;
use crate::consts::BALL_SPEED_INCREASE;
use crate::consts::BALL_X_MAX;
use crate::consts::BALL_X_MIN;
use crate::consts::CENTER_X;
use crate::consts::CENTER_Y;
use crate::consts::HALF_BALL;
use crate::consts::HALF_PADDLE_H;
use crate::consts::MAX_BOUNCE_ANGLE;
use crate::consts::HUE_STEP_HIT;
use crate::consts::HUE_STEP_RESET;
use crate::consts::LEFT_BOUNCE_X;
use crate::consts::MAX_BALL_STEP;
use crate::consts::MAX_LAUNCH_ANGLE_DEG;
use crate::consts::MAX_TICK_MS;
use crate::consts::MILLI;
use crate::consts::RIGHT_BOUNCE_X;
use crate::consts::SCREEN_HEIGHT;
use crate::consts::SCREEN_WIDTH;
use crate::geom::Rect;
use crate::paddle::Paddle;
use crate::rng::gen_range_i32;
use crate::trig::cos_milli;
use crate::trig::cos_milli_spec;
use crate::trig::lemma_cos_pos;
use crate::trig::lemma_trig_scale_bound;
use crate::trig::sin_signed;
use crate::trig::sin_signed_spec;

verus! {

/// The side that wins a point or the match.
#[derive(Clone, Copy, PartialEq, Eq, Structural, Debug)]
pub enum Side {
    Left,
    Right,
}

/// The ball: center position, velocity vector, scalar rally speed, and
/// color phase in whole degrees.
#[derive(Clone, Copy, PartialEq, Eq, Structural, Debug)]
pub struct Ball {
    pub x: i64,
    pub y: i64,
    pub vx: i64,
    pub vy: i64,
    pub speed: i64,
    pub hue: u32,
}

/// A paddle collision this tick: the corrected ball position and the hue
/// after the bounce, handed outward to drive effects and audio.
#[derive(Clone, Copy, PartialEq, Eq, Structural, Debug)]
pub struct CollisionResult {
    pub x: i64,
    pub y: i64,
    pub hue: u32,
}

/// Velocity and speed stay coupled and the hue is a valid degree; holds
/// even mid-tick, when the position may be outside its resting range.
pub open spec fn core_wf(b: Ball) -> bool {
    &&& BALL_INITIAL_SPEED as int <= b.speed as int <= BALL_MAX_SPEED as int
    &&& abs_spec(b.vx as int) <= b.speed as int
    &&& abs_spec(b.vy as int) <= b.speed as int
    &&& b.hue < 360
}

/// The ball after integrating its velocity for `dt` milliseconds.
pub open spec fn moved_spec(b: Ball, dt: int) -> Ball {
    Ball {
        x: (b.x as int + div_trunc(b.vx as int * dt, MILLI as int)) as i64,
        y: (b.y as int + div_trunc(b.vy as int * dt, MILLI as int)) as i64,
        ..b
    }
}

/// The bounce angle in millidegrees for a hit `offset` position units
/// from the paddle center: the offset normalized by the half paddle
/// height, scaled to the +-60 degree range.
pub open spec fn bounce_angle_spec(offset: int) -> int {
    div_trunc(offset * 6, 5)
}

/// The ball is touching the left paddle while moving toward it.
pub open spec fn hits_left_spec(m: Ball, lp: Paddle) -> bool {
    m.rect_spec().overlaps_spec(lp.rect_spec()) && m.vx < 0
}

/// The ball is touching the right paddle while moving toward it.
pub open spec fn hits_right_spec(m: Ball, rp: Paddle) -> bool {
    m.rect_spec().overlaps_spec(rp.rect_spec()) && m.vx > 0
}

/// The ball after bouncing off the paddle whose center is at `py`:
/// velocity recomputed at the bounce angle from the pre-bounce speed,
/// horizontal direction reversed, position pushed just clear of the
/// paddle's hit box, speed escalated up to the cap, hue advanced. The
/// hit offset is clamped to half the paddle height, so a ball clipping
/// the paddle's tip still leaves at the configured maximum angle, never
/// past it.
pub open spec fn hit_result_spec(m: Ball, py: int) -> Ball {
    let offset = clamp_spec(-(HALF_PADDLE_H as int), m.y as int - py, HALF_PADDLE_H as int);
    let angle = bounce_angle_spec(offset);
    let vx_mag = div_trunc(cos_milli_spec(angle) * m.speed as int, MILLI as int);
    let raised = m.speed as int + BALL_SPEED_INCREASE as int;
    Ball {
        x: if (m.x as int) < CENTER_X as int {
            LEFT_BOUNCE_X
        } else {
            RIGHT_BOUNCE_X
        },
        vx: if m.vx < 0 {
            vx_mag as i64
        } else {
            (-vx_mag) as i64
        },
        vy: div_trunc(sin_signed_spec(angle) * m.speed as int, MILLI as int) as i64,
        speed: if raised > BALL_MAX_SPEED as int {
            BALL_MAX_SPEED
        } else {
            raised as i64
        },
        hue: ((m.hue + HUE_STEP_HIT) % 360) as u32,
        ..m
    }
}

/// The event a bounce emits.
pub open spec fn event_of(b: Ball) -> CollisionResult {
    CollisionResult { x: b.x, y: b.y, hue: b.hue }
}

/// Wall resolution: outside the vertical band, the vertical velocity is
/// inverted and the position clamped back inside.
pub open spec fn wall_step_spec(b: Ball) -> Ball {
    if b.y <= HALF_BALL || b.y >= SCREEN_HEIGHT - HALF_BALL {
        Ball {
            vy: (-(b.vy as int)) as i64,
            y: clamp_spec(HALF_BALL as int, b.y as int, SCREEN_HEIGHT as int - HALF_BALL as int) as i64,
            ..b
        }
    } else {
        b
    }
}

/// The whole per-tick ball transition: integrate, then resolve a paddle
/// collision (left paddle checked first), then resolve the walls.
pub open spec fn ball_step_spec(b: Ball, dt: int, lp: Paddle, rp: Paddle) -> Ball {
    let m = moved_spec(b, dt);
    let h = if hits_left_spec(m, lp) {
        hit_result_spec(m, lp.y as int)
    } else if hits_right_spec(m, rp) {
        hit_result_spec(m, rp.y as int)
    } else {
        m
    };
    wall_step_spec(h)
}

/// The collision event the per-tick transition emits, if any.
pub open spec fn ball_step_event_spec(b: Ball, dt: int, lp: Paddle, rp: Paddle) -> Option<
    CollisionResult,
> {
    let m = moved_spec(b, dt);
    if hits_left_spec(m, lp) {
        Some(event_of(hit_result_spec(m, lp.y as int)))
    } else if hits_right_spec(m, rp) {
        Some(event_of(hit_result_spec(m, rp.y as int)))
    } else {
        None
    }
}

/// Which side scores off this ball position: exiting the left edge is a
/// point for the right side, exiting the right edge a point for the left.
pub open spec fn scored_spec(b: Ball) -> Option<Side> {
    if b.x < 0 {
        Some(Side::Right)
    } else if b.x > SCREEN_WIDTH {
        Some(Side::Left)
    } else {
        None
    }
}

/// The ball after a reset launched at `angle_deg` whole degrees, leftward
/// when `to_left`: back at the arena center, speed kept, hue advanced by
/// the reset step.
pub open spec fn reset_spec(b: Ball, angle_deg: int, to_left: bool) -> Ball {
    let angle = angle_deg * MILLI as int;
    let vx_mag = div_trunc(cos_milli_spec(angle) * b.speed as int, MILLI as int);
    Ball {
        x: CENTER_X,
        y: CENTER_Y,
        vx: if to_left {
            (-vx_mag) as i64
        } else {
            vx_mag as i64
        },
        vy: div_trunc(sin_signed_spec(angle) * b.speed as int, MILLI as int) as i64,
        speed: b.speed,
        hue: ((b.hue + HUE_STEP_RESET) % 360) as u32,
    }
}

/// Some in-range launch angle and direction connect `before` to `after`.
pub open spec fn launched_spec(before: Ball, after: Ball) -> bool {
    exists|angle_deg: int, to_left: bool|
        -(MAX_LAUNCH_ANGLE_DEG as int) <= angle_deg < MAX_LAUNCH_ANGLE_DEG as int && after
            == reset_spec(before, angle_deg, to_left)
}

/// A ball moving toward the paddle it hit always leaves toward the other
/// side: the bounce cosine is strictly positive everywhere the clamped
/// bounce rule can reach, so the reversed horizontal velocity is at
/// least one unit in magnitude.
pub proof fn lemma_bounce_direction(m: Ball, py: int)
    requires
        core_wf(m),
    ensures
        m.vx < 0 ==> hit_result_spec(m, py).vx >= 1,
        m.vx > 0 ==> hit_result_spec(m, py).vx <= -1,
{
    let offset = clamp_spec(-(HALF_PADDLE_H as int), m.y as int - py, HALF_PADDLE_H as int);
    lemma_mul_bound(offset, 6, 50_000, 6);
    lemma_div_trunc_bounds(offset * 6, 5);
    lemma_div_trunc_scale(offset * 6, 5, 60_000);
    let angle = bounce_angle_spec(offset);
    lemma_cos_pos(angle);
    let c = cos_milli_spec(angle);
    lemma_trig_scale_bound(c, m.speed as int);
    assert(c * m.speed as int >= MILLI as int) by (nonlinear_arith)
        requires
            c >= 1,
            m.speed as int >= 300_000,
    ;
    assert((c * m.speed as int) / (MILLI as int) >= 1) by (nonlinear_arith)
        requires
            c * m.speed as int >= MILLI as int,
    ;
}

/// Rally escalation is monotone and capped: whatever happens in a tick,
/// the ball's speed never decreases and never passes the configured
/// maximum, so over any chain of ticks a rally's speed is non-decreasing
/// and bounded.
pub proof fn lemma_step_speed_monotone(b: Ball, dt: int, lp: Paddle, rp: Paddle)
    requires
        0 <= b.speed <= BALL_MAX_SPEED,
    ensures
        b.speed as int <= ball_step_spec(b, dt, lp, rp).speed as int <= BALL_MAX_SPEED as int,
{
}

/// A hit exactly at the paddle's vertical center rebounds purely
/// horizontally: the bounce angle is zero, the outgoing vertical
/// velocity is zero, and the horizontal speed is exactly the rally
/// speed.
pub proof fn lemma_center_hit_horizontal(m: Ball, py: int)
    requires
        core_wf(m),
        m.y as int == py,
    ensures
        bounce_angle_spec(m.y as int - py) == 0,
        hit_result_spec(m, py).vy == 0,
        abs_spec(hit_result_spec(m, py).vx as int) == m.speed as int,
{
    crate::trig::lemma_angle_zero_exact();
    assert(0int * 6 == 0) by (nonlinear_arith);
    assert(sin_signed_spec(0) * m.speed as int == 0) by (nonlinear_arith)
        requires
            sin_signed_spec(0) == 0,
    ;
    assert((1000 * m.speed as int) / (MILLI as int) == m.speed as int) by (nonlinear_arith)
        requires
            m.speed as int >= 0,
    ;
}

/// A hit at the paddle's extreme edge, half a paddle height from the
/// center, produces the configured maximum bounce angle of 60 degrees,
/// in the direction of the offset.
pub proof fn lemma_edge_hit_max_angle()
    ensures
        bounce_angle_spec(HALF_PADDLE_H as int) == MAX_BOUNCE_ANGLE as int,
        bounce_angle_spec(-(HALF_PADDLE_H as int)) == -(MAX_BOUNCE_ANGLE as int),
{
    assert(50_000int * 6 == 300_000int) by (nonlinear_arith);
    assert(300_000int / 5 == 60_000int) by (nonlinear_arith);
    assert((-50_000int) * 6 == -300_000int) by (nonlinear_arith);
}

impl Ball {
    /// The ball invariant at a tick boundary: the core invariant plus the
    /// position ranges the simulation maintains. The vertical center is
    /// always inside the arena band; the horizontal center can be at most
    /// one step's travel past either edge, pending the score decision.
    pub open spec fn wf(self) -> bool {
        &&& core_wf(self)
        &&& HALF_BALL as int <= self.y as int <= SCREEN_HEIGHT as int - HALF_BALL as int
        &&& BALL_X_MIN as int <= self.x as int <= BALL_X_MAX as int
    }

    /// The ball's bounding square.
    pub open spec fn rect_spec(self) -> Rect {
        Rect {
            x: (self.x - HALF_BALL) as i64,
            y: (self.y - HALF_BALL) as i64,
            w: BALL_SIZE,
            h: BALL_SIZE,
        }
    }

    /// A motionless ball at the arena center, at the initial rally speed.
    pub fn new() -> (r: Ball)
        ensures
            r.wf(),
            r == (Ball {
                x: CENTER_X,
                y: CENTER_Y,
                vx: 0i64,
                vy: 0i64,
                speed: BALL_INITIAL_SPEED,
                hue: 120u32,
            }),
    {
        Ball { x: CENTER_X, y: CENTER_Y, vx: 0, vy: 0, speed: BALL_INITIAL_SPEED, hue: 120 }
    }

    /// The ball's bounding square.
    pub fn get_rect(&self) -> (r: Rect)
        requires
            -1_000_000 <= self.x <= 2_000_000,
            -1_000_000 <= self.y <= 2_000_000,
        ensures
            r == self.rect_spec(),
            r.wf(),
    {
        Rect::new(self.x - HALF_BALL, self.y - HALF_BALL, BALL_SIZE, BALL_SIZE)
    }

    /// Pure scoring query: reports the side that wins the point once the
    /// ball has crossed an edge, without mutating anything; the match
    /// engine decides what to do with it.
    pub fn scored(&self) -> (r: Option<Side>)
        ensures
            r == scored_spec(*self),
            r == Some(Side::Right) <==> self.x < 0,
            r == Some(Side::Left) <==> self.x > SCREEN_WIDTH,
    {
        if self.x < 0 {
            Some(Side::Right)
        } else if self.x > SCREEN_WIDTH {
            Some(Side::Left)
        } else {
            None
        }
    }

    /// Bounce off the paddle whose center `paddle` holds. Velocity is
    /// recomputed at the offset-derived angle from the pre-escalation
    /// speed, with the horizontal direction reversed; the offset is
    /// clamped to half the paddle height so the angle never passes the
    /// configured maximum; the ball is pushed just clear of the hit box;
    /// speed escalates up to the cap; the hue advances by the bounce
    /// step.
    fn handle_paddle_hit(&mut self, paddle: &Paddle)
        requires
            core_wf(*old(self)),
            paddle.wf(),
            -57_500 <= old(self).y as int - paddle.y as int <= 57_500,
        ensures
            *final(self) == hit_result_spec(*old(self), paddle.y as int),
            core_wf(*final(self)),
            old(self).speed <= final(self).speed,
            final(self).y == old(self).y,
            final(self).x == LEFT_BOUNCE_X || final(self).x == RIGHT_BOUNCE_X,
            abs_spec(final(self).vx as int) <= old(self).speed as int,
            abs_spec(final(self).vy as int) <= old(self).speed as int,
            old(self).vx < 0 ==> final(self).vx >= 1,
            old(self).vx > 0 ==> final(self).vx <= -1,
    {
        proof {
            lemma_bounce_direction(*old(self), paddle.y as int);
            let clamped = clamp_spec(
                -(HALF_PADDLE_H as int),
                old(self).y as int - paddle.y as int,
                HALF_PADDLE_H as int,
            );
            lemma_mul_bound(clamped, 6, 50_000, 6);
            lemma_div_trunc_scale(clamped * 6, 5, 60_000);
        }
        let offset: i64 = clamp_i64(-HALF_PADDLE_H, self.y - paddle.y, HALF_PADDLE_H);
        let angle: i64 = div_trunc_i64(offset * 6, 5);
        let c: i64 = cos_milli(angle);
        let s: i64 = sin_signed(angle);
        proof {
            lemma_mul_bound(c as int, old(self).speed as int, 1000, BALL_MAX_SPEED as int);
            lemma_mul_bound(s as int, old(self).speed as int, 1000, BALL_MAX_SPEED as int);
            lemma_trig_scale_bound(c as int, old(self).speed as int);
            lemma_trig_scale_bound(s as int, old(self).speed as int);
        }
        let vx_mag: i64 = div_trunc_i64(c * self.speed, MILLI);
        let going_left = self.vx < 0;
        self.vx = if going_left {
            vx_mag
        } else {
            -vx_mag
        };
        self.vy = div_trunc_i64(s * self.speed, MILLI);
        self.x = if self.x < CENTER_X {
            LEFT_BOUNCE_X
        } else {
            RIGHT_BOUNCE_X
        };
        let raised: i64 = self.speed + BALL_SPEED_INCREASE;
        self.speed = if raised > BALL_MAX_SPEED {
            BALL_MAX_SPEED
        } else {
            raised
        };
        self.hue = (self.hue + HUE_STEP_HIT) % 360;
    }

    /// Direction-gated paddle collision: each paddle is tested only when
    /// the ball moves toward it, the left paddle first, so a ball leaving
    /// a hit box can never bounce twice.
    fn check_paddle_collision(&mut self, left_paddle: &Paddle, right_paddle: &Paddle) -> (r:
        Option<CollisionResult>)
        requires
            core_wf(*old(self)),
            left_paddle.wf(),
            right_paddle.wf(),
            -1_000_000 <= old(self).x <= 2_000_000,
            -1_000_000 <= old(self).y <= 2_000_000,
        ensures
            hits_left_spec(*old(self), *left_paddle) ==> {
                &&& *final(self) == hit_result_spec(*old(self), left_paddle.y as int)
                &&& r == Some(event_of(*final(self)))
            },
            !hits_left_spec(*old(self), *left_paddle) && hits_right_spec(*old(self), *right_paddle)
                ==> {
                &&& *final(self) == hit_result_spec(*old(self), right_paddle.y as int)
                &&& r == Some(event_of(*final(self)))
            },
            !hits_left_spec(*old(self), *left_paddle) && !hits_right_spec(
                *old(self),
                *right_paddle,
            ) ==> *final(self) == *old(self) && r is None,
            core_wf(*final(self)),
            old(self).speed <= final(self).speed,
            final(self).y == old(self).y,
            abs_spec(final(self).vy as int) <= final(self).speed as int,
    {
        let ball_rect = self.get_rect();
        let left_rect = left_paddle.get_rect();
        let right_rect = right_paddle.get_rect();
        if ball_rect.overlaps(&left_rect) && self.vx < 0 {
            self.handle_paddle_hit(left_paddle);
            return Some(CollisionResult { x: self.x, y: self.y, hue: self.hue });
        }
        if ball_rect.overlaps(&right_rect) && self.vx > 0 {
            self.handle_paddle_hit(right_paddle);
            return Some(CollisionResult { x: self.x, y: self.y, hue: self.hue });
        }
        None
    }

    /// One simulation tick: integrate the position, resolve a paddle
    /// collision before the walls (a simultaneous corner case registers
    /// as a paddle bounce), then bounce off the horizontal walls with the
    /// anti-tunneling clamp. Speed never decreases and never passes the
    /// cap; the vertical position always ends inside the arena band.
    pub fn update(&mut self, dt: i64, left_paddle: &Paddle, right_paddle: &Paddle) -> (r: Option<
        CollisionResult,
    >)
        requires
            old(self).wf(),
            0 <= old(self).x <= SCREEN_WIDTH,
            0 <= dt <= MAX_TICK_MS,
            left_paddle.wf(),
            right_paddle.wf(),
        ensures
            *final(self) == ball_step_spec(*old(self), dt as int, *left_paddle, *right_paddle),
            r == ball_step_event_spec(*old(self), dt as int, *left_paddle, *right_paddle),
            final(self).wf(),
            old(self).speed <= final(self).speed <= BALL_MAX_SPEED,
    {
        proof {
            lemma_mul_bound(old(self).vx as int, dt as int, BALL_MAX_SPEED as int, MAX_TICK_MS as int);
            lemma_mul_bound(old(self).vy as int, dt as int, BALL_MAX_SPEED as int, MAX_TICK_MS as int);
            lemma_div_trunc_scale(old(self).vx as int * dt as int, MILLI as int, MAX_BALL_STEP as int);
            lemma_div_trunc_scale(old(self).vy as int * dt as int, MILLI as int, MAX_BALL_STEP as int);
        }
        let dx: i64 = div_trunc_i64(self.vx * dt, MILLI);
        let dy: i64 = div_trunc_i64(self.vy * dt, MILLI);
        self.x = self.x + dx;
        self.y = self.y + dy;
        assert(*self == moved_spec(*old(self), dt as int));
        let collision = self.check_paddle_collision(left_paddle, right_paddle);
        if self.y <= HALF_BALL || self.y >= SCREEN_HEIGHT - HALF_BALL {
            self.vy = -self.vy;
            self.y = clamp_i64(HALF_BALL, self.y, SCREEN_HEIGHT - HALF_BALL);
        }
        collision
    }

    /// Reset with a chosen launch: back to the arena center, launched at
    /// `angle_deg` whole degrees from horizontal, leftward when
    /// `to_left`, keeping the rally speed and advancing the hue by the
    /// reset step. This is the deterministic core of `reset`, so tests
    /// can drive exact launch vectors.
    pub fn reset_with(&mut self, angle_deg: i32, to_left: bool)
        requires
            core_wf(*old(self)),
            -MAX_LAUNCH_ANGLE_DEG <= angle_deg <= MAX_LAUNCH_ANGLE_DEG,
        ensures
            *final(self) == reset_spec(*old(self), angle_deg as int, to_left),
            final(self).wf(),
            final(self).speed == old(self).speed,
            final(self).hue == (old(self).hue + HUE_STEP_RESET) % 360,
    {
        let angle: i64 = (angle_deg as i64) * MILLI;
        let c: i64 = cos_milli(angle);
        let s: i64 = sin_signed(angle);
        proof {
            lemma_mul_bound(c as int, old(self).speed as int, 1000, BALL_MAX_SPEED as int);
            lemma_mul_bound(s as int, old(self).speed as int, 1000, BALL_MAX_SPEED as int);
            lemma_trig_scale_bound(c as int, old(self).speed as int);
            lemma_trig_scale_bound(s as int, old(self).speed as int);
        }
        let vx_mag: i64 = div_trunc_i64(c * self.speed, MILLI);
        self.x = CENTER_X;
        self.y = CENTER_Y;
        self.vx = if to_left {
            -vx_mag
        } else {
            vx_mag
        };
        self.vy = div_trunc_i64(s * self.speed, MILLI);
        self.hue = (self.hue + HUE_STEP_RESET) % 360;
    }

    /// Reset between points: back to the arena center with a uniformly
    /// random launch angle within 45 degrees of horizontal and a random
    /// left/right direction. Every outcome is some in-range launch.
    pub fn reset(&mut self)
        requires
            core_wf(*old(self)),
        ensures
            final(self).wf(),
            launched_spec(*old(self), *final(self)),
            final(self).x == CENTER_X,
            final(self).y == CENTER_Y,
            final(self).speed == old(self).speed,
            final(self).hue == (old(self).hue + HUE_STEP_RESET) % 360,
    {
        let angle_deg: i32 = gen_range_i32(-MAX_LAUNCH_ANGLE_DEG, MAX_LAUNCH_ANGLE_DEG);
        let to_left: bool = gen_range_i32(0, 2) == 0;
        self.reset_with(angle_deg, to_left);
        proof {
            let b = *old(self);
            assert(-(MAX_LAUNCH_ANGLE_DEG as int) <= angle_deg as int
                && (angle_deg as int) < (MAX_LAUNCH_ANGLE_DEG as int)
                && *self == reset_spec(b, angle_deg as int, to_left));
        }
    }
}

} // verus!
