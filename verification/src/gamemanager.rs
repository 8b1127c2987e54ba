//! The per-match orchestrator: one paddle per side, one ball, the score,
//! and the field.
//!
//! Each frame the driver calls `tick(dt)`, which advances both paddles,
//! then the ball, then resolves paddle collisions, and finally wires goal
//! detection: when the ball has crossed a side's boundary the other side's
//! counter goes up and the field is reset — fresh paddles and a fresh ball
//! at the field's center with a newly drawn serve heading.  Scores survive
//! field resets and are cleared only by `full_reset`.
//!
//! The pseudo-random generator for serve headings is owned by the manager
//! and seeded at construction, so a whole match replays deterministically
//! from its seed and inputs.

use vstd::prelude::*;

verus! {

use crate::{DT_LIMIT, FIELD_LIMIT};
use crate::ball::{
    BALL_RADIUS,
    Ball,
    BallState,
    DEFAULT_BALL_SPEED,
    ball_wf,
    heading_mostly_horizontal,
    heading_wf,
    spec_ball_tick,
    spec_check_goal,
    spec_check_paddle_collisions,
};
use crate::math::Vector2f;
use crate::paddle::{
    PADDLE_HEIGHT,
    Paddle,
    PaddleDirection,
    PaddleSide,
    PaddleState,
    paddle_wf,
    spec_init_paddle,
    spec_paddle_update,
};
use crate::rect::{Rect, rect_wf};
use crate::rng::rng_from_seed;

/// The authority over one running match.
pub struct GameManager {
    /// The paddle defending the left edge.
    pub left_paddle: Paddle,
    /// The paddle defending the right edge.
    pub right_paddle: Paddle,
    /// The ball.
    pub ball: Ball,
    /// The playable rectangle.
    pub field_bounds: Rect,
    /// Points scored by the left side.
    pub left_score: i32,
    /// Points scored by the right side.
    pub right_score: i32,
    /// The seeded generator that draws serve headings.
    pub rng: rand::rngs::StdRng,
}

/// A field rectangle the game can be played on: ordered, within the machine
/// limits, and tall enough to hold a paddle.
pub open spec fn field_wf(field: Rect) -> bool {
    &&& rect_wf(field)
    &&& -FIELD_LIMIT <= field.left
    &&& field.right <= FIELD_LIMIT
    &&& -FIELD_LIMIT <= field.top
    &&& field.bottom <= FIELD_LIMIT
    &&& field.top + PADDLE_HEIGHT <= field.bottom
}

/// The center of the field, each coordinate rounded down.
pub open spec fn spec_field_center(field: Rect) -> Vector2f {
    Vector2f {
        x: (field.left + (field.right - field.left) / 2) as i64,
        y: (field.top + (field.bottom - field.top) / 2) as i64,
    }
}

/// A ball freshly served on `field`: idle at the field's center, default
/// speed and radius, with a mostly-horizontal heading.  The heading itself
/// is drawn from the generator, so nothing more is promised about it.
pub open spec fn ball_at_serve(b: Ball, field: Rect) -> bool {
    &&& b.position == spec_field_center(field)
    &&& b.bounds == field
    &&& b.radius == BALL_RADIUS
    &&& b.speed == DEFAULT_BALL_SPEED
    &&& b.state == BallState::Idle
    &&& heading_wf(b.heading)
    &&& heading_mostly_horizontal(b.heading)
}

/// Well-formed manager: a playable field, both paddles and the ball
/// well-formed and confined to that same field, and nonnegative scores.
pub open spec fn gm_wf(gm: GameManager) -> bool {
    &&& field_wf(gm.field_bounds)
    &&& paddle_wf(gm.left_paddle)
    &&& paddle_wf(gm.right_paddle)
    &&& gm.left_paddle.bounds == gm.field_bounds
    &&& gm.right_paddle.bounds == gm.field_bounds
    &&& ball_wf(gm.ball)
    &&& gm.ball.bounds == gm.field_bounds
    &&& 0 <= gm.left_score
    &&& 0 <= gm.right_score
}

/// A score after one goal: up by one, saturating only at the machine limit
/// of the counter.
pub open spec fn bump_score(s: int) -> int {
    if s < i32::MAX {
        s + 1
    } else {
        s
    }
}

/// What one frame computes before goal detection: both paddles updated,
/// then the ball integrated and its paddle collisions resolved against the
/// updated paddles.
pub open spec fn spec_gm_step(gm: GameManager, dt: int) -> (Paddle, Paddle, Ball) {
    let lp = spec_paddle_update(gm.left_paddle, dt);
    let rp = spec_paddle_update(gm.right_paddle, dt);
    let b = spec_check_paddle_collisions(spec_ball_tick(gm.ball, dt), lp, rp);
    (lp, rp, b)
}

impl GameManager {
    /// A new match on `field_bounds`, scores at zero, serve headings drawn
    /// from a generator seeded with `seed`.
    pub fn new(field_bounds: Rect, seed: u64) -> (gm: GameManager)
        requires
            field_wf(field_bounds),
        ensures
            gm.field_bounds == field_bounds,
            gm.left_paddle == spec_init_paddle(field_bounds, PaddleSide::Left),
            gm.right_paddle == spec_init_paddle(field_bounds, PaddleSide::Right),
            ball_at_serve(gm.ball, field_bounds),
            gm.left_score == 0,
            gm.right_score == 0,
            gm_wf(gm),
    {
        let mut rng = rng_from_seed(seed);
        let left_paddle = Paddle::new(&field_bounds, PaddleSide::Left);
        let right_paddle = Paddle::new(&field_bounds, PaddleSide::Right);
        let center = field_bounds.center();
        let ball = Ball::new(&field_bounds, center, &mut rng);
        GameManager {
            left_paddle,
            right_paddle,
            ball,
            field_bounds,
            left_score: 0,
            right_score: 0,
            rng,
        }
    }

    /// Recreate both paddles and serve a fresh ball at the field's center;
    /// scores are kept.
    pub fn reset_field(&mut self)
        requires
            gm_wf(*old(self)),
        ensures
            final(self).field_bounds == old(self).field_bounds,
            final(self).left_paddle == spec_init_paddle(old(self).field_bounds, PaddleSide::Left),
            final(self).right_paddle == spec_init_paddle(old(self).field_bounds, PaddleSide::Right),
            ball_at_serve(final(self).ball, old(self).field_bounds),
            final(self).left_score == old(self).left_score,
            final(self).right_score == old(self).right_score,
            gm_wf(*final(self)),
    {
        self.left_paddle = Paddle::new(&self.field_bounds, PaddleSide::Left);
        self.right_paddle = Paddle::new(&self.field_bounds, PaddleSide::Right);
        let center = self.field_bounds.center();
        self.ball = Ball::new(&self.field_bounds, center, &mut self.rng);
    }

    /// Reset the field and clear all scores.
    pub fn full_reset(&mut self)
        requires
            gm_wf(*old(self)),
        ensures
            final(self).field_bounds == old(self).field_bounds,
            final(self).left_paddle == spec_init_paddle(old(self).field_bounds, PaddleSide::Left),
            final(self).right_paddle == spec_init_paddle(old(self).field_bounds, PaddleSide::Right),
            ball_at_serve(final(self).ball, old(self).field_bounds),
            final(self).left_score == 0,
            final(self).right_score == 0,
            gm_wf(*final(self)),
    {
        self.left_score = 0;
        self.right_score = 0;
        self.reset_field();
    }

    /// Advance the match by `dt` milliseconds: paddles, then the ball, then
    /// paddle collisions, then goal wiring.  On a goal the conceding side's
    /// opponent scores one point and the field is reset; otherwise the
    /// computed frame is the new state and the generator is untouched.
    pub fn tick(&mut self, dt: i64)
        requires
            gm_wf(*old(self)),
            0 < dt <= DT_LIMIT,
        ensures
            gm_wf(*final(self)),
            final(self).field_bounds == old(self).field_bounds,
            ({
                let (lp, rp, b) = spec_gm_step(*old(self), dt as int);
                match spec_check_goal(b) {
                    Option::None => {
                        &&& final(self).left_paddle == lp
                        &&& final(self).right_paddle == rp
                        &&& final(self).ball == b
                        &&& final(self).left_score == old(self).left_score
                        &&& final(self).right_score == old(self).right_score
                        &&& final(self).rng == old(self).rng
                    },
                    Option::Some(conceded) => {
                        &&& final(self).left_paddle == spec_init_paddle(
                            old(self).field_bounds,
                            PaddleSide::Left,
                        )
                        &&& final(self).right_paddle == spec_init_paddle(
                            old(self).field_bounds,
                            PaddleSide::Right,
                        )
                        &&& ball_at_serve(final(self).ball, old(self).field_bounds)
                        &&& final(self).left_score == (if conceded == PaddleSide::Right {
                            bump_score(old(self).left_score as int)
                        } else {
                            old(self).left_score as int
                        })
                        &&& final(self).right_score == (if conceded == PaddleSide::Left {
                            bump_score(old(self).right_score as int)
                        } else {
                            old(self).right_score as int
                        })
                    },
                }
            }),
    {
        self.left_paddle.update(dt);
        self.right_paddle.update(dt);
        self.ball.tick(dt);
        self.ball.check_paddle_collisions(&self.left_paddle, &self.right_paddle);
        match self.ball.check_goal() {
            Option::Some(PaddleSide::Left) => {
                if self.right_score < i32::MAX {
                    self.right_score = self.right_score + 1;
                }
                self.reset_field();
            },
            Option::Some(PaddleSide::Right) => {
                if self.left_score < i32::MAX {
                    self.left_score = self.left_score + 1;
                }
                self.reset_field();
            },
            Option::None => {},
        }
    }

    /// The points scored by `side`.
    pub fn get_score(&self, side: PaddleSide) -> (s: i32)
        ensures
            side == PaddleSide::Left ==> s == self.left_score,
            side == PaddleSide::Right ==> s == self.right_score,
    {
        match side {
            PaddleSide::Left => self.left_score,
            PaddleSide::Right => self.right_score,
        }
    }

    /// Add `points` to `side`'s counter.
    pub fn add_score(&mut self, side: PaddleSide, points: i32)
        requires
            side == PaddleSide::Left ==> i32::MIN <= old(self).left_score + points <= i32::MAX,
            side == PaddleSide::Right ==> i32::MIN <= old(self).right_score + points <= i32::MAX,
        ensures
            side == PaddleSide::Left ==> final(self).left_score == old(self).left_score + points
                && final(self).right_score == old(self).right_score,
            side == PaddleSide::Right ==> final(self).right_score == old(self).right_score + points
                && final(self).left_score == old(self).left_score,
            final(self).left_paddle == old(self).left_paddle,
            final(self).right_paddle == old(self).right_paddle,
            final(self).ball == old(self).ball,
            final(self).field_bounds == old(self).field_bounds,
            final(self).rng == old(self).rng,
    {
        match side {
            PaddleSide::Left => {
                self.left_score = self.left_score + points;
            },
            PaddleSide::Right => {
                self.right_score = self.right_score + points;
            },
        }
    }

    /// The playable rectangle.
    pub fn get_field_bounds(&self) -> (r: Rect)
        ensures
            r == self.field_bounds,
    {
        self.field_bounds
    }

    /// The paddle defending `side`.
    pub fn get_paddle(&self, side: PaddleSide) -> (p: &Paddle)
        ensures
            side == PaddleSide::Left ==> *p == self.left_paddle,
            side == PaddleSide::Right ==> *p == self.right_paddle,
    {
        match side {
            PaddleSide::Left => &self.left_paddle,
            PaddleSide::Right => &self.right_paddle,
        }
    }

    /// The ball.
    pub fn get_ball(&self) -> (b: &Ball)
        ensures
            *b == self.ball,
    {
        &self.ball
    }

    /// Begin ball motion, after the serve delay.
    pub fn unpause(&mut self)
        ensures
            final(self).ball == (Ball { state: BallState::Moving, ..old(self).ball }),
            final(self).left_paddle == old(self).left_paddle,
            final(self).right_paddle == old(self).right_paddle,
            final(self).field_bounds == old(self).field_bounds,
            final(self).left_score == old(self).left_score,
            final(self).right_score == old(self).right_score,
            final(self).rng == old(self).rng,
    {
        self.ball.start_moving();
    }

    /// Command `side`'s paddle to move in `direction`.
    pub fn move_paddle(&mut self, side: PaddleSide, direction: PaddleDirection)
        ensures
            side == PaddleSide::Left ==> final(self).left_paddle == (Paddle {
                state: PaddleState::Moving(direction),
                ..old(self).left_paddle
            }) && final(self).right_paddle == old(self).right_paddle,
            side == PaddleSide::Right ==> final(self).right_paddle == (Paddle {
                state: PaddleState::Moving(direction),
                ..old(self).right_paddle
            }) && final(self).left_paddle == old(self).left_paddle,
            final(self).ball == old(self).ball,
            final(self).field_bounds == old(self).field_bounds,
            final(self).left_score == old(self).left_score,
            final(self).right_score == old(self).right_score,
            final(self).rng == old(self).rng,
    {
        match side {
            PaddleSide::Left => {
                match direction {
                    PaddleDirection::Up => self.left_paddle.move_up(),
                    PaddleDirection::Down => self.left_paddle.move_down(),
                }
            },
            PaddleSide::Right => {
                match direction {
                    PaddleDirection::Up => self.right_paddle.move_up(),
                    PaddleDirection::Down => self.right_paddle.move_down(),
                }
            },
        }
    }

    /// Command `side`'s paddle to stop.
    pub fn set_paddle_idle(&mut self, side: PaddleSide)
        ensures
            side == PaddleSide::Left ==> final(self).left_paddle == (Paddle {
                state: PaddleState::Idle,
                ..old(self).left_paddle
            }) && final(self).right_paddle == old(self).right_paddle,
            side == PaddleSide::Right ==> final(self).right_paddle == (Paddle {
                state: PaddleState::Idle,
                ..old(self).right_paddle
            }) && final(self).left_paddle == old(self).left_paddle,
            final(self).ball == old(self).ball,
            final(self).field_bounds == old(self).field_bounds,
            final(self).left_score == old(self).left_score,
            final(self).right_score == old(self).right_score,
            final(self).rng == old(self).rng,
    {
        match side {
            PaddleSide::Left => self.left_paddle.stop_moving(),
            PaddleSide::Right => self.right_paddle.stop_moving(),
        }
    }
}

} // verus!
