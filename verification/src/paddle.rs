//! The paddles: vertical-motion actors clamped to the field.
//!
//! A paddle is commanded by the input layer (`move_up`, `move_down`,
//! `stop_moving`) and advanced by `update`, which displaces it by
//! `speed * dt` in the commanded direction and then clamps its box to stay
//! fully inside the field.  The well-formedness predicate carries the
//! clamping as an invariant: a well-formed paddle's center is always within
//! `[top + half height, bottom - half height]`.

use vstd::prelude::*;

verus! {

use crate::{DT_LIMIT, FIELD_LIMIT, SPEED_LIMIT};
use crate::math::{Vector2f, clamp_int};
use crate::rect::{Rect, rect_wf};

/// Default paddle speed, in thousandths of a pixel per second (160 px/s).
pub const DEFAULT_PADDLE_SPEED: i64 = 160_000;

/// Paddle width (10 px).
pub const PADDLE_WIDTH: i64 = 10_000;

/// Paddle height (60 px).
pub const PADDLE_HEIGHT: i64 = 60_000;

/// Half the paddle width.
pub const PADDLE_HALF_WIDTH: i64 = 5_000;

/// Half the paddle height.
pub const PADDLE_HALF_HEIGHT: i64 = 30_000;

/// Horizontal padding between a field edge and its paddle (20 px).
pub const PADDLE_X_PADDING: i64 = 20_000;

/// The side of the field a paddle defends.
#[derive(Clone, Copy, Debug, PartialEq, Eq, Structural)]
pub enum PaddleSide {
    Left,
    Right,
}

/// The direction a moving paddle travels in.
#[derive(Clone, Copy, Debug, PartialEq, Eq, Structural)]
pub enum PaddleDirection {
    Up,
    Down,
}

/// The motion state of a paddle.
#[derive(Clone, Copy, Debug, PartialEq, Eq, Structural)]
pub enum PaddleState {
    Idle,
    Moving(PaddleDirection),
}

/// A paddle: a box of fixed size centered on `position`, confined to
/// `bounds`.
#[derive(Clone, Copy, Debug, PartialEq, Eq, Structural)]
pub struct Paddle {
    /// The center of the paddle's box.
    pub position: Vector2f,
    /// Vertical speed while moving, in thousandths of a pixel per second.
    pub speed: i64,
    /// The side of the field this paddle defends.
    pub side: PaddleSide,
    /// The current motion state.
    pub state: PaddleState,
    /// The field the paddle is confined to.
    pub bounds: Rect,
}

/// How far a paddle moves in `dt` milliseconds.
pub open spec fn paddle_step(speed: int, dt: int) -> int {
    speed * dt / 1000
}

/// Well-formed paddle: ordered field box within the machine limits, tall
/// enough to hold the paddle, a positive bounded speed, and — the central
/// invariant — a center that keeps the paddle's box fully inside the field.
pub open spec fn paddle_wf(p: Paddle) -> bool {
    &&& rect_wf(p.bounds)
    &&& -FIELD_LIMIT <= p.bounds.left
    &&& p.bounds.right <= FIELD_LIMIT
    &&& -FIELD_LIMIT <= p.bounds.top
    &&& p.bounds.bottom <= FIELD_LIMIT
    &&& p.bounds.top + PADDLE_HEIGHT <= p.bounds.bottom
    &&& 0 < p.speed <= SPEED_LIMIT
    &&& -2 * FIELD_LIMIT <= p.position.x <= 2 * FIELD_LIMIT
    &&& p.bounds.top + PADDLE_HALF_HEIGHT <= p.position.y
    &&& p.position.y <= p.bounds.bottom - PADDLE_HALF_HEIGHT
}

/// The paddle created for `side` on field `bounds`: at the field's vertical
/// center, a fixed padding in from its own edge, idle, at the default speed.
pub open spec fn spec_init_paddle(bounds: Rect, side: PaddleSide) -> Paddle {
    let x = match side {
        PaddleSide::Left => bounds.left + PADDLE_X_PADDING + PADDLE_HALF_WIDTH,
        PaddleSide::Right => bounds.right - PADDLE_X_PADDING - PADDLE_HALF_WIDTH,
    };
    Paddle {
        position: Vector2f { x: x as i64, y: (bounds.top + (bounds.bottom - bounds.top) / 2) as i64 },
        speed: DEFAULT_PADDLE_SPEED,
        side,
        state: PaddleState::Idle,
        bounds,
    }
}

/// One update step: while moving, displace vertically by `speed * dt` in
/// the commanded direction, then clamp the box into the field.  Idle
/// paddles do not move.
pub open spec fn spec_paddle_update(p: Paddle, dt: int) -> Paddle {
    match p.state {
        PaddleState::Idle => p,
        PaddleState::Moving(dir) => {
            let step = paddle_step(p.speed as int, dt);
            let moved = match dir {
                PaddleDirection::Up => p.position.y - step,
                PaddleDirection::Down => p.position.y + step,
            };
            let clamped = clamp_int(
                moved,
                p.bounds.top + PADDLE_HALF_HEIGHT,
                p.bounds.bottom - PADDLE_HALF_HEIGHT,
            );
            Paddle { position: Vector2f { x: p.position.x, y: clamped as i64 }, ..p }
        },
    }
}

/// The box a paddle occupies.
pub open spec fn spec_paddle_bounds(p: Paddle) -> Rect {
    Rect {
        left: (p.position.x - PADDLE_HALF_WIDTH) as i64,
        right: (p.position.x + PADDLE_HALF_WIDTH) as i64,
        top: (p.position.y - PADDLE_HALF_HEIGHT) as i64,
        bottom: (p.position.y + PADDLE_HALF_HEIGHT) as i64,
    }
}

/// Wherever a well-formed paddle starts and whatever was commanded, after
/// an update its center is still within
/// `[top + half height, bottom - half height]`: the paddle never leaves the
/// field.
pub proof fn lemma_paddle_update_stays_in_field(p: Paddle, dt: int)
    requires
        paddle_wf(p),
    ensures
        paddle_wf(spec_paddle_update(p, dt)),
        p.bounds.top + PADDLE_HALF_HEIGHT <= spec_paddle_update(p, dt).position.y,
        spec_paddle_update(p, dt).position.y <= p.bounds.bottom - PADDLE_HALF_HEIGHT,
{
}

impl Paddle {
    /// A new paddle for `side`, idle at the vertical center of `bounds`.
    pub fn new(bounds: &Rect, side: PaddleSide) -> (p: Paddle)
        requires
            rect_wf(*bounds),
            -FIELD_LIMIT <= bounds.left,
            bounds.right <= FIELD_LIMIT,
            -FIELD_LIMIT <= bounds.top,
            bounds.bottom <= FIELD_LIMIT,
            bounds.top + PADDLE_HEIGHT <= bounds.bottom,
        ensures
            p == spec_init_paddle(*bounds, side),
            paddle_wf(p),
    {
        let x_position: i64 = match side {
            PaddleSide::Left => bounds.left + PADDLE_X_PADDING + PADDLE_HALF_WIDTH,
            PaddleSide::Right => bounds.right - PADDLE_X_PADDING - PADDLE_HALF_WIDTH,
        };
        let height: i64 = bounds.bottom - bounds.top;
        Paddle {
            position: Vector2f { x: x_position, y: bounds.top + height / 2 },
            speed: DEFAULT_PADDLE_SPEED,
            side,
            state: PaddleState::Idle,
            bounds: *bounds,
        }
    }

    /// Advance the paddle by `dt` milliseconds.
    pub fn update(&mut self, dt: i64)
        requires
            paddle_wf(*old(self)),
            0 < dt <= DT_LIMIT,
        ensures
            *final(self) == spec_paddle_update(*old(self), dt as int),
            paddle_wf(*final(self)),
    {
        match self.state {
            PaddleState::Moving(direction) => {
                proof {
                    crate::math::lemma_mul_bounds(
                        self.speed as int,
                        dt as int,
                        SPEED_LIMIT as int,
                        DT_LIMIT as int,
                    );
                    crate::math::lemma_div_nonneg(self.speed * dt, 1000);
                }
                let step: i64 = self.speed * dt / 1000;
                let moved: i64 = match direction {
                    PaddleDirection::Up => self.position.y - step,
                    PaddleDirection::Down => self.position.y + step,
                };
                let lo: i64 = self.bounds.top + PADDLE_HALF_HEIGHT;
                let hi: i64 = self.bounds.bottom - PADDLE_HALF_HEIGHT;
                let clamped: i64 = if moved < lo {
                    lo
                } else if moved > hi {
                    hi
                } else {
                    moved
                };
                self.position.y = clamped;
            },
            PaddleState::Idle => {},
        }
    }

    /// Command the paddle to move up.  Idempotent.
    pub fn move_up(&mut self)
        ensures
            *final(self) == (Paddle {
                state: PaddleState::Moving(PaddleDirection::Up),
                ..*old(self)
            }),
    {
        self.state = PaddleState::Moving(PaddleDirection::Up);
    }

    /// Command the paddle to move down.  Idempotent.
    pub fn move_down(&mut self)
        ensures
            *final(self) == (Paddle {
                state: PaddleState::Moving(PaddleDirection::Down),
                ..*old(self)
            }),
    {
        self.state = PaddleState::Moving(PaddleDirection::Down);
    }

    /// Command the paddle to stop.  Idempotent.
    pub fn stop_moving(&mut self)
        ensures
            *final(self) == (Paddle { state: PaddleState::Idle, ..*old(self) }),
    {
        self.state = PaddleState::Idle;
    }

    /// The box the paddle occupies, centered on its position.
    pub fn get_bounds(&self) -> (r: Rect)
        requires
            paddle_wf(*self),
        ensures
            r == spec_paddle_bounds(*self),
            rect_wf(r),
    {
        Rect {
            left: self.position.x - PADDLE_HALF_WIDTH,
            right: self.position.x + PADDLE_HALF_WIDTH,
            top: self.position.y - PADDLE_HALF_HEIGHT,
            bottom: self.position.y + PADDLE_HALF_HEIGHT,
        }
    }
}

} // verus!
