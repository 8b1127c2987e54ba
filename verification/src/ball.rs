//! The ball: a moving point-mass with a heading, boundary bounces, paddle
//! collisions and goal detection.
//!
//! The heading is a near-unit fixed-point vector whose horizontal component
//! always exceeds [`HEADING_DOT_THRESHOLD`] in magnitude: serves are drawn
//! that way, and every reflection in the game only flips the sign of one
//! component, so the ball keeps travelling meaningfully towards one paddle.
//!
//! Crossing the top or bottom boundary reflects the heading inward.
//! Crossing the left or right boundary does not bounce: it is reported by
//! [`Ball::check_goal`] and left to the caller to score and reset.
//!
//! Every paddle hit multiplies the speed by exactly 21/20.  The growth has
//! no gameplay ceiling; it saturates only at [`crate::SPEED_LIMIT`], the
//! machine limit of the integer arithmetic.

use vstd::prelude::*;

verus! {

use crate::{DT_LIMIT, FIELD_LIMIT, SPEED_LIMIT, UNIT};
use crate::math::{
    Vector2f,
    abs_int,
    clamp_int,
    cos_deg_spec,
    div_trunc,
    dot_spec,
    lemma_div_nonneg,
    lemma_div_range,
    lemma_mul_bounds,
    lemma_reflect_axis_horizontal,
    lemma_reflect_axis_vertical,
    sin_deg_spec,
};
use crate::paddle::{Paddle, PaddleSide, paddle_wf, spec_paddle_bounds};
use crate::rect::{Rect, intersects_spec, rect_wf};
use crate::rng::random_degree;

/// The speed of a fresh ball, in thousandths of a pixel per second
/// (200 px/s).
pub const DEFAULT_BALL_SPEED: i64 = 200_000;

/// The radius of the ball (5 px).
pub const BALL_RADIUS: i64 = 5_000;

/// Width of the edge bands used to resolve paddle hits (5 px).
pub const COLLISION_BAND: i64 = 5_000;

/// A serve heading's dot product with the horizontal axis must exceed this
/// (as a fraction of [`UNIT`]: 500 is one half), so serves are never
/// near-vertical.
pub const HEADING_DOT_THRESHOLD: i64 = 500;

/// Ball coordinates stay within this machine limit, far outside any field.
pub const POS_LIMIT: i64 = 100_000_000_000_000;

/// The motion state of the ball.
#[derive(Clone, Copy, Debug, PartialEq, Eq, Structural)]
pub enum BallState {
    /// No motion is integrated.
    Idle,
    /// Full physics.
    Moving,
}

/// The ball.
#[derive(Clone, Copy, Debug, PartialEq, Eq, Structural)]
pub struct Ball {
    /// The center of the ball.
    pub position: Vector2f,
    /// The field the ball bounces in.
    pub bounds: Rect,
    /// The radius of the ball.
    pub radius: i64,
    /// Current speed, in thousandths of a pixel per second.
    pub speed: i64,
    /// Current direction of travel: a near-unit fixed-point vector.
    pub heading: Vector2f,
    /// The current motion state.
    pub state: BallState,
}

/// A heading's components fit the fixed-point unit scale.
pub open spec fn heading_wf(h: Vector2f) -> bool {
    &&& abs_int(h.x as int) <= UNIT
    &&& abs_int(h.y as int) <= UNIT
}

/// A heading travels meaningfully towards one paddle.  Serves are drawn
/// this way, and every reflection in the game only flips a component's
/// sign, so the ball never ends up creeping along near-vertically.
pub open spec fn heading_mostly_horizontal(h: Vector2f) -> bool {
    abs_int(h.x as int) > HEADING_DOT_THRESHOLD
}

/// Well-formed ball: an ordered field within the machine limits, a bounded
/// position, a positive bounded radius and speed, and a well-formed heading.
pub open spec fn ball_wf(b: Ball) -> bool {
    &&& rect_wf(b.bounds)
    &&& -FIELD_LIMIT <= b.bounds.left
    &&& b.bounds.right <= FIELD_LIMIT
    &&& -FIELD_LIMIT <= b.bounds.top
    &&& b.bounds.bottom <= FIELD_LIMIT
    &&& 0 < b.radius <= FIELD_LIMIT
    &&& 20 <= b.speed <= SPEED_LIMIT
    &&& heading_wf(b.heading)
    &&& -POS_LIMIT <= b.position.x <= POS_LIMIT
    &&& -POS_LIMIT <= b.position.y <= POS_LIMIT
}

/// The box the ball occupies.
pub open spec fn spec_ball_bounds(b: Ball) -> Rect {
    Rect {
        left: (b.position.x - b.radius) as i64,
        right: (b.position.x + b.radius) as i64,
        top: (b.position.y - b.radius) as i64,
        bottom: (b.position.y + b.radius) as i64,
    }
}

/// How far a heading component `h` carries the ball in `dt` milliseconds at
/// speed `speed`: `h * speed * dt`, rescaled from the heading's fixed-point
/// scale and from milliseconds.
pub open spec fn ball_step(h: int, speed: int, dt: int) -> int {
    div_trunc(h * speed * dt, 1000000)
}

/// One integration step: while moving, displace along the heading, then
/// reflect the heading inward off the top or bottom boundary.  Horizontal
/// boundaries do not bounce; they are goal triggers.  Idle balls do not
/// move.  Positions saturate at the machine limit [`POS_LIMIT`].
pub open spec fn spec_ball_tick(b: Ball, dt: int) -> Ball {
    match b.state {
        BallState::Idle => b,
        BallState::Moving => {
            let dx = ball_step(b.heading.x as int, b.speed as int, dt);
            let dy = ball_step(b.heading.y as int, b.speed as int, dt);
            let x = clamp_int(b.position.x + dx, -POS_LIMIT as int, POS_LIMIT as int);
            let y = clamp_int(b.position.y + dy, -POS_LIMIT as int, POS_LIMIT as int);
            let bounce = y - b.radius < b.bounds.top || y + b.radius > b.bounds.bottom;
            let hy = if bounce {
                -b.heading.y
            } else {
                b.heading.y as int
            };
            Ball {
                position: Vector2f { x: x as i64, y: y as i64 },
                heading: Vector2f { x: b.heading.x, y: hy as i64 },
                ..b
            }
        },
    }
}

/// The speed after a paddle hit: multiplied by exactly 21/20, saturating
/// only at the machine limit.
pub open spec fn spec_speedup(s: int) -> int {
    let faster = s * 21 / 20;
    if faster > SPEED_LIMIT {
        SPEED_LIMIT as int
    } else {
        faster
    }
}

/// Resolving an overlap with a paddle box `other`: find which 5-pixel edge
/// band of the box the ball overlaps, checked in the order top, bottom,
/// left, right; reflect the heading across that edge's inward normal and
/// move the ball flush against the edge, so the same overlap cannot trigger
/// twice.  Any hit speeds the ball up.
pub open spec fn spec_on_collision(b: Ball, other: Rect) -> Ball {
    let bb = spec_ball_bounds(b);
    let band_top = Rect {
        left: other.left,
        right: other.right,
        top: other.top,
        bottom: (other.top + COLLISION_BAND) as i64,
    };
    let band_bottom = Rect {
        left: other.left,
        right: other.right,
        top: (other.bottom - COLLISION_BAND) as i64,
        bottom: other.bottom,
    };
    let band_left = Rect {
        left: other.left,
        right: (other.left + COLLISION_BAND) as i64,
        top: other.top,
        bottom: other.bottom,
    };
    let band_right = Rect {
        left: (other.right - COLLISION_BAND) as i64,
        right: other.right,
        top: other.top,
        bottom: other.bottom,
    };
    let moved = if intersects_spec(bb, band_top) {
        Ball {
            heading: Vector2f { x: b.heading.x, y: (-b.heading.y) as i64 },
            position: Vector2f { x: b.position.x, y: (other.top - b.radius) as i64 },
            ..b
        }
    } else if intersects_spec(bb, band_bottom) {
        Ball {
            heading: Vector2f { x: b.heading.x, y: (-b.heading.y) as i64 },
            position: Vector2f { x: b.position.x, y: (other.bottom + b.radius) as i64 },
            ..b
        }
    } else if intersects_spec(bb, band_left) {
        Ball {
            heading: Vector2f { x: (-b.heading.x) as i64, y: b.heading.y },
            position: Vector2f { x: (other.left - b.radius) as i64, y: b.position.y },
            ..b
        }
    } else if intersects_spec(bb, band_right) {
        Ball {
            heading: Vector2f { x: (-b.heading.x) as i64, y: b.heading.y },
            position: Vector2f { x: (other.right + b.radius) as i64, y: b.position.y },
            ..b
        }
    } else {
        b
    };
    Ball { speed: spec_speedup(b.speed as int) as i64, ..moved }
}

/// Paddle collisions for one frame: the left paddle is tested and resolved
/// first, then the right one, each only if the boxes strictly overlap.
pub open spec fn spec_check_paddle_collisions(b: Ball, left: Paddle, right: Paddle) -> Ball {
    let b1 = if intersects_spec(spec_ball_bounds(b), spec_paddle_bounds(left)) {
        spec_on_collision(b, spec_paddle_bounds(left))
    } else {
        b
    };
    if intersects_spec(spec_ball_bounds(b1), spec_paddle_bounds(right)) {
        spec_on_collision(b1, spec_paddle_bounds(right))
    } else {
        b1
    }
}

/// Which side conceded: the ball crossed that side's boundary, so the other
/// side scores.  `None` while the ball is inside.
pub open spec fn spec_check_goal(b: Ball) -> Option<PaddleSide> {
    if b.position.x - b.radius < b.bounds.left {
        Some(PaddleSide::Left)
    } else if b.position.x + b.radius > b.bounds.right {
        Some(PaddleSide::Right)
    } else {
        None
    }
}

/// Any serve heading is mostly horizontal: a drawn angle's direction vector
/// has a dot product with the rightward axis whose magnitude exceeds the
/// threshold, so a serve is never near-vertical.  The hypothesis on the
/// angle's cosine is exactly what
/// [`Ball::generate_random_initial_ball_heading`] ensures of every angle it
/// returns.
pub proof fn lemma_serve_heading_mostly_horizontal(d: int)
    requires
        0 <= d < 360,
        abs_int(cos_deg_spec(d)) > HEADING_DOT_THRESHOLD,
    ensures
        ({
            let heading = Vector2f { x: cos_deg_spec(d) as i64, y: sin_deg_spec(d) as i64 };
            let right = Vector2f { x: UNIT, y: 0 };
            abs_int(dot_spec(heading, right)) > HEADING_DOT_THRESHOLD * UNIT
        }),
{
    crate::math::lemma_cos_deg_range(d);
    crate::math::lemma_sin_deg_range(d);
    let heading = Vector2f { x: cos_deg_spec(d) as i64, y: sin_deg_spec(d) as i64 };
    let right = Vector2f { x: UNIT, y: 0 };
    assert(dot_spec(heading, right) == cos_deg_spec(d) * 1000);
}

/// Every reflection in a frame — boundary bounces and paddle hits — only
/// flips the sign of a heading component, so a mostly-horizontal ball stays
/// mostly horizontal forever: a serve never degrades into a near-vertical
/// crawl.
pub proof fn lemma_frame_keeps_heading_horizontal(b: Ball, left: Paddle, right: Paddle, dt: int)
    requires
        heading_wf(b.heading),
        heading_mostly_horizontal(b.heading),
    ensures
        heading_mostly_horizontal(spec_ball_tick(b, dt).heading),
        heading_mostly_horizontal(
            spec_check_paddle_collisions(spec_ball_tick(b, dt), left, right).heading,
        ),
{
}

/// A sequence of paddle hits, resolved in order.
pub open spec fn spec_collide_seq(b: Ball, hits: Seq<Rect>) -> Ball
    decreases hits.len(),
{
    if hits.len() == 0 {
        b
    } else {
        spec_collide_seq(spec_on_collision(b, hits[0]), hits.skip(1))
    }
}

/// One paddle hit never slows the ball down, and never pushes its speed
/// past the machine limit.
pub proof fn lemma_collision_speed_monotone(b: Ball, other: Rect)
    requires
        0 <= b.speed <= SPEED_LIMIT,
    ensures
        b.speed <= spec_on_collision(b, other).speed <= SPEED_LIMIT,
{
    assert(b.speed * 21 / 20 >= b.speed) by (nonlinear_arith)
        requires
            b.speed >= 0,
    ;
    assert(b.speed * 21 / 20 >= 0) by (nonlinear_arith)
        requires
            b.speed >= 0,
    ;
}

/// Below the machine limit, a paddle hit multiplies the speed by exactly
/// the speedup factor 21/20, a strict increase.
pub proof fn lemma_collision_speedup_exact(b: Ball, other: Rect)
    requires
        20 <= b.speed,
        b.speed * 21 / 20 <= SPEED_LIMIT,
    ensures
        spec_on_collision(b, other).speed == b.speed * 21 / 20,
        spec_on_collision(b, other).speed > b.speed,
{
    assert(b.speed * 21 / 20 > b.speed) by (nonlinear_arith)
        requires
            b.speed >= 20,
    ;
    assert(b.speed * 21 / 20 >= 0) by (nonlinear_arith)
        requires
            b.speed >= 0,
    ;
}

/// Ball speed is monotonically non-decreasing across any sequence of paddle
/// collisions.
pub proof fn lemma_speed_monotone_across_collisions(b: Ball, hits: Seq<Rect>)
    requires
        0 <= b.speed <= SPEED_LIMIT,
    ensures
        b.speed <= spec_collide_seq(b, hits).speed <= SPEED_LIMIT,
    decreases hits.len(),
{
    if hits.len() > 0 {
        lemma_collision_speed_monotone(b, hits[0]);
        lemma_speed_monotone_across_collisions(spec_on_collision(b, hits[0]), hits.skip(1));
    }
}

impl Ball {
    /// A new idle ball at `position` on the field `bounds`, at the default
    /// speed, with a freshly drawn serve heading.
    pub fn new(bounds: &Rect, position: Vector2f, rng: &mut rand::rngs::StdRng) -> (b: Ball)
        requires
            rect_wf(*bounds),
            -FIELD_LIMIT <= bounds.left,
            bounds.right <= FIELD_LIMIT,
            -FIELD_LIMIT <= bounds.top,
            bounds.bottom <= FIELD_LIMIT,
            -POS_LIMIT <= position.x <= POS_LIMIT,
            -POS_LIMIT <= position.y <= POS_LIMIT,
        ensures
            b.position == position,
            b.bounds == *bounds,
            b.radius == BALL_RADIUS,
            b.speed == DEFAULT_BALL_SPEED,
            b.state == BallState::Idle,
            heading_wf(b.heading),
            heading_mostly_horizontal(b.heading),
            ball_wf(b),
    {
        let angle = Self::generate_random_initial_ball_heading(rng);
        Ball {
            position,
            bounds: *bounds,
            radius: BALL_RADIUS,
            speed: DEFAULT_BALL_SPEED,
            heading: Vector2f::from_angle(angle),
            state: BallState::Idle,
        }
    }

    /// Draw a serve angle: whole degrees, resampled until the direction is
    /// mostly horizontal, so the serve travels meaningfully towards one
    /// paddle.  Rejection succeeds almost surely; after an astronomically
    /// unlikely run of rejections the serve falls back to straight right.
    pub fn generate_random_initial_ball_heading(rng: &mut rand::rngs::StdRng) -> (d: u32)
        ensures
            d < 360,
            abs_int(cos_deg_spec(d as int)) > HEADING_DOT_THRESHOLD,
    {
        let mut tries: u32 = 0;
        while tries < 1024
            invariant
                tries <= 1024,
            decreases 1024 - tries,
        {
            let angle = random_degree(rng);
            let c = crate::math::cos_deg(angle);
            if c > HEADING_DOT_THRESHOLD || c < -HEADING_DOT_THRESHOLD {
                return angle;
            }
            tries = tries + 1;
        }
        proof {
            crate::math::lemma_cos_zero_is_one();
        }
        0
    }

    /// Advance the ball by `dt` milliseconds; see [`spec_ball_tick`].
    pub fn tick(&mut self, dt: i64)
        requires
            ball_wf(*old(self)),
            0 < dt <= DT_LIMIT,
        ensures
            *final(self) == spec_ball_tick(*old(self), dt as int),
            ball_wf(*final(self)),
    {
        match self.state {
            BallState::Idle => {},
            BallState::Moving => {
                let dx = Self::step_component(self.heading.x, self.speed, dt);
                let dy = Self::step_component(self.heading.y, self.speed, dt);
                let x = clamp_coord(self.position.x + dx);
                let y = clamp_coord(self.position.y + dy);
                self.position = Vector2f { x, y };
                if self.position.y - self.radius < self.bounds.top {
                    let n = Vector2f::down();
                    proof {
                        lemma_reflect_axis_vertical(self.heading, n);
                    }
                    self.heading = self.heading.reflected(&n);
                } else if self.position.y + self.radius > self.bounds.bottom {
                    let n = Vector2f::up();
                    proof {
                        lemma_reflect_axis_vertical(self.heading, n);
                    }
                    self.heading = self.heading.reflected(&n);
                }
            },
        }
    }

    /// One displacement component, `h * speed * dt` rescaled.
    fn step_component(h: i64, speed: i64, dt: i64) -> (s: i64)
        requires
            -UNIT <= h <= UNIT,
            0 < speed <= SPEED_LIMIT,
            0 < dt <= DT_LIMIT,
        ensures
            s == ball_step(h as int, speed as int, dt as int),
            -100_000_000_000_000 <= s <= 100_000_000_000_000,
    {
        proof {
            lemma_mul_bounds(h as int, speed as int, UNIT as int, SPEED_LIMIT as int);
            lemma_mul_bounds(
                h as int * speed as int,
                dt as int,
                UNIT as int * SPEED_LIMIT as int,
                DT_LIMIT as int,
            );
        }
        let scaled: i64 = h * speed * dt;
        proof {
            if scaled >= 0 {
                lemma_div_range(scaled as int, 1000000, 100_000_000_000_000);
            } else {
                lemma_div_range(-scaled as int, 1000000, 100_000_000_000_000);
            }
        }
        if scaled >= 0 {
            scaled / 1000000
        } else {
            -((-scaled) / 1000000)
        }
    }

    /// Begin integrating motion.
    pub fn start_moving(&mut self)
        ensures
            *final(self) == (Ball { state: BallState::Moving, ..*old(self) }),
    {
        self.state = BallState::Moving;
    }

    /// Stop integrating motion; used to pause the ball during serve delay.
    pub fn stop_moving(&mut self)
        ensures
            *final(self) == (Ball { state: BallState::Idle, ..*old(self) }),
    {
        self.state = BallState::Idle;
    }

    /// The box the ball occupies.
    pub fn get_bounds(&self) -> (r: Rect)
        requires
            ball_wf(*self),
        ensures
            r == spec_ball_bounds(*self),
            rect_wf(r),
    {
        Rect {
            left: self.position.x - self.radius,
            right: self.position.x + self.radius,
            top: self.position.y - self.radius,
            bottom: self.position.y + self.radius,
        }
    }

    /// Test the ball against both paddles, left first, and resolve each
    /// overlap; see [`spec_check_paddle_collisions`].
    pub fn check_paddle_collisions(&mut self, left: &Paddle, right: &Paddle)
        requires
            ball_wf(*old(self)),
            paddle_wf(*left),
            paddle_wf(*right),
        ensures
            *final(self) == spec_check_paddle_collisions(*old(self), *left, *right),
            ball_wf(*final(self)),
    {
        let lb = left.get_bounds();
        if self.get_bounds().intersects(&lb) {
            self.on_collision(&lb);
        }
        let rb = right.get_bounds();
        if self.get_bounds().intersects(&rb) {
            self.on_collision(&rb);
        }
    }

    /// Resolve an overlap with the box `other`; see [`spec_on_collision`].
    fn on_collision(&mut self, other: &Rect)
        requires
            ball_wf(*old(self)),
            rect_wf(*other),
            -4 * FIELD_LIMIT <= other.left,
            other.right <= 4 * FIELD_LIMIT,
            -4 * FIELD_LIMIT <= other.top,
            other.bottom <= 4 * FIELD_LIMIT,
        ensures
            *final(self) == spec_on_collision(*old(self), *other),
            ball_wf(*final(self)),
    {
        let bb = self.get_bounds();
        let band_top = Rect {
            left: other.left,
            right: other.right,
            top: other.top,
            bottom: other.top + COLLISION_BAND,
        };
        let band_bottom = Rect {
            left: other.left,
            right: other.right,
            top: other.bottom - COLLISION_BAND,
            bottom: other.bottom,
        };
        let band_left = Rect {
            left: other.left,
            right: other.left + COLLISION_BAND,
            top: other.top,
            bottom: other.bottom,
        };
        let band_right = Rect {
            left: other.right - COLLISION_BAND,
            right: other.right,
            top: other.top,
            bottom: other.bottom,
        };
        if bb.intersects(&band_top) {
            let n = Vector2f::up();
            proof {
                lemma_reflect_axis_vertical(self.heading, n);
            }
            self.heading = self.heading.reflected(&n);
            self.position.y = other.top - self.radius;
        } else if bb.intersects(&band_bottom) {
            let n = Vector2f::down();
            proof {
                lemma_reflect_axis_vertical(self.heading, n);
            }
            self.heading = self.heading.reflected(&n);
            self.position.y = other.bottom + self.radius;
        } else if bb.intersects(&band_left) {
            let n = Vector2f::left();
            proof {
                lemma_reflect_axis_horizontal(self.heading, n);
            }
            self.heading = self.heading.reflected(&n);
            self.position.x = other.left - self.radius;
        } else if bb.intersects(&band_right) {
            let n = Vector2f::right();
            proof {
                lemma_reflect_axis_horizontal(self.heading, n);
            }
            self.heading = self.heading.reflected(&n);
            self.position.x = other.right + self.radius;
        }
        proof {
            lemma_div_nonneg(self.speed * 21, 20);
            assert(self.speed * 21 / 20 >= self.speed) by (nonlinear_arith)
                requires
                    self.speed >= 0,
            ;
        }
        let faster: i64 = self.speed * 21 / 20;
        self.speed = if faster > SPEED_LIMIT {
            SPEED_LIMIT
        } else {
            faster
        };
    }

    /// Which side conceded a goal, if any; a pure query that mutates
    /// nothing.  Crossing the left boundary means the left side conceded
    /// and the right side scores, and symmetrically.
    pub fn check_goal(&self) -> (g: Option<PaddleSide>)
        requires
            ball_wf(*self),
        ensures
            g == spec_check_goal(*self),
    {
        if self.position.x - self.radius < self.bounds.left {
            Some(PaddleSide::Left)
        } else if self.position.x + self.radius > self.bounds.right {
            Some(PaddleSide::Right)
        } else {
            None
        }
    }
}

/// Clamp a coordinate into the machine range.
fn clamp_coord(v: i64) -> (c: i64)
    ensures
        c == clamp_int(v as int, -POS_LIMIT as int, POS_LIMIT as int),
{
    if v < -POS_LIMIT {
        -POS_LIMIT
    } else if v > POS_LIMIT {
        POS_LIMIT
    } else {
        v
    }
}

} // verus!
