//! Two-dimensional fixed-point vectors: the value algebra the whole
//! simulation is built on.
//!
//! A `Vector2f` holds a pair of fixed-point coordinates (thousandths of a
//! pixel).  Direction vectors live on the same scale: a unit direction has
//! magnitude close to [`crate::UNIT`].  The `y` axis points down, as on a
//! screen, so an upward direction has a negative `y` component.
//!
//! Angles are whole degrees in `[0, 360)`.  Sine and cosine are computed in
//! fixed point with Bhaskara's rational approximation, which is exact at
//! multiples of 90 degrees and within a few thousandths elsewhere; every
//! result is proved to stay inside `[-UNIT, UNIT]`.

use vstd::prelude::*;

verus! {

use crate::UNIT;

/// A 2D vector in fixed-point coordinates.
#[derive(Clone, Copy, Debug, PartialEq, Eq, Structural)]
pub struct Vector2f {
    pub x: i64,
    pub y: i64,
}

/// Coordinates handled by the quadratic vector operations (dot products,
/// magnitudes, reflections) stay within this bound, which leaves headroom in
/// an `i64` for sums of products of two coordinates.
pub const COORD_LIMIT: i64 = 0x4000_0000;

/// Both coordinates of `v` are within [`COORD_LIMIT`].
pub open spec fn in_coord_range(v: Vector2f) -> bool {
    -COORD_LIMIT <= v.x <= COORD_LIMIT && -COORD_LIMIT <= v.y <= COORD_LIMIT
}

/// The squared magnitude of `v`, as a mathematical integer.
pub open spec fn mag2(v: Vector2f) -> int {
    v.x * v.x + v.y * v.y
}

/// The dot product of `a` and `b`, as a mathematical integer.
pub open spec fn dot_spec(a: Vector2f, b: Vector2f) -> int {
    a.x * b.x + a.y * b.y
}

/// `v` clamped into `[lo, hi]`.
pub open spec fn clamp_int(v: int, lo: int, hi: int) -> int {
    if v < lo {
        lo
    } else if v > hi {
        hi
    } else {
        v
    }
}

/// Absolute value of a mathematical integer.
pub open spec fn abs_int(i: int) -> int {
    if i >= 0 {
        i
    } else {
        -i
    }
}

/// Division rounding towards zero, the way `/` behaves on machine integers.
pub open spec fn div_trunc(a: int, b: int) -> int {
    let q = abs_int(a) / abs_int(b);
    if (a < 0) == (b < 0) {
        q
    } else {
        -q
    }
}

/// `m` is the square root of `n`, rounded down.
pub open spec fn is_sqrt_floor(n: int, m: int) -> bool {
    0 <= m && m * m <= n < (m + 1) * (m + 1)
}

/// The magnitude of a vector with squared magnitude `n`, rounded down: the
/// unique nonnegative `m` with `m * m <= n < (m + 1) * (m + 1)`.
pub open spec fn sqrt_floor(n: int) -> int {
    choose|m: int| is_sqrt_floor(n, m)
}

/// `a * b` is bounded by the product of bounds on `a` and `b`.
pub proof fn lemma_mul_bounds(a: int, b: int, am: int, bm: int)
    by (nonlinear_arith)
    requires
        -am <= a <= am,
        -bm <= b <= bm,
    ensures
        -(am * bm) <= a * b <= am * bm,
{
}

/// A square is never negative.
pub proof fn lemma_square_nonneg(a: int)
    by (nonlinear_arith)
    ensures
        a * a >= 0,
{
}

/// A quotient of a nonnegative numerator by a positive denominator lies
/// between 0 and any `k` whose product with the denominator reaches the
/// numerator.
pub proof fn lemma_div_range(num: int, den: int, k: int)
    by (nonlinear_arith)
    requires
        0 < den,
        0 <= num <= k * den,
    ensures
        0 <= num / den <= k,
{
}

/// A quotient of a nonnegative numerator by a positive denominator is at
/// most the numerator.
pub proof fn lemma_div_nonneg(num: int, den: int)
    by (nonlinear_arith)
    requires
        0 < den,
        0 <= num,
    ensures
        0 <= num / den <= num,
{
}

/// Dividing `a * s` by `s` gives back `a`, also for negative `a`.
pub proof fn lemma_div_trunc_cancel(a: int, s: int)
    requires
        0 < s,
    ensures
        div_trunc(a * s, s) == a,
{
    if a >= 0 {
        assert(a * s >= 0) by (nonlinear_arith)
            requires
                0 <= a,
                0 < s,
        ;
        assert((a * s) / s == a) by (nonlinear_arith)
            requires
                0 < s,
                0 <= a,
        ;
    } else {
        assert(a * s < 0) by (nonlinear_arith)
            requires
                a < 0,
                0 < s,
        ;
        assert(-(a * s) == (-a) * s) by (nonlinear_arith);
        assert(((-a) * s) / s == -a) by (nonlinear_arith)
            requires
                0 < s,
                0 < -a,
        ;
    }
}

/// A nonnegative integer whose square brackets `n` is `sqrt_floor(n)`.
pub proof fn lemma_sqrt_floor_unique(n: int, m: int)
    requires
        0 <= m,
        m * m <= n,
        n < (m + 1) * (m + 1),
    ensures
        sqrt_floor(n) == m,
{
    assert(is_sqrt_floor(n, m));
    let k = sqrt_floor(n);
    assert(is_sqrt_floor(n, k)) by {
        assert(exists|j: int| is_sqrt_floor(n, j));
    }
    assert(k == m) by (nonlinear_arith)
        requires
            0 <= k,
            0 <= m,
            k * k <= n < (k + 1) * (k + 1),
            m * m <= n < (m + 1) * (m + 1),
    ;
}

/// Bhaskara's sine approximation on `[0, 180]` degrees, scaled by [`UNIT`].
pub open spec fn sin_half_deg(d: int) -> int {
    let p = d * (180 - d);
    (4 * p * 1000) / (40500 - p)
}

/// Fixed-point sine of `d` whole degrees, for `0 <= d < 360`.
pub open spec fn sin_deg_spec(d: int) -> int {
    if d <= 180 {
        sin_half_deg(d)
    } else {
        -sin_half_deg(d - 180)
    }
}

/// Fixed-point cosine of `d` whole degrees, for `0 <= d < 360`.
pub open spec fn cos_deg_spec(d: int) -> int {
    if d < 270 {
        sin_deg_spec(d + 90)
    } else {
        sin_deg_spec(d - 270)
    }
}

/// On `[0, 180]` the sine approximation stays within `[0, UNIT]`.
pub proof fn lemma_sin_half_deg_range(d: int)
    requires
        0 <= d <= 180,
    ensures
        0 <= sin_half_deg(d) <= 1000,
{
    let p = d * (180 - d);
    assert(0 <= p <= 8100) by (nonlinear_arith)
        requires
            p == d * (180 - d),
            0 <= d <= 180,
    ;
    lemma_div_range(4 * p * 1000, 40500 - p, 1000);
}

/// The fixed-point sine of any angle lies in `[-UNIT, UNIT]`.
pub proof fn lemma_sin_deg_range(d: int)
    requires
        0 <= d < 360,
    ensures
        -1000 <= sin_deg_spec(d) <= 1000,
{
    if d <= 180 {
        lemma_sin_half_deg_range(d);
    } else {
        lemma_sin_half_deg_range(d - 180);
    }
}

/// The fixed-point cosine of any angle lies in `[-UNIT, UNIT]`.
pub proof fn lemma_cos_deg_range(d: int)
    requires
        0 <= d < 360,
    ensures
        -1000 <= cos_deg_spec(d) <= 1000,
{
    if d < 270 {
        lemma_sin_deg_range(d + 90);
    } else {
        lemma_sin_deg_range(d - 270);
    }
}

/// The cosine of zero degrees is exactly one unit: the fallback serve
/// heading straight right is accepted by any threshold below [`UNIT`].
pub proof fn lemma_cos_zero_is_one()
    ensures
        cos_deg_spec(0) == 1000,
{
    assert(cos_deg_spec(0) == sin_half_deg(90));
    assert(90 * (180 - 90) == 8100);
    assert(4 * 8100 * 1000 == 32400000);
    assert(40500 - 8100 == 32400);
    assert(32400000int / 32400 == 1000) by (nonlinear_arith);
}

/// The core of reflection: mirroring `(vx, vy)` across a unit normal
/// `(nx, ny)` preserves the squared magnitude exactly, before the
/// fixed-point rescaling.  The reflected vector, scaled up by `UNIT * UNIT`,
/// is `(vx, vy) * UNIT * UNIT - 2 * d * (nx, ny)` with `d` the dot product.
pub proof fn lemma_reflect_preserves_mag2(vx: int, vy: int, nx: int, ny: int)
    requires
        nx * nx + ny * ny == 1000000,
    ensures
        ({
            let d = vx * nx + vy * ny;
            let rx = vx * 1000000 - 2 * d * nx;
            let ry = vy * 1000000 - 2 * d * ny;
            rx * rx + ry * ry == 1000000 * 1000000 * (vx * vx + vy * vy)
        }),
{
    lemma_reflect_mag2_symbolic(vx, vy, nx, ny, 1000000);
}

/// The same identity with the squared normal length kept symbolic.
proof fn lemma_reflect_mag2_symbolic(vx: int, vy: int, nx: int, ny: int, s: int)
    requires
        nx * nx + ny * ny == s,
    ensures
        ({
            let d = vx * nx + vy * ny;
            let rx = vx * s - 2 * d * nx;
            let ry = vy * s - 2 * d * ny;
            rx * rx + ry * ry == s * s * (vx * vx + vy * vy)
        }),
{
    let d = vx * nx + vy * ny;
    let rx = vx * s - 2 * d * nx;
    let ry = vy * s - 2 * d * ny;
    let ax = vx * s;
    let bx = 2 * d * nx;
    let ay = vy * s;
    let by_ = 2 * d * ny;
    assert(rx * rx == ax * ax - 2 * (ax * bx) + bx * bx) by (nonlinear_arith)
        requires
            rx == ax - bx,
    ;
    assert(ry * ry == ay * ay - 2 * (ay * by_) + by_ * by_) by (nonlinear_arith)
        requires
            ry == ay - by_,
    ;
    assert(ax * ax == (vx * vx) * (s * s)) by (nonlinear_arith)
        requires
            ax == vx * s,
    ;
    assert(ay * ay == (vy * vy) * (s * s)) by (nonlinear_arith)
        requires
            ay == vy * s,
    ;
    assert(bx * bx == 4 * ((d * d) * (nx * nx))) by (nonlinear_arith)
        requires
            bx == 2 * d * nx,
    ;
    assert(by_ * by_ == 4 * ((d * d) * (ny * ny))) by (nonlinear_arith)
        requires
            by_ == 2 * d * ny,
    ;
    assert(ax * bx == 2 * ((vx * nx) * (d * s))) by (nonlinear_arith)
        requires
            ax == vx * s,
            bx == 2 * d * nx,
    ;
    assert(ay * by_ == 2 * ((vy * ny) * (d * s))) by (nonlinear_arith)
        requires
            ay == vy * s,
            by_ == 2 * d * ny,
    ;
    assert((vx * nx) * (d * s) + (vy * ny) * (d * s) == (d * d) * s) by (nonlinear_arith)
        requires
            d == vx * nx + vy * ny,
    ;
    assert(((d * d) * (nx * nx)) + ((d * d) * (ny * ny)) == (d * d) * s) by (nonlinear_arith)
        requires
            nx * nx + ny * ny == s,
    ;
    assert((vx * vx) * (s * s) + (vy * vy) * (s * s) == s * s * (vx * vx + vy * vy))
        by (nonlinear_arith);
}

/// A unit normal has components within `[-UNIT, UNIT]`.
proof fn lemma_normal_component_bound(n: Vector2f)
    by (nonlinear_arith)
    requires
        mag2(n) == 1000000,
    ensures
        -1000 <= n.x <= 1000,
        -1000 <= n.y <= 1000,
{
}

/// The reflection of `v` across the unit normal `n` in fixed-point
/// arithmetic.
pub open spec fn reflected_spec(v: Vector2f, n: Vector2f) -> Vector2f {
    let d = dot_spec(v, n);
    Vector2f {
        x: (v.x - div_trunc(2 * d * n.x, 1000000)) as i64,
        y: (v.y - div_trunc(2 * d * n.y, 1000000)) as i64,
    }
}

/// Reflecting across a vertical unit normal (straight up or straight down)
/// flips the sign of the `y` component exactly and leaves `x` alone.
pub proof fn lemma_reflect_axis_vertical(v: Vector2f, n: Vector2f)
    requires
        n.x == 0,
        n.y == 1000 || n.y == -1000,
        -1000000 <= v.y <= 1000000,
    ensures
        reflected_spec(v, n) == (Vector2f { x: v.x, y: (-v.y) as i64 }),
{
    let d = dot_spec(v, n);
    assert(2 * d * n.x == 0);
    assert(div_trunc(0, 1000000) == 0);
    assert(2 * d * n.y == (2 * v.y) * 1000000) by (nonlinear_arith)
        requires
            d == v.x * n.x + v.y * n.y,
            n.x == 0,
            n.y == 1000 || n.y == -1000,
    ;
    lemma_div_trunc_cancel(2 * v.y, 1000000);
}

/// Reflecting across a horizontal unit normal (straight left or straight
/// right) flips the sign of the `x` component exactly and leaves `y` alone.
pub proof fn lemma_reflect_axis_horizontal(v: Vector2f, n: Vector2f)
    requires
        n.y == 0,
        n.x == 1000 || n.x == -1000,
        -1000000 <= v.x <= 1000000,
    ensures
        reflected_spec(v, n) == (Vector2f { x: (-v.x) as i64, y: v.y }),
{
    let d = dot_spec(v, n);
    assert(2 * d * n.y == 0);
    assert(div_trunc(0, 1000000) == 0);
    assert(2 * d * n.x == (2 * v.x) * 1000000) by (nonlinear_arith)
        requires
            d == v.x * n.x + v.y * n.y,
            n.y == 0,
            n.x == 1000 || n.x == -1000,
    ;
    lemma_div_trunc_cancel(2 * v.x, 1000000);
}

impl Vector2f {
    pub fn new(x: i64, y: i64) -> (v: Vector2f)
        ensures
            v == (Vector2f { x, y }),
    {
        Vector2f { x, y }
    }

    /// The unit direction pointing up the screen (negative `y`).
    pub fn up() -> (v: Vector2f)
        ensures
            v.x == 0 && v.y == -UNIT,
    {
        Vector2f { x: 0, y: -UNIT }
    }

    /// The unit direction pointing down the screen (positive `y`).
    pub fn down() -> (v: Vector2f)
        ensures
            v.x == 0 && v.y == UNIT,
    {
        Vector2f { x: 0, y: UNIT }
    }

    /// The unit direction pointing towards the left edge.
    pub fn left() -> (v: Vector2f)
        ensures
            v.x == -UNIT && v.y == 0,
    {
        Vector2f { x: -UNIT, y: 0 }
    }

    /// The unit direction pointing towards the right edge.
    pub fn right() -> (v: Vector2f)
        ensures
            v.x == UNIT && v.y == 0,
    {
        Vector2f { x: UNIT, y: 0 }
    }

    /// A unit direction for `angle` whole degrees: the fixed-point cosine
    /// and sine of the angle.
    pub fn from_angle(angle: u32) -> (v: Vector2f)
        requires
            angle < 360,
        ensures
            v.x == cos_deg_spec(angle as int),
            v.y == sin_deg_spec(angle as int),
            -UNIT <= v.x <= UNIT,
            -UNIT <= v.y <= UNIT,
    {
        Vector2f { x: cos_deg(angle), y: sin_deg(angle) }
    }

    /// Componentwise sum.
    pub fn plus(&self, other: &Vector2f) -> (v: Vector2f)
        requires
            i64::MIN <= self.x + other.x <= i64::MAX,
            i64::MIN <= self.y + other.y <= i64::MAX,
        ensures
            v.x == self.x + other.x,
            v.y == self.y + other.y,
    {
        Vector2f { x: self.x + other.x, y: self.y + other.y }
    }

    /// Componentwise difference.
    pub fn minus(&self, other: &Vector2f) -> (v: Vector2f)
        requires
            i64::MIN <= self.x - other.x <= i64::MAX,
            i64::MIN <= self.y - other.y <= i64::MAX,
        ensures
            v.x == self.x - other.x,
            v.y == self.y - other.y,
    {
        Vector2f { x: self.x - other.x, y: self.y - other.y }
    }

    /// The vector scaled by the plain integer factor `k`.
    pub fn scaled(&self, k: i64) -> (v: Vector2f)
        requires
            in_coord_range(*self),
            -COORD_LIMIT <= k <= COORD_LIMIT,
        ensures
            v.x == self.x * k,
            v.y == self.y * k,
    {
        proof {
            lemma_mul_bounds(self.x as int, k as int, COORD_LIMIT as int, COORD_LIMIT as int);
            lemma_mul_bounds(self.y as int, k as int, COORD_LIMIT as int, COORD_LIMIT as int);
        }
        Vector2f { x: self.x * k, y: self.y * k }
    }

    /// Componentwise product.
    pub fn times(&self, other: &Vector2f) -> (v: Vector2f)
        requires
            in_coord_range(*self),
            in_coord_range(*other),
        ensures
            v.x == self.x * other.x,
            v.y == self.y * other.y,
    {
        proof {
            lemma_mul_bounds(self.x as int, other.x as int, COORD_LIMIT as int, COORD_LIMIT as int);
            lemma_mul_bounds(self.y as int, other.y as int, COORD_LIMIT as int, COORD_LIMIT as int);
        }
        Vector2f { x: self.x * other.x, y: self.y * other.y }
    }

    /// Componentwise quotient, rounding towards zero.  Undefined on a zero
    /// component of `other`, which the precondition rules out.
    pub fn divided(&self, other: &Vector2f) -> (v: Vector2f)
        requires
            in_coord_range(*self),
            in_coord_range(*other),
            other.x != 0,
            other.y != 0,
        ensures
            v.x == div_trunc(self.x as int, other.x as int),
            v.y == div_trunc(self.y as int, other.y as int),
    {
        Vector2f { x: div_trunc_exec(self.x, other.x), y: div_trunc_exec(self.y, other.y) }
    }

    /// Dot product.
    pub fn dot(&self, other: &Vector2f) -> (d: i64)
        requires
            in_coord_range(*self),
            in_coord_range(*other),
        ensures
            d == dot_spec(*self, *other),
    {
        proof {
            lemma_mul_bounds(self.x as int, other.x as int, COORD_LIMIT as int, COORD_LIMIT as int);
            lemma_mul_bounds(self.y as int, other.y as int, COORD_LIMIT as int, COORD_LIMIT as int);
        }
        self.x * other.x + self.y * other.y
    }

    /// The magnitude of the vector, rounded down.
    pub fn magnitude(&self) -> (m: i64)
        requires
            in_coord_range(*self),
        ensures
            m == sqrt_floor(mag2(*self)),
            0 <= m,
            m * m <= mag2(*self),
            mag2(*self) < (m + 1) * (m + 1),
    {
        proof {
            lemma_mul_bounds(self.x as int, self.x as int, COORD_LIMIT as int, COORD_LIMIT as int);
            lemma_mul_bounds(self.y as int, self.y as int, COORD_LIMIT as int, COORD_LIMIT as int);
            lemma_square_nonneg(self.x as int);
            lemma_square_nonneg(self.y as int);
        }
        let n: i64 = self.x * self.x + self.y * self.y;
        let mut lo: i64 = 0;
        let mut hi: i64 = 2_000_000_000;
        proof {
            assert(2_000_000_000i64 * 2_000_000_000i64 > n) by (nonlinear_arith)
                requires
                    n <= 2 * (0x4000_0000 * 0x4000_0000),
            ;
        }
        while hi - lo > 1
            invariant
                0 <= lo < hi <= 2_000_000_000,
                lo * lo <= n,
                n < hi * hi,
            decreases hi - lo,
        {
            let mid: i64 = lo + (hi - lo) / 2;
            proof {
                lemma_mul_bounds(mid as int, mid as int, 2_000_000_000, 2_000_000_000);
            }
            if mid * mid <= n {
                lo = mid;
            } else {
                hi = mid;
            }
        }
        proof {
            lemma_sqrt_floor_unique(mag2(*self), lo as int);
        }
        lo
    }

    /// The distance between the points `self` and `other`, rounded down.
    pub fn distance_to(&self, other: &Vector2f) -> (m: i64)
        requires
            -COORD_LIMIT <= self.x - other.x <= COORD_LIMIT,
            -COORD_LIMIT <= self.y - other.y <= COORD_LIMIT,
        ensures
            ({
                let dx = self.x - other.x;
                let dy = self.y - other.y;
                m == sqrt_floor(dx * dx + dy * dy)
            }),
    {
        let diff = self.minus(other);
        diff.magnitude()
    }

    /// The vector rescaled to magnitude close to [`UNIT`].  Undefined on a
    /// zero vector, which the precondition rules out.
    pub fn normalized(&self) -> (v: Vector2f)
        requires
            in_coord_range(*self),
            mag2(*self) > 0,
        ensures
            v.x == div_trunc(self.x * UNIT, sqrt_floor(mag2(*self))),
            v.y == div_trunc(self.y * UNIT, sqrt_floor(mag2(*self))),
    {
        let m = self.magnitude();
        proof {
            assert(m > 0) by (nonlinear_arith)
                requires
                    0 <= m,
                    mag2(*self) < (m + 1) * (m + 1),
                    mag2(*self) > 0,
            ;
        }
        Vector2f { x: scale_div(self.x * UNIT, m), y: scale_div(self.y * UNIT, m) }
    }

    /// Rescale the vector in place to magnitude close to [`UNIT`].
    pub fn normalize(&mut self)
        requires
            in_coord_range(*old(self)),
            mag2(*old(self)) > 0,
        ensures
            final(self).x == div_trunc(old(self).x * UNIT, sqrt_floor(mag2(*old(self)))),
            final(self).y == div_trunc(old(self).y * UNIT, sqrt_floor(mag2(*old(self)))),
    {
        let v = self.normalized();
        *self = v;
    }

    /// Reflect the vector across a unit `normal`, in place.
    pub fn reflect(&mut self, normal: &Vector2f)
        requires
            in_coord_range(*old(self)),
            mag2(*normal) == UNIT * UNIT,
        ensures
            *final(self) == reflected_spec(*old(self), *normal),
    {
        let v = self.reflected(normal);
        *self = v;
    }

    /// The reflection of the vector across a unit `normal`:
    /// `v - 2 (v . n) n`, with the fixed-point products rescaled by
    /// truncating division.
    pub fn reflected(&self, normal: &Vector2f) -> (v: Vector2f)
        requires
            in_coord_range(*self),
            mag2(*normal) == UNIT * UNIT,
        ensures
            v == reflected_spec(*self, *normal),
    {
        proof {
            lemma_normal_component_bound(*normal);
        }
        let d: i64 = self.dot(normal);
        proof {
            lemma_mul_bounds(self.x as int, normal.x as int, COORD_LIMIT as int, 1000);
            lemma_mul_bounds(self.y as int, normal.y as int, COORD_LIMIT as int, 1000);
            lemma_mul_bounds(2 * d, normal.x as int, 0x1_0000_0000_0000, 1000);
            lemma_mul_bounds(2 * d, normal.y as int, 0x1_0000_0000_0000, 1000);
        }
        let rx: i64 = self.x - scale_div(2 * d * normal.x, UNIT * UNIT);
        let ry: i64 = self.y - scale_div(2 * d * normal.y, UNIT * UNIT);
        Vector2f { x: rx, y: ry }
    }
}

/// Division of `a` by nonzero `b` of moderate size, rounding towards zero.
fn div_trunc_exec(a: i64, b: i64) -> (q: i64)
    requires
        b != 0,
        -COORD_LIMIT <= b <= COORD_LIMIT,
        -0x4000_0000_0000_0000 <= a <= 0x4000_0000_0000_0000,
    ensures
        q == div_trunc(a as int, b as int),
{
    if b > 0 {
        scale_div(a, b)
    } else {
        -scale_div(a, -b)
    }
}

/// Division of `a` by positive `b` rounding towards zero, on machine
/// integers.
fn scale_div(a: i64, b: i64) -> (q: i64)
    requires
        0 < b,
        -0x4000_0000_0000_0000 <= a <= 0x4000_0000_0000_0000,
    ensures
        q == div_trunc(a as int, b as int),
{
    if a >= 0 {
        proof {
            lemma_div_nonneg(a as int, b as int);
        }
        a / b
    } else {
        proof {
            lemma_div_nonneg(-a as int, b as int);
        }
        -((-a) / b)
    }
}

/// Fixed-point sine of `d` whole degrees.
pub fn sin_deg(d: u32) -> (s: i64)
    requires
        d < 360,
    ensures
        s == sin_deg_spec(d as int),
        -UNIT <= s <= UNIT,
{
    proof {
        lemma_sin_deg_range(d as int);
    }
    if d <= 180 {
        sin_half(d)
    } else {
        -sin_half(d - 180)
    }
}

/// Fixed-point cosine of `d` whole degrees.
pub fn cos_deg(d: u32) -> (c: i64)
    requires
        d < 360,
    ensures
        c == cos_deg_spec(d as int),
        -UNIT <= c <= UNIT,
{
    proof {
        lemma_cos_deg_range(d as int);
    }
    if d < 270 {
        sin_deg(d + 90)
    } else {
        sin_deg(d - 270)
    }
}

/// Bhaskara's approximation on the first half turn.
fn sin_half(d: u32) -> (s: i64)
    requires
        d <= 180,
    ensures
        s == sin_half_deg(d as int),
        0 <= s <= UNIT,
{
    proof {
        lemma_sin_half_deg_range(d as int);
    }
    let di: i64 = d as i64;
    proof {
        lemma_mul_bounds(di as int, 180 - di, 180, 180);
    }
    let p: i64 = di * (180 - di);
    proof {
        assert(0 <= p <= 8100) by (nonlinear_arith)
            requires
                p == di * (180 - di),
                0 <= di <= 180,
        ;
        lemma_div_range(4 * p * 1000, 40500 - p, 1000);
    }
    (4 * p * 1000) / (40500 - p)
}

} // verus!
