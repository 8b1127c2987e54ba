//! Axis-aligned boxes in fixed-point coordinates, with the strict overlap
//! test the collision logic is built on.

use vstd::prelude::*;

verus! {

use crate::math::Vector2f;

/// An axis-aligned box.  Well-formed boxes have `left <= right` and
/// `top <= bottom`; constructors demand it.
#[derive(Clone, Copy, Debug, PartialEq, Eq, Structural)]
pub struct Rect {
    pub left: i64,
    pub right: i64,
    pub top: i64,
    pub bottom: i64,
}

/// The edges of `r` are ordered: `left <= right` and `top <= bottom`.
pub open spec fn rect_wf(r: Rect) -> bool {
    r.left <= r.right && r.top <= r.bottom
}

/// Strict overlap: the boxes' projections overlap on both axes.  Boxes that
/// only touch along an edge do not intersect.
pub open spec fn intersects_spec(a: Rect, b: Rect) -> bool {
    a.left < b.right && a.right > b.left && a.top < b.bottom && a.bottom > b.top
}

/// The overlap test is symmetric.
pub proof fn lemma_intersects_symmetric(a: Rect, b: Rect)
    ensures
        intersects_spec(a, b) == intersects_spec(b, a),
{
}

/// Boxes that share only a boundary edge do not intersect: overlap is
/// strict.
pub proof fn lemma_touching_boxes_do_not_intersect(a: Rect, b: Rect)
    requires
        a.right == b.left || b.right == a.left || a.bottom == b.top || b.bottom == a.top,
    ensures
        !intersects_spec(a, b),
{
}

impl Rect {
    pub fn new(left: i64, top: i64, right: i64, bottom: i64) -> (r: Rect)
        requires
            left <= right,
            top <= bottom,
        ensures
            r == (Rect { left, right, top, bottom }),
    {
        Rect { left, top, right, bottom }
    }

    pub fn width(&self) -> (w: i64)
        requires
            i64::MIN <= self.right - self.left <= i64::MAX,
        ensures
            w == self.right - self.left,
    {
        self.right - self.left
    }

    pub fn height(&self) -> (h: i64)
        requires
            i64::MIN <= self.bottom - self.top <= i64::MAX,
        ensures
            h == self.bottom - self.top,
    {
        self.bottom - self.top
    }

    /// The horizontal coordinate of the box's center, rounded towards
    /// `left`.
    pub fn center_x(&self) -> (x: i64)
        requires
            rect_wf(*self),
            i64::MIN <= self.right - self.left <= i64::MAX,
        ensures
            x == self.left + (self.right - self.left) / 2,
    {
        self.left + (self.right - self.left) / 2
    }

    /// The vertical coordinate of the box's center, rounded towards `top`.
    pub fn center_y(&self) -> (y: i64)
        requires
            rect_wf(*self),
            i64::MIN <= self.bottom - self.top <= i64::MAX,
        ensures
            y == self.top + (self.bottom - self.top) / 2,
    {
        self.top + (self.bottom - self.top) / 2
    }

    /// The center point of the box, each coordinate rounded down.
    pub fn center(&self) -> (c: Vector2f)
        requires
            rect_wf(*self),
            i64::MIN <= self.right - self.left <= i64::MAX,
            i64::MIN <= self.bottom - self.top <= i64::MAX,
        ensures
            c.x == self.left + (self.right - self.left) / 2,
            c.y == self.top + (self.bottom - self.top) / 2,
    {
        Vector2f { x: self.center_x(), y: self.center_y() }
    }

    /// Strict overlap test; see [`intersects_spec`].
    pub fn intersects(&self, other: &Rect) -> (r: bool)
        ensures
            r == intersects_spec(*self, *other),
    {
        self.left < other.right && self.right > other.left && self.top < other.bottom
            && self.bottom > other.top
    }
}

} // verus!
