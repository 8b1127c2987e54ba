//! Deterministic simulation core of a two-player paddle-and-ball arcade game.
//!
//! All positions, sizes and speeds are fixed-point values: an `i64` counts
//! thousandths of a pixel, so `1000` is one pixel.  Directions are stored as
//! near-unit vectors on the same scale.  Everything the simulation computes is
//! exact integer arithmetic, and every state change is pinned down by a
//! contract.

use vstd::prelude::*;

pub mod ball;
pub mod color;
pub mod gamemanager;
pub mod math;
pub mod paddle;
pub mod rect;
pub mod rng;

verus! {

/// Fixed-point scale: the number of sub-units that make one pixel, and the
/// length of a unit direction vector.
pub const UNIT: i64 = 1000;

/// Field edges live within this bound.  It is a machine limit, far beyond
/// any real screen, that keeps the integer arithmetic of a tick in range.
pub const FIELD_LIMIT: i64 = 1_000_000_000;

/// Speeds stay within this bound (thousandths of a pixel per second):
/// another machine limit with ample room above any playable speed.
pub const SPEED_LIMIT: i64 = 1_000_000_000;

/// A single tick advances time by at most this many milliseconds.
pub const DT_LIMIT: i64 = 100_000;

} // verus!
