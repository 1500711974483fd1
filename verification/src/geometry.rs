//! Points and vectors on the board, and the distance measure used to pick
//! the nearest threat.
//!
//! Nearness is decided by comparing squared Euclidean distances in exact
//! integer arithmetic. Squaring is strictly monotone on non-negative reals,
//! so "strictly closer" and "at the same distance" mean exactly the same
//! thing for the squared distance as for the Euclidean distance itself.

use vstd::prelude::*;

verus! {

/// A position on the board: two signed integer coordinates.
#[derive(Clone, Copy, PartialEq, Eq, Structural, Debug)]
pub struct Point {
    pub x: i32,
    pub y: i32,
}

/// An entity's per-turn displacement. Descriptive only: the current
/// targeting rule does not consume it.
#[derive(Clone, Copy, PartialEq, Eq, Structural, Debug)]
pub struct Vector {
    pub vx: i32,
    pub vy: i32,
}

/// The squared Euclidean distance between two points, as a mathematical
/// integer.
pub open spec fn dist_sq(a: Point, b: Point) -> int {
    (b.x - a.x) * (b.x - a.x) + (b.y - a.y) * (b.y - a.y)
}

proof fn lemma_square_bound(v: int)
    requires
        -0x1_0000_0000 <= v <= 0x1_0000_0000,
    ensures
        0 <= v * v <= 0x1_0000_0000_0000_0000,
{
    assert(0 <= v * v <= 0x1_0000_0000_0000_0000) by (nonlinear_arith)
        requires
            -0x1_0000_0000 <= v <= 0x1_0000_0000,
    ;
}

impl Point {
    /// The squared Euclidean distance from `self` to `other`. Exact for all
    /// pairs of points: the differences fit in 33 bits, so the sum of their
    /// squares fits comfortably in an `i128`.
    pub fn distance_squared(&self, other: &Point) -> (r: i128)
        ensures
            r == dist_sq(*self, *other),
    {
        let dx: i128 = (other.x as i128) - (self.x as i128);
        let dy: i128 = (other.y as i128) - (self.y as i128);
        proof {
            lemma_square_bound(dx as int);
            lemma_square_bound(dy as int);
        }
        dx * dx + dy * dy
    }
}

/// The distance measure is symmetric: the distance from `a` to `b` equals
/// the distance from `b` to `a`.
pub proof fn lemma_dist_sq_symmetric(a: Point, b: Point)
    ensures
        dist_sq(a, b) == dist_sq(b, a),
{
    assert((b.x - a.x) * (b.x - a.x) == (a.x - b.x) * (a.x - b.x)) by (nonlinear_arith);
    assert((b.y - a.y) * (b.y - a.y) == (a.y - b.y) * (a.y - b.y)) by (nonlinear_arith);
}

/// The distance measure is zero exactly when the two points are identical.
pub proof fn lemma_dist_sq_zero_iff_eq(a: Point, b: Point)
    ensures
        dist_sq(a, b) == 0 <==> a == b,
{
    if dist_sq(a, b) == 0 {
        assert(b.x == a.x && b.y == a.y) by (nonlinear_arith)
            requires
                (b.x - a.x) * (b.x - a.x) + (b.y - a.y) * (b.y - a.y) == 0,
        ;
    }
}

} // verus!
