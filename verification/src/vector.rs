//! Two-dimensional vectors of fixed-point numbers.

use vstd::prelude::*;

verus! {

/// A point or a displacement in the plane, in units. The x axis points right
/// and the y axis points down, as on a screen.
#[derive(Clone, Copy, Debug, PartialEq, Eq, Structural)]
pub struct Vec2 {
    pub x: i64,
    pub y: i64,
}

impl Vec2 {
    /// The vector with the given components.
    pub fn new(x: i64, y: i64) -> (v: Vec2)
        ensures
            v.x == x,
            v.y == y,
    {
        Vec2 { x, y }
    }

    /// The zero vector.
    pub fn zero() -> (v: Vec2)
        ensures
            v.x == 0,
            v.y == 0,
    {
        Vec2 { x: 0, y: 0 }
    }

    /// Both components lie in `-limit ..= limit`.
    pub open spec fn within(self, limit: int) -> bool {
        &&& -limit <= self.x <= limit
        &&& -limit <= self.y <= limit
    }

    /// Tells whether both components lie in `-limit ..= limit`.
    pub fn is_within(&self, limit: i64) -> (inside: bool)
        requires
            limit >= 0,
        ensures
            inside == self.within(limit as int),
    {
        -limit <= self.x && self.x <= limit && -limit <= self.y && self.y <= limit
    }
}

} // verus!
