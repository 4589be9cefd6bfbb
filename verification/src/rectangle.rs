//! Axis-aligned rectangles and their overlap test.

use vstd::prelude::*;

verus! {

/// An axis-aligned rectangle, given by its top-left corner and its extent, in
/// units.
#[derive(Clone, Copy, Debug, PartialEq, Eq, Structural)]
pub struct Rectangle {
    pub x: i64,
    pub y: i64,
    pub width: i64,
    pub height: i64,
}

impl Rectangle {
    /// The rectangle with top-left corner `(x, y)` and the given extent.
    pub fn new(x: i64, y: i64, width: i64, height: i64) -> (r: Rectangle)
        ensures
            r.x == x,
            r.y == y,
            r.width == width,
            r.height == height,
    {
        Rectangle { x, y, width, height }
    }

    /// The x coordinate just past the right edge.
    pub open spec fn right(self) -> int {
        self.x + self.width
    }

    /// The y coordinate just past the bottom edge.
    pub open spec fn bottom(self) -> int {
        self.y + self.height
    }

    /// The point `(px, py)` lies in the rectangle; the left and top edges
    /// belong to it, the right and bottom edges do not.
    pub open spec fn covers(self, px: int, py: int) -> bool {
        &&& self.x <= px < self.right()
        &&& self.y <= py < self.bottom()
    }

    /// The two rectangles overlap: on each axis, each one starts strictly
    /// before the other one ends. Rectangles that only share an edge do not
    /// overlap.
    pub open spec fn overlaps(self, other: Rectangle) -> bool {
        &&& self.x < other.right()
        &&& self.right() > other.x
        &&& self.y < other.bottom()
        &&& self.bottom() > other.y
    }

    /// Tells whether `self` and `other` overlap.
    pub fn intersects(&self, other: &Rectangle) -> (hit: bool)
        ensures
            hit == self.overlaps(*other),
    {
        let left: i128 = self.x as i128;
        let top: i128 = self.y as i128;
        let width: i128 = self.width as i128;
        let height: i128 = self.height as i128;
        let other_left: i128 = other.x as i128;
        let other_top: i128 = other.y as i128;
        let other_width: i128 = other.width as i128;
        let other_height: i128 = other.height as i128;
        left < other_left + other_width && left + width > other_left && top < other_top
            + other_height && top + height > other_top
    }
}

/// Overlap does not depend on the order of the two rectangles.
pub proof fn lemma_overlap_is_symmetric(a: Rectangle, b: Rectangle)
    ensures
        a.overlaps(b) == b.overlaps(a),
{
}

/// Two rectangles of positive extent overlap exactly when some point lies in
/// both.
pub proof fn lemma_overlap_is_a_shared_point(a: Rectangle, b: Rectangle)
    requires
        a.width > 0,
        a.height > 0,
        b.width > 0,
        b.height > 0,
    ensures
        a.overlaps(b) <==> exists|px: int, py: int| #[trigger] a.covers(px, py) && b.covers(px, py),
{
    if a.overlaps(b) {
        let px = if a.x >= b.x { a.x as int } else { b.x as int };
        let py = if a.y >= b.y { a.y as int } else { b.y as int };
        assert(a.covers(px, py) && b.covers(px, py));
    }
}

} // verus!
