//! Points and rectangles on the tile grid.

use vstd::prelude::*;

verus! {

/// A position on the tile grid.
#[derive(Clone, Copy, Debug, PartialEq, Eq, Hash, Structural)]
pub struct Point {
    pub x: i32,
    pub y: i32,
}

impl Point {
    pub fn new(x: i32, y: i32) -> (p: Point)
        ensures
            p.x == x,
            p.y == y,
    {
        Point { x, y }
    }

    pub fn zero() -> (p: Point)
        ensures
            p.x == 0,
            p.y == 0,
    {
        Point { x: 0, y: 0 }
    }
}

/// A rectangle given by its top-left corner (inclusive) and its
/// bottom-right corner (exclusive).
#[derive(Clone, Copy, Debug, PartialEq, Eq, Structural)]
pub struct Rect {
    pub x1: i32,
    pub y1: i32,
    pub x2: i32,
    pub y2: i32,
}

impl Rect {
    /// Whether `p` is one of the points that the rectangle covers.
    pub open spec fn covers(self, p: Point) -> bool {
        self.x1 <= p.x < self.x2 && self.y1 <= p.y < self.y2
    }

    /// The rectangle whose top-left corner is `(x, y)`, `w` wide and `h` high.
    pub fn with_size(x: i32, y: i32, w: i32, h: i32) -> (r: Rect)
        requires
            i32::MIN <= x + w <= i32::MAX,
            i32::MIN <= y + h <= i32::MAX,
        ensures
            r.x1 == x,
            r.y1 == y,
            r.x2 == x + w,
            r.y2 == y + h,
    {
        Rect { x1: x, y1: y, x2: x + w, y2: y + h }
    }

    /// Whether the rectangle covers `p`.
    pub fn point_in_rect(&self, p: Point) -> (b: bool)
        ensures
            b == self.covers(p),
    {
        self.x1 <= p.x && p.x < self.x2 && self.y1 <= p.y && p.y < self.y2
    }
}

} // verus!
