use crate::rect::Rect;
use vstd::prelude::*;

verus! {

/// A position, in the root window's coordinate space.
#[derive(Clone, Copy, Debug, Default, PartialEq, Eq, Structural)]
pub struct Point {
    pub x: i32,
    pub y: i32,
}

impl Point {
    /// Whether the point lies strictly inside `rect` (points on the edges do
    /// not count as inside).
    pub open spec fn spec_inside(self, rect: Rect) -> bool {
        &&& rect.x < self.x < rect.x + rect.w
        &&& rect.y < self.y < rect.y + rect.h
    }

    pub fn new_i(x: i32, y: i32) -> (r: Point)
        ensures
            r == (Point { x, y }),
    {
        Point { x, y }
    }

    pub fn inside(&self, rect: Rect) -> (r: bool)
        ensures
            r == self.spec_inside(rect),
    {
        (self.x as i64) > (rect.x as i64) && (self.x as i64) < rect.right() && (self.y as i64)
            > (rect.y as i64) && (self.y as i64) < rect.bottom()
    }

    pub fn add(&self, other: Point) -> (r: Point)
        requires
            i32::MIN <= self.x + other.x <= i32::MAX,
            i32::MIN <= self.y + other.y <= i32::MAX,
        ensures
            r == (Point { x: (self.x + other.x) as i32, y: (self.y + other.y) as i32 }),
    {
        Point { x: self.x + other.x, y: self.y + other.y }
    }

    pub fn sub(&self, other: Point) -> (r: Point)
        requires
            i32::MIN <= self.x - other.x <= i32::MAX,
            i32::MIN <= self.y - other.y <= i32::MAX,
        ensures
            r == (Point { x: (self.x - other.x) as i32, y: (self.y - other.y) as i32 }),
    {
        Point { x: self.x - other.x, y: self.y - other.y }
    }
}

} // verus!
