use crate::point::Point;
use vstd::prelude::*;

verus! {

/// An axis-aligned rectangle: origin `(x, y)` plus extent `(w, h)`, in the
/// root window's coordinate space.
#[derive(Clone, Copy, Debug, Default, PartialEq, Eq, Structural)]
pub struct Rect {
    pub x: i32,
    pub y: i32,
    pub w: i32,
    pub h: i32,
}

impl Rect {
    /// Whether the two rectangles overlap (touching edges count as overlap).
    pub open spec fn spec_intersects(self, other: Rect) -> bool {
        !(self.x > other.x + other.w || self.x + self.w < other.x || self.y > other.y + other.h
            || self.y + self.h < other.y)
    }

    pub fn new(x: i32, y: i32, w: i32, h: i32) -> (r: Rect)
        ensures
            r == (Rect { x, y, w, h }),
    {
        Rect { x, y, w, h }
    }

    /// Grows the rectangle by `v` on every side.
    pub fn inflate(&self, v: i32) -> (r: Rect)
        requires
            i32::MIN <= self.x - v <= i32::MAX,
            i32::MIN <= self.y - v <= i32::MAX,
            i32::MIN <= self.w + v * 2 <= i32::MAX,
            i32::MIN <= self.h + v * 2 <= i32::MAX,
        ensures
            r == (Rect {
                x: (self.x - v) as i32,
                y: (self.y - v) as i32,
                w: (self.w + v * 2) as i32,
                h: (self.h + v * 2) as i32,
            }),
    {
        Rect {
            x: self.x - v,
            y: self.y - v,
            w: ((self.w as i64) + (v as i64) * 2) as i32,
            h: ((self.h as i64) + (v as i64) * 2) as i32,
        }
    }

    pub fn top_left(&self) -> (r: Point)
        ensures
            r == (Point { x: self.x, y: self.y }),
    {
        Point { x: self.x, y: self.y }
    }

    pub fn top_right(&self) -> (r: Point)
        requires
            i32::MIN <= self.x + self.w <= i32::MAX,
        ensures
            r == (Point { x: (self.x + self.w) as i32, y: self.y }),
    {
        Point { x: self.x + self.w, y: self.y }
    }

    pub fn bottom_left(&self) -> (r: Point)
        requires
            i32::MIN <= self.y + self.h <= i32::MAX,
        ensures
            r == (Point { x: self.x, y: (self.y + self.h) as i32 }),
    {
        Point { x: self.x, y: self.y + self.h }
    }

    pub fn bottom_right(&self) -> (r: Point)
        requires
            i32::MIN <= self.x + self.w <= i32::MAX,
            i32::MIN <= self.y + self.h <= i32::MAX,
        ensures
            r == (Point { x: (self.x + self.w) as i32, y: (self.y + self.h) as i32 }),
    {
        Point { x: self.x + self.w, y: self.y + self.h }
    }

    pub fn size(&self) -> (r: Point)
        ensures
            r == (Point { x: self.w, y: self.h }),
    {
        Point { x: self.w, y: self.h }
    }

    /// The x coordinate of the right edge, widened so that it never overflows.
    pub fn right(&self) -> (r: i64)
        ensures
            r == self.x + self.w,
    {
        (self.x as i64) + (self.w as i64)
    }

    /// The y coordinate of the bottom edge, widened so that it never overflows.
    pub fn bottom(&self) -> (r: i64)
        ensures
            r == self.y + self.h,
    {
        (self.y as i64) + (self.h as i64)
    }

    /// Translates the rectangle by the origin of `other`.
    pub fn add(&self, other: Rect) -> (r: Rect)
        requires
            i32::MIN <= self.x + other.x <= i32::MAX,
            i32::MIN <= self.y + other.y <= i32::MAX,
        ensures
            r == (Rect {
                x: (self.x + other.x) as i32,
                y: (self.y + other.y) as i32,
                w: self.w,
                h: self.h,
            }),
    {
        Rect { x: self.x + other.x, y: self.y + other.y, ..*self }
    }

    pub fn add_pt(&self, other: Point) -> (r: Rect)
        requires
            i32::MIN <= self.x + other.x <= i32::MAX,
            i32::MIN <= self.y + other.y <= i32::MAX,
        ensures
            r == (Rect {
                x: (self.x + other.x) as i32,
                y: (self.y + other.y) as i32,
                w: self.w,
                h: self.h,
            }),
    {
        Rect { x: self.x + other.x, y: self.y + other.y, ..*self }
    }

    /// Translates the rectangle by the negated origin of `other`.
    pub fn sub(&self, other: Rect) -> (r: Rect)
        requires
            i32::MIN <= self.x - other.x <= i32::MAX,
            i32::MIN <= self.y - other.y <= i32::MAX,
        ensures
            r == (Rect {
                x: (self.x - other.x) as i32,
                y: (self.y - other.y) as i32,
                w: self.w,
                h: self.h,
            }),
    {
        Rect { x: self.x - other.x, y: self.y - other.y, ..*self }
    }

    pub fn sub_pt(&self, other: Point) -> (r: Rect)
        requires
            i32::MIN <= self.x - other.x <= i32::MAX,
            i32::MIN <= self.y - other.y <= i32::MAX,
        ensures
            r == (Rect {
                x: (self.x - other.x) as i32,
                y: (self.y - other.y) as i32,
                w: self.w,
                h: self.h,
            }),
    {
        Rect { x: self.x - other.x, y: self.y - other.y, ..*self }
    }

    pub fn intersects(&self, other: Rect) -> (r: bool)
        ensures
            r == self.spec_intersects(other),
    {
        !((self.x as i64) > other.right() || self.right() < (other.x as i64) || (self.y as i64)
            > other.bottom() || self.bottom() < (other.y as i64))
    }
}

} // verus!
