//! Points, extents and rectangles on the integer layout grid.
use vstd::prelude::*;

verus! {

/// A position on the layout grid.
#[derive(Clone, Copy, Debug, PartialEq, Eq, Structural, Hash)]
pub struct Pos2 {
    pub x: i32,
    pub y: i32,
}

/// A width and a height.
#[derive(Clone, Copy, Debug, PartialEq, Eq, Structural, Hash)]
pub struct Vec2 {
    pub x: u32,
    pub y: u32,
}

/// An axis-aligned rectangle, from `min` (left, top) to `max` (right, bottom).
#[derive(Clone, Copy, Debug, PartialEq, Eq, Structural, Hash)]
pub struct Rect {
    pub min: Pos2,
    pub max: Pos2,
}

/// The smaller of two lengths.
pub open spec fn spec_min(a: int, b: int) -> int {
    if a <= b {
        a
    } else {
        b
    }
}

/// The whole number halfway between `a` and `b`, rounded down.
pub open spec fn midpoint(a: int, b: int) -> int {
    (a + b) / 2
}

pub fn pos2(x: i32, y: i32) -> (p: Pos2)
    ensures
        p == (Pos2 { x, y }),
{
    Pos2 { x, y }
}

pub fn vec2(x: u32, y: u32) -> (v: Vec2)
    ensures
        v == (Vec2 { x, y }),
{
    Vec2 { x, y }
}

impl Vec2 {
    /// The smaller of the two components.
    pub fn min_elem(&self) -> (m: u32)
        ensures
            m == spec_min(self.x as int, self.y as int),
    {
        if self.x <= self.y {
            self.x
        } else {
            self.y
        }
    }
}

impl Rect {
    pub open spec fn spec_width(&self) -> int {
        self.max.x - self.min.x
    }

    pub open spec fn spec_height(&self) -> int {
        self.max.y - self.min.y
    }

    /// The point on the left edge, halfway down.
    pub open spec fn spec_left_center(&self) -> Pos2 {
        Pos2 { x: self.min.x, y: midpoint(self.min.y as int, self.max.y as int) as i32 }
    }

    /// The part of this rectangle to the left of `x`.
    pub open spec fn left_of(&self, x: i32) -> Rect {
        Rect { min: self.min, max: Pos2 { x, y: self.max.y } }
    }

    /// The part of this rectangle to the right of `x`.
    pub open spec fn right_of(&self, x: i32) -> Rect {
        Rect { min: Pos2 { x, y: self.min.y }, max: self.max }
    }

    pub fn from_min_max(min: Pos2, max: Pos2) -> (r: Rect)
        ensures
            r == (Rect { min, max }),
    {
        Rect { min, max }
    }

    pub fn width(&self) -> (w: i64)
        ensures
            w == self.spec_width(),
    {
        self.max.x as i64 - self.min.x as i64
    }

    pub fn height(&self) -> (h: i64)
        ensures
            h == self.spec_height(),
    {
        self.max.y as i64 - self.min.y as i64
    }

    #[verifier::when_used_as_spec(spec_left_center)]
    pub fn left_center(&self) -> (p: Pos2)
        ensures
            p == self.spec_left_center(),
            p.x == self.min.x,
            p.y == midpoint(self.min.y as int, self.max.y as int),
    {
        let sum: i64 = self.min.y as i64 + self.max.y as i64;
        let y: i64 = if sum >= 0 {
            sum / 2
        } else {
            -((1 - sum) / 2)
        };
        Pos2 { x: self.min.x, y: y as i32 }
    }

    /// Cuts the rectangle in two at the vertical line `x`.
    pub fn split_left_right_at_x(&self, x: i32) -> (halves: (Rect, Rect))
        ensures
            halves.0 == self.left_of(x),
            halves.1 == self.right_of(x),
    {
        (
            Rect { min: self.min, max: Pos2 { x, y: self.max.y } },
            Rect { min: Pos2 { x, y: self.min.y }, max: self.max },
        )
    }
}

} // verus!
