use vstd::prelude::*;

verus! {

/// A point on the display, in pixels.
#[derive(Clone, Copy, Debug, PartialEq, Eq, Structural)]
pub struct Point {
    pub x: i32,
    pub y: i32,
}

/// A half-open rectangle: `min` is inside, `max` is just past the last pixel.
#[derive(Clone, Copy, Debug, PartialEq, Eq, Structural)]
pub struct Rectangle {
    pub min: Point,
    pub max: Point,
}

/// Direction along a line of text.
#[derive(Clone, Copy, Debug, PartialEq, Eq, Structural)]
pub enum LinearDir {
    Backward,
    Forward,
}

/// Two rectangles share at least one pixel.
pub open spec fn overlaps_spec(a: Rectangle, b: Rectangle) -> bool {
    &&& a.min.x < b.max.x
    &&& b.min.x < a.max.x
    &&& a.min.y < b.max.y
    &&& b.min.y < a.max.y
}

/// The smallest rectangle that holds both.
pub open spec fn union_spec(a: Rectangle, b: Rectangle) -> Rectangle {
    Rectangle {
        min: Point {
            x: if a.min.x <= b.min.x { a.min.x } else { b.min.x },
            y: if a.min.y <= b.min.y { a.min.y } else { b.min.y },
        },
        max: Point {
            x: if a.max.x >= b.max.x { a.max.x } else { b.max.x },
            y: if a.max.y >= b.max.y { a.max.y } else { b.max.y },
        },
    }
}

/// `outer` covers every pixel that `inner` covers (as bounds).
pub open spec fn covers(outer: Rectangle, inner: Rectangle) -> bool {
    &&& outer.min.x <= inner.min.x
    &&& outer.min.y <= inner.min.y
    &&& inner.max.x <= outer.max.x
    &&& inner.max.y <= outer.max.y
}

impl Rectangle {
    pub fn new(min_x: i32, min_y: i32, max_x: i32, max_y: i32) -> (r: Rectangle)
        ensures
            r == (Rectangle { min: Point { x: min_x, y: min_y }, max: Point { x: max_x, y: max_y } }),
    {
        Rectangle { min: Point { x: min_x, y: min_y }, max: Point { x: max_x, y: max_y } }
    }

    pub fn overlaps(&self, other: &Rectangle) -> (r: bool)
        ensures
            r == overlaps_spec(*self, *other),
    {
        self.min.x < other.max.x && other.min.x < self.max.x && self.min.y < other.max.y
            && other.min.y < self.max.y
    }

    /// Grows `self` to the smallest rectangle that also holds `other`.
    pub fn absorb(&mut self, other: &Rectangle)
        ensures
            *final(self) == union_spec(*old(self), *other),
    {
        if other.min.x < self.min.x {
            self.min.x = other.min.x;
        }
        if other.min.y < self.min.y {
            self.min.y = other.min.y;
        }
        if other.max.x > self.max.x {
            self.max.x = other.max.x;
        }
        if other.max.y > self.max.y {
            self.max.y = other.max.y;
        }
    }
}

} // verus!
