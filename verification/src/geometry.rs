//! Points and rectangles in exact fixed-point coordinates.
//!
//! A coordinate is a whole number of sub-pixel units. Two points are the same
//! point only if both coordinates are equal: nothing here compares by distance.

use vstd::prelude::*;

verus! {

/// A position of the pen, in sub-pixel units.
#[derive(Clone, Copy, Debug, PartialEq, Eq, Structural)]
pub struct Point {
    pub x: i32,
    pub y: i32,
}

/// An axis-aligned rectangle, in sub-pixel units.
///
/// The rectangle whose four sides are zero stands for "no geometry".
#[derive(Clone, Copy, Debug, PartialEq, Eq, Structural)]
pub struct Rectangle {
    pub x_min: i32,
    pub y_min: i32,
    pub x_max: i32,
    pub y_max: i32,
}

impl Rectangle {
    /// The rectangle that stands for "no geometry".
    pub open spec fn empty() -> Rectangle {
        Rectangle { x_min: 0, y_min: 0, x_max: 0, y_max: 0 }
    }

    /// Both extents run from their minimum up to their maximum.
    pub open spec fn is_ordered(self) -> bool {
        self.x_min <= self.x_max && self.y_min <= self.y_max
    }

    /// The point `(x, y)` lies inside the rectangle or on its border.
    pub open spec fn holds(self, x: int, y: int) -> bool {
        self.x_min <= x <= self.x_max && self.y_min <= y <= self.y_max
    }
}

impl Default for Rectangle {
    fn default() -> (r: Rectangle)
        ensures
            r == Rectangle::empty(),
    {
        Rectangle { x_min: 0, y_min: 0, x_max: 0, y_max: 0 }
    }
}

} // verus!
