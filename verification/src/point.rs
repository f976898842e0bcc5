//! Grid coordinates.

use vstd::prelude::*;
use vstd::std_specs::ops::AddSpecImpl;

verus! {

/// A column `x` and a row `y` of the grid, counted from the top left.
#[derive(Clone, Copy, Debug, PartialEq, Eq, PartialOrd, Ord, Structural)]
pub struct Point {
    pub x: u32,
    pub y: u32,
}

impl Point {
    pub fn new(x: u32, y: u32) -> (point: Point)
        ensures
            point == (Point { x, y }),
    {
        Point { x, y }
    }

    /// Moves the point `x` columns to the right.
    pub fn add_x(&mut self, x: u32)
        requires
            old(self).x + x <= u32::MAX,
        ensures
            final(self).x == old(self).x + x,
            final(self).y == old(self).y,
    {
        self.x += x;
    }

    /// Moves the point `x` columns to the left. A point cannot leave the grid
    /// on the left, so the caller has to know that it stays on it.
    pub fn sub_x(&mut self, x: u32)
        requires
            x <= old(self).x,
        ensures
            final(self).x == old(self).x - x,
            final(self).y == old(self).y,
    {
        self.x -= x;
    }

    /// Moves the point `y` rows down.
    pub fn add_y(&mut self, y: u32)
        requires
            old(self).y + y <= u32::MAX,
        ensures
            final(self).x == old(self).x,
            final(self).y == old(self).y + y,
    {
        self.y += y;
    }
}

impl std::ops::Add<Point> for Point {
    type Output = Point;

    /// Adds an offset to a point, coordinate by coordinate.
    fn add(self, rhs: Point) -> (sum: Point) {
        Point { x: self.x + rhs.x, y: self.y + rhs.y }
    }
}

impl AddSpecImpl<Point> for Point {
    open spec fn obeys_add_spec() -> bool {
        true
    }

    open spec fn add_req(self, rhs: Point) -> bool {
        self.x + rhs.x <= u32::MAX && self.y + rhs.y <= u32::MAX
    }

    open spec fn add_spec(self, rhs: Point) -> Point {
        Point { x: (self.x + rhs.x) as u32, y: (self.y + rhs.y) as u32 }
    }
}

} // verus!
