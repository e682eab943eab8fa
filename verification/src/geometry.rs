//! Terminal-cell rectangles.

use vstd::prelude::*;

verus! {

/// The largest coordinate a terminal cell can have.
pub open spec fn max_coord() -> int {
    u16::MAX as int
}

/// `a.saturating_add(b)` on `u16`, as a mathematical function.
pub open spec fn sat_add16(a: int, b: int) -> int {
    if a + b > u16::MAX { u16::MAX as int } else { a + b }
}

/// `a.saturating_sub(b)` on unsigned integers, as a mathematical function.
pub open spec fn sat_sub(a: int, b: int) -> int {
    if a - b < 0 { 0 } else { a - b }
}

/// A rectangle of terminal cells. Its right and bottom edges never pass the
/// last representable coordinate, so `x + width` and `y + height` always fit.
#[derive(Debug, Clone, Copy, PartialEq, Eq, Structural)]
pub struct Rect {
    pub x: u16,
    pub y: u16,
    pub width: u16,
    pub height: u16,
}

impl Rect {
    /// The edges of the rectangle fit in the coordinate space.
    pub open spec fn wf(self) -> bool {
        &&& self.x + self.width <= max_coord()
        &&& self.y + self.height <= max_coord()
    }

    /// The cell `(col, row)` lies inside the rectangle.
    pub open spec fn spec_contains(self, col: int, row: int) -> bool {
        &&& self.x <= col < self.x + self.width
        &&& self.y <= row < self.y + self.height
    }

    /// The rectangle that `new(x, y, width, height)` builds: width and height are
    /// cut so that the edges stay inside the coordinate space.
    pub open spec fn spec_new(x: u16, y: u16, width: u16, height: u16) -> Rect {
        Rect {
            x,
            y,
            width: (sat_add16(x as int, width as int) - x) as u16,
            height: (sat_add16(y as int, height as int) - y) as u16,
        }
    }

    /// Builds a rectangle, cutting `width` and `height` where the right or the
    /// bottom edge would pass the last coordinate.
    pub fn new(x: u16, y: u16, width: u16, height: u16) -> (r: Rect)
        ensures
            r == Rect::spec_new(x, y, width, height),
            r.wf(),
    {
        let width = x.saturating_add(width) - x;
        let height = y.saturating_add(height) - y;
        Rect { x, y, width, height }
    }

    /// Whether the rectangle is the empty rectangle at the origin.
    pub fn is_default(&self) -> (b: bool)
        ensures
            b == (self.x == 0 && self.y == 0 && self.width == 0 && self.height == 0),
    {
        self.x == 0 && self.y == 0 && self.width == 0 && self.height == 0
    }

    /// Whether the cell `(col, row)` lies inside the rectangle. An empty
    /// rectangle contains no cell.
    pub fn contains(&self, col: u16, row: u16) -> (b: bool)
        requires
            self.wf(),
        ensures
            b == self.spec_contains(col as int, row as int),
    {
        self.width > 0 && col >= self.x && col < self.x + self.width && row >= self.y && row
            < self.y + self.height
    }
}

impl Default for Rect {
    /// The empty rectangle at the origin.
    fn default() -> (r: Rect)
        ensures
            r == (Rect { x: 0, y: 0, width: 0, height: 0 }),
    {
        Rect { x: 0, y: 0, width: 0, height: 0 }
    }
}

} // verus!
