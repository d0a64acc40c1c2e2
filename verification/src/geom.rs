//! Axis-aligned rectangles and points on an integer coordinate grid.

use vstd::prelude::*;

verus! {

/// Largest magnitude accepted for playfield coordinates, velocities, spawn
/// positions and resource dimensions. Keeping these inputs within the limit
/// keeps every per-tick position computation comfortably inside `i64`.
pub const COORD_LIMIT: i64 = 0x4000_0000_0000;

/// Largest accepted clock reading, in milliseconds since some epoch.
pub const CLOCK_LIMIT: u64 = 0x4_0000_0000_0000;

/// Mathematical image of a [`Rect`]: the same four edges as unbounded integers.
pub struct RectModel {
    pub left: int,
    pub top: int,
    pub right: int,
    pub bottom: int,
}

/// Mathematical image of a [`Point`].
pub struct PointModel {
    pub x: int,
    pub y: int,
}

/// A rectangle kept as four independent edges; width and height are always
/// derived as `right - left` and `bottom - top`.
#[derive(Clone, Copy, PartialEq, Eq, Structural, Debug)]
pub struct Rect {
    pub left: i64,
    pub top: i64,
    pub right: i64,
    pub bottom: i64,
}

/// An `(x, y)` pair used for positions, deltas and velocities.
#[derive(Clone, Copy, PartialEq, Eq, Structural, Debug)]
pub struct Point {
    pub x: i64,
    pub y: i64,
}

/// A sub-rectangle given as a corner plus a size, used for animation frames
/// and for source and destination regions of draw calls.
#[derive(Clone, Copy, PartialEq, Eq, Structural, Debug)]
pub struct Region {
    pub x: i64,
    pub y: i64,
    pub width: i64,
    pub height: i64,
}

impl View for Rect {
    type V = RectModel;

    open spec fn view(&self) -> RectModel {
        RectModel {
            left: self.left as int,
            top: self.top as int,
            right: self.right as int,
            bottom: self.bottom as int,
        }
    }
}

impl View for Point {
    type V = PointModel;

    open spec fn view(&self) -> PointModel {
        PointModel { x: self.x as int, y: self.y as int }
    }
}

pub open spec fn rect_width(r: RectModel) -> int {
    r.right - r.left
}

pub open spec fn rect_height(r: RectModel) -> int {
    r.bottom - r.top
}

/// The rectangle with top-left corner `(x, y)` and the given size.
pub open spec fn rect_at(x: int, y: int, width: int, height: int) -> RectModel {
    RectModel { left: x, top: y, right: x + width, bottom: y + height }
}

/// `r` translated so that its top-left corner lands on `(x, y)`.
pub open spec fn rect_moved_to(r: RectModel, x: int, y: int) -> RectModel {
    rect_at(x, y, rect_width(r), rect_height(r))
}

/// Closed-rectangle overlap: touching edges count as an overlap.
pub open spec fn rects_overlap(a: RectModel, b: RectModel) -> bool {
    a.left <= b.right && b.left <= a.right && a.top <= b.bottom && b.top <= a.bottom
}

pub open spec fn rect_contains_point(r: RectModel, x: int, y: int) -> bool {
    x >= r.left && x <= r.right && y >= r.top && y <= r.bottom
}

impl Rect {
    pub fn new(left: i64, top: i64, right: i64, bottom: i64) -> (r: Rect)
        ensures
            r@ == (RectModel { left: left as int, top: top as int, right: right as int, bottom: bottom as int }),
    {
        Rect { left, top, right, bottom }
    }

    pub fn zero() -> (r: Rect)
        ensures
            r@ == (RectModel { left: 0int, top: 0int, right: 0int, bottom: 0int }),
    {
        Rect { left: 0, top: 0, right: 0, bottom: 0 }
    }

    /// Grow the rectangle by `dx` on each horizontal side and `dy` on each
    /// vertical side; negative deltas shrink it.
    pub fn inflate(&mut self, dx: i64, dy: i64)
        requires
            i64::MIN <= old(self)@.left - dx <= i64::MAX,
            i64::MIN <= old(self)@.right + dx <= i64::MAX,
            i64::MIN <= old(self)@.top - dy <= i64::MAX,
            i64::MIN <= old(self)@.bottom + dy <= i64::MAX,
        ensures
            final(self)@ == (RectModel {
                left: old(self)@.left - dx,
                top: old(self)@.top - dy,
                right: old(self)@.right + dx,
                bottom: old(self)@.bottom + dy,
            }),
    {
        self.left = self.left - dx;
        self.right = self.right + dx;
        self.top = self.top - dy;
        self.bottom = self.bottom + dy;
    }

    /// Translate the rectangle by `(dx, dy)`.
    pub fn offset(&mut self, dx: i64, dy: i64)
        requires
            i64::MIN <= old(self)@.left + dx <= i64::MAX,
            i64::MIN <= old(self)@.right + dx <= i64::MAX,
            i64::MIN <= old(self)@.top + dy <= i64::MAX,
            i64::MIN <= old(self)@.bottom + dy <= i64::MAX,
        ensures
            final(self)@ == (RectModel {
                left: old(self)@.left + dx,
                top: old(self)@.top + dy,
                right: old(self)@.right + dx,
                bottom: old(self)@.bottom + dy,
            }),
    {
        self.left = self.left + dx;
        self.right = self.right + dx;
        self.top = self.top + dy;
        self.bottom = self.bottom + dy;
    }

    /// Whether the point `(x, y)` lies inside the rectangle, edges included.
    pub fn contain(&self, x: i64, y: i64) -> (r: bool)
        ensures
            r == rect_contains_point(self@, x as int, y as int),
    {
        x >= self.left && x <= self.right && y >= self.top && y <= self.bottom
    }
}

} // verus!
