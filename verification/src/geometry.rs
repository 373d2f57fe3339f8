//! Screen geometry in pixels: points, sizes and axis-aligned rectangles.

use vstd::prelude::*;

verus! {

/// A point on the screen, in pixels, with `x` growing to the right and `y`
/// growing downwards.
#[derive(Clone, Copy, Debug, PartialEq, Eq, Structural)]
pub struct ScreenPoint {
    pub x: i32,
    pub y: i32,
}

/// A width and a height, in pixels.
#[derive(Clone, Copy, Debug, PartialEq, Eq, Structural)]
pub struct ScreenSize {
    pub width: u32,
    pub height: u32,
}

/// An axis-aligned rectangle given by its top-left corner and its size.
#[derive(Clone, Copy, Debug, PartialEq, Eq, Structural)]
pub struct Rect {
    pub top_left: ScreenPoint,
    pub size: ScreenSize,
}

impl Rect {
    /// The rectangle covers `point`: it is not empty, and the point lies
    /// between the top-left corner (included) and the corner one past the
    /// bottom-right pixel (excluded).
    pub open spec fn covers(self, point: ScreenPoint) -> bool {
        &&& self.size.width > 0
        &&& self.size.height > 0
        &&& self.top_left.x <= point.x < self.top_left.x + self.size.width
        &&& self.top_left.y <= point.y < self.top_left.y + self.size.height
    }

    /// Whether `point` lies inside this rectangle. The bounds are computed
    /// without overflow, so a rectangle whose far edge lies past `i32::MAX`
    /// still gets an answer (embedded-graphics' `Rectangle::contains` would
    /// overflow there).
    pub fn contains(&self, point: ScreenPoint) -> (inside: bool)
        ensures
            inside == self.covers(point),
    {
        if self.size.width == 0 || self.size.height == 0 {
            return false;
        }
        let left = self.top_left.x as i64;
        let top = self.top_left.y as i64;
        let x = point.x as i64;
        let y = point.y as i64;
        left <= x && x < left + self.size.width as i64 && top <= y && y < top + self.size.height as i64
    }
}

} // verus!
