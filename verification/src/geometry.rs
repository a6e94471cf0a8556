//! Rectangles in window coordinates.

use vstd::prelude::*;

verus! {

/// A rectangle by its edges.
#[derive(Clone, Copy, Debug, PartialEq, Eq, Structural)]
pub struct Rect {
    pub left: i32,
    pub top: i32,
    pub right: i32,
    pub bottom: i32,
}

impl Rect {
    /// Whether width and height of the rectangle fit the integer type.
    pub open spec fn measurable(self) -> bool {
        &&& i32::MIN <= self.right - self.left <= i32::MAX
        &&& i32::MIN <= self.bottom - self.top <= i32::MAX
    }

    /// Width and height: the distances between opposite edges.
    pub fn size(&self) -> (size: (i32, i32))
        requires
            self.measurable(),
        ensures
            size.0 == self.right - self.left,
            size.1 == self.bottom - self.top,
    {
        (self.right - self.left, self.bottom - self.top)
    }
}

} // verus!
