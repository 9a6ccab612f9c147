//! Screen geometry as plain values.

use vstd::prelude::*;

verus! {

/// A point in some window's coordinate space.
#[derive(Clone, Copy, Debug, PartialEq, Eq, Structural)]
pub struct Point {
    pub x: i32,
    pub y: i32,
}

/// A rectangle given by its edges, as the window system reports it.
#[derive(Clone, Copy, Debug, PartialEq, Eq, Structural)]
pub struct Rect {
    pub left: i32,
    pub top: i32,
    pub right: i32,
    pub bottom: i32,
}

/// A rectangle given by its corner and its extent, as a move request takes it.
#[derive(Clone, Copy, Debug, PartialEq, Eq, Structural)]
pub struct Placement {
    pub x: i32,
    pub y: i32,
    pub width: i32,
    pub height: i32,
}

impl Rect {
    /// Distance between the vertical edges.
    pub open spec fn spec_width(self) -> int {
        self.right - self.left
    }

    /// Distance between the horizontal edges.
    pub open spec fn spec_height(self) -> int {
        self.bottom - self.top
    }

    /// Whether both extents can be handed to the window system as 32-bit
    /// integers.
    pub open spec fn measurable(self) -> bool {
        &&& i32::MIN <= self.spec_width() <= i32::MAX
        &&& i32::MIN <= self.spec_height() <= i32::MAX
    }

    /// The corner from which the nearest monitor is looked up.
    pub open spec fn spec_top_left(self) -> Point {
        Point { x: self.left, y: self.top }
    }

    #[verifier::when_used_as_spec(spec_top_left)]
    pub fn top_left(self) -> (p: Point)
        ensures
            p == self.spec_top_left(),
    {
        Point { x: self.left, y: self.top }
    }

    /// The corner-and-extent form of this rectangle, or `None` when an
    /// extent does not fit.
    pub open spec fn spec_placement(self) -> Option<Placement> {
        if self.measurable() {
            Some(
                Placement {
                    x: self.left,
                    y: self.top,
                    width: self.spec_width() as i32,
                    height: self.spec_height() as i32,
                },
            )
        } else {
            None
        }
    }

    #[verifier::when_used_as_spec(spec_placement)]
    pub fn placement(self) -> (p: Option<Placement>)
        ensures
            p == self.spec_placement(),
    {
        match (self.right.checked_sub(self.left), self.bottom.checked_sub(self.top)) {
            (Some(width), Some(height)) => Some(
                Placement { x: self.left, y: self.top, width, height },
            ),
            _ => None,
        }
    }
}

} // verus!
