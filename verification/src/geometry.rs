//! Plain geometric values used by the widget: sizes, rectangles and
//! box insets, all in whole logical pixels.

use vstd::prelude::*;

verus! {

/// A width and a height, as the style collaborator's measurement reports
/// them.
#[derive(Clone, Copy, PartialEq, Eq, Structural, Debug)]
pub struct Size {
    pub width: i32,
    pub height: i32,
}

/// The frame insets of a box: the distance from each edge of the frame to
/// the contents it surrounds.
#[derive(Clone, Copy, PartialEq, Eq, Structural, Debug)]
pub struct BoxInsets {
    pub left: i32,
    pub top: i32,
    pub right: i32,
    pub bottom: i32,
}

/// An axis-aligned rectangle given by its origin and its extent.
#[derive(Clone, Copy, PartialEq, Eq, Structural, Debug)]
pub struct Rect {
    pub x: i32,
    pub y: i32,
    pub width: i32,
    pub height: i32,
}

impl BoxInsets {
    /// Insets of zero width on every edge.
    pub fn zero() -> (r: Self)
        ensures
            r.left == 0,
            r.top == 0,
            r.right == 0,
            r.bottom == 0,
    {
        BoxInsets { left: 0, top: 0, right: 0, bottom: 0 }
    }
}

} // verus!
