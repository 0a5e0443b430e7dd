//! Layout queries: the axis of a measurement and the constraint record a
//! widget reports to the surrounding layout solver.

use vstd::prelude::*;
use crate::geometry::Size;

verus! {

/// The axis along which a layout constraint is asked for.
#[derive(Clone, Copy, PartialEq, Eq, Structural, Debug)]
pub enum Orientation {
    Horizontal,
    Vertical,
}

/// The layout constraint a widget reports for one axis: the minimum
/// extent it needs, the largest extent it accepts, the extent it would
/// prefer, and a stretch factor describing how eagerly it takes up extra
/// space relative to its siblings.
#[derive(Clone, Copy, PartialEq, Eq, Structural, Debug)]
pub struct LayoutInfo {
    pub min: i32,
    pub max: i32,
    pub preferred: i32,
    pub stretch: u32,
}

/// The extent of a measured size along the requested axis.
pub open spec fn min_extent(orientation: Orientation, size: Size) -> i32 {
    match orientation {
        Orientation::Horizontal => size.width,
        Orientation::Vertical => size.height,
    }
}

/// The minimum extent reported to the layout solver grows with the style
/// collaborator's measurement: whenever one measured size dominates
/// another on both axes, its extent along either axis is at least the
/// other's.  In particular a text whose measurement dominates the
/// empty-text baseline measurement never reports a smaller minimum width
/// than the baseline.
pub proof fn lemma_min_extent_monotone(orientation: Orientation, smaller: Size, larger: Size)
    requires
        smaller.width <= larger.width,
        smaller.height <= larger.height,
    ensures
        min_extent(orientation, smaller) <= min_extent(orientation, larger),
{
}

} // verus!
