//! A reactive property engine and the group-box widget built on it.
//!
//! The engine is a set of dependency-tracked cells with lazy recomputation:
//! a write marks dependents stale, and a read recomputes a stale cell at
//! most once before handing its value out.  The widget owns a shared
//! derived-state node whose title mirrors the widget's own title through a
//! two-way link, and whose frame paddings are computed by a single query to
//! an injected platform style collaborator and fanned out to four leaf
//! properties.  The widget also implements the uniform item dispatch
//! operations: geometry, layout measurement, input, key and focus events,
//! and assembly of a paint request for the style collaborator.

pub mod events;
pub mod geometry;
pub mod groupbox;
pub mod layout;
pub mod property;

pub use events::{
    FocusEvent, FocusEventResult, InputEventFilterResult, InputEventResult, KeyEvent,
    KeyEventResult, KeyEventType, MouseEvent,
};
pub use geometry::{BoxInsets, Rect, Size};
pub use groupbox::{CachedRenderingData, NativeGroupBox, PaintRequest};
pub use layout::{LayoutInfo, Orientation};
pub use property::Property;
