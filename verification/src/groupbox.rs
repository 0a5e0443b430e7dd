//! The group-box widget: a titled frame around its children.
//!
//! The widget keeps its title two-way linked with the mirror title of a
//! shared derived-state node, computes the frame paddings from the mirror
//! by one query to the injected style collaborator, and fans the four
//! inset fields of that single answer out to four leaf properties.  All
//! pixel-exact metrics and all painting belong to the collaborator, which
//! the surrounding system injects as plain functions from the current
//! text to a measured size or to box insets.

use vstd::prelude::*;
use crate::geometry::{BoxInsets, Rect, Size};
use crate::layout::{min_extent, LayoutInfo, Orientation};
use crate::events::{
    FocusEvent, FocusEventResult, InputEventFilterResult, InputEventResult, KeyEvent,
    KeyEventResult, MouseEvent,
};
use crate::property::Property;

verus! {

/// The identity a renderer's item cache keeps for this widget.
#[derive(Clone, Copy, PartialEq, Eq, Structural, Debug)]
pub struct CachedRenderingData {
    pub cache_index: usize,
    pub cache_generation: u32,
}

/// The shared derived-state node.  It owns the mirror of the widget's
/// title and the paddings derived from the mirror by one style query;
/// the ghost counter records how many such queries were made.
struct GroupBoxData {
    title: Property<String>,
    paddings: Property<BoxInsets>,
    margins_queries: Ghost<nat>,
}

/// The exact values a paint of this widget must be made with: the same
/// text and enabled flag the measurement queries used, the size to draw
/// at, and the pixel scale and visual-state flags handed through from the
/// surrounding renderer.
pub struct PaintRequest {
    pub text: String,
    pub enabled: bool,
    pub size: Size,
    pub pixel_scale: u32,
    pub visual_state: u32,
}

/// A group box: a titled frame drawn in the platform style.
pub struct NativeGroupBox {
    x: Property<i32>,
    y: Property<i32>,
    width: Property<i32>,
    height: Property<i32>,
    enabled: Property<bool>,
    title: Property<String>,
    pub cached_rendering_data: CachedRenderingData,
    native_padding_left: Property<i32>,
    native_padding_right: Property<i32>,
    native_padding_top: Property<i32>,
    native_padding_bottom: Property<i32>,
    data: GroupBoxData,
    initialized: bool,
}

impl NativeGroupBox {
    /// Whether `init` has run and the mirror link and the padding
    /// bindings are in place.
    pub closed spec fn initialized(&self) -> bool {
        self.initialized
    }

    /// The widget's current title.
    pub closed spec fn title_string(&self) -> String {
        self.title.spec_value()
    }

    /// The widget's current title, as a sequence of characters.
    pub open spec fn title_view(&self) -> Seq<char> {
        self.title_string()@
    }

    /// The shared node's mirror of the title.
    pub closed spec fn mirror_string(&self) -> String {
        self.data.title.spec_value()
    }

    /// The mirror of the title, as a sequence of characters.
    pub open spec fn mirror_view(&self) -> Seq<char> {
        self.mirror_string()@
    }

    /// The insets cached in the shared node's paddings property.
    pub closed spec fn paddings_spec(&self) -> BoxInsets {
        self.data.paddings.spec_value()
    }

    /// Whether the cached paddings are stale and the next padding read
    /// must query the style collaborator.
    pub closed spec fn paddings_dirty(&self) -> bool {
        self.data.paddings.spec_dirty()
    }

    /// How many margins queries have been made to the style collaborator.
    pub closed spec fn queries(&self) -> nat {
        self.data.margins_queries@
    }

    /// Whether the enabled flag is set.
    pub closed spec fn enabled_spec(&self) -> bool {
        self.enabled.spec_value()
    }

    /// The identity the renderer's item cache keeps for this widget.
    pub closed spec fn rendering_data_spec(&self) -> CachedRenderingData {
        self.cached_rendering_data
    }

    /// The rectangle the widget currently occupies.
    pub closed spec fn geometry_spec(&self) -> Rect {
        Rect {
            x: self.x.spec_value(),
            y: self.y.spec_value(),
            width: self.width.spec_value(),
            height: self.height.spec_value(),
        }
    }

    /// The cached value of the left padding leaf.
    pub closed spec fn padding_left_spec(&self) -> i32 {
        self.native_padding_left.spec_value()
    }

    /// The cached value of the right padding leaf.
    pub closed spec fn padding_right_spec(&self) -> i32 {
        self.native_padding_right.spec_value()
    }

    /// The cached value of the top padding leaf.
    pub closed spec fn padding_top_spec(&self) -> i32 {
        self.native_padding_top.spec_value()
    }

    /// The cached value of the bottom padding leaf.
    pub closed spec fn padding_bottom_spec(&self) -> i32 {
        self.native_padding_bottom.spec_value()
    }

    /// Whether the left padding leaf must be recomputed before a read.
    pub closed spec fn padding_left_dirty(&self) -> bool {
        self.native_padding_left.spec_dirty()
    }

    /// Whether the right padding leaf must be recomputed before a read.
    pub closed spec fn padding_right_dirty(&self) -> bool {
        self.native_padding_right.spec_dirty()
    }

    /// Whether the top padding leaf must be recomputed before a read.
    pub closed spec fn padding_top_dirty(&self) -> bool {
        self.native_padding_top.spec_dirty()
    }

    /// Whether the bottom padding leaf must be recomputed before a read.
    pub closed spec fn padding_bottom_dirty(&self) -> bool {
        self.native_padding_bottom.spec_dirty()
    }

    /// Well-formedness of the widget's reactive state.
    ///
    /// The plain properties carry no bindings, so they are always fresh.
    /// Once the two-way link is in place the title and its mirror hold
    /// the same text.  A fresh padding leaf always reflects the matching
    /// field of fresh cached paddings: a change of the title marks the
    /// paddings and every leaf stale together, so the four leaves can
    /// never mix the fields of two different margins answers.
    pub closed spec fn wf(&self) -> bool {
        &&& !self.x.spec_dirty()
        &&& !self.y.spec_dirty()
        &&& !self.width.spec_dirty()
        &&& !self.height.spec_dirty()
        &&& !self.enabled.spec_dirty()
        &&& !self.title.spec_dirty()
        &&& !self.data.title.spec_dirty()
        &&& self.initialized ==> self.title.spec_value() == self.data.title.spec_value()
        &&& !self.native_padding_left.spec_dirty() ==> {
            &&& !self.data.paddings.spec_dirty()
            &&& self.native_padding_left.spec_value() == self.data.paddings.spec_value().left
        }
        &&& !self.native_padding_right.spec_dirty() ==> {
            &&& !self.data.paddings.spec_dirty()
            &&& self.native_padding_right.spec_value() == self.data.paddings.spec_value().right
        }
        &&& !self.native_padding_top.spec_dirty() ==> {
            &&& !self.data.paddings.spec_dirty()
            &&& self.native_padding_top.spec_value() == self.data.paddings.spec_value().top
        }
        &&& !self.native_padding_bottom.spec_dirty() ==> {
            &&& !self.data.paddings.spec_dirty()
            &&& self.native_padding_bottom.spec_value() == self.data.paddings.spec_value().bottom
        }
    }

    /// A widget in its freshly constructed state: empty title, disabled
    /// flag cleared, zero geometry and zero paddings, no style query made
    /// yet, `init` still to run.
    pub fn new() -> (r: Self)
        ensures
            r.wf(),
            !r.initialized(),
            r.title_view() == Seq::<char>::empty(),
            r.mirror_view() == Seq::<char>::empty(),
            r.enabled_spec() == false,
            r.geometry_spec() == (Rect { x: 0, y: 0, width: 0, height: 0 }),
            r.queries() == 0,
            !r.paddings_dirty(),
            r.paddings_spec() == (BoxInsets { left: 0, top: 0, right: 0, bottom: 0 }),
            !r.padding_left_dirty(),
            !r.padding_right_dirty(),
            !r.padding_top_dirty(),
            !r.padding_bottom_dirty(),
            r.rendering_data_spec() == (CachedRenderingData { cache_index: 0, cache_generation: 0 }),
    {
        NativeGroupBox {
            x: Property::new(0),
            y: Property::new(0),
            width: Property::new(0),
            height: Property::new(0),
            enabled: Property::new(false),
            title: Property::new(String::new()),
            cached_rendering_data: CachedRenderingData { cache_index: 0, cache_generation: 0 },
            native_padding_left: Property::new(0),
            native_padding_right: Property::new(0),
            native_padding_top: Property::new(0),
            native_padding_bottom: Property::new(0),
            data: GroupBoxData {
                title: Property::new(String::new()),
                paddings: Property::new(BoxInsets { left: 0, top: 0, right: 0, bottom: 0 }),
                margins_queries: Ghost(0),
            },
            initialized: false,
        }
    }

    /// Everything outside the title link and the padding machinery is
    /// untouched: geometry, enabled flag, rendering identity.
    pub open spec fn plain_props_unchanged(&self, pre: &Self) -> bool {
        &&& self.geometry_spec() == pre.geometry_spec()
        &&& self.enabled_spec() == pre.enabled_spec()
        &&& self.rendering_data_spec() == pre.rendering_data_spec()
    }

    /// Wires the widget once, before any other operation: links the
    /// title two-way with the shared node's mirror (the widget's current
    /// title becomes the common value) and installs the derived padding
    /// bindings, whose inputs have no recorded value yet, so the shared
    /// paddings and all four leaves start out stale.
    pub fn init(&mut self)
        requires
            old(self).wf(),
            !old(self).initialized(),
        ensures
            final(self).wf(),
            final(self).initialized(),
            final(self).title_string() == old(self).title_string(),
            final(self).mirror_string() == old(self).title_string(),
            final(self).paddings_dirty(),
            final(self).padding_left_dirty(),
            final(self).padding_right_dirty(),
            final(self).padding_top_dirty(),
            final(self).padding_bottom_dirty(),
            final(self).queries() == old(self).queries(),
            final(self).plain_props_unchanged(old(self)),
    {
        let text = self.title.get().clone();
        self.data.title.set(text);
        self.data.paddings.mark_dirty();
        self.native_padding_left.mark_dirty();
        self.native_padding_right.mark_dirty();
        self.native_padding_top.mark_dirty();
        self.native_padding_bottom.mark_dirty();
        self.initialized = true;
    }

    /// Writes the title.  Once the two-way link is in place the write is
    /// visible from the mirror before any subsequent read, and the
    /// paddings derived from the title, together with the four padding
    /// leaves, are marked stale; nothing is recomputed until the next
    /// read.
    pub fn set_title(&mut self, text: String)
        requires
            old(self).wf(),
        ensures
            final(self).wf(),
            final(self).initialized() == old(self).initialized(),
            final(self).title_string() == text,
            old(self).initialized() ==> {
                &&& final(self).mirror_string() == text
                &&& final(self).paddings_dirty()
                &&& final(self).padding_left_dirty()
                &&& final(self).padding_right_dirty()
                &&& final(self).padding_top_dirty()
                &&& final(self).padding_bottom_dirty()
            },
            !old(self).initialized() ==> final(self).mirror_string() == old(self).mirror_string(),
            final(self).queries() == old(self).queries(),
            final(self).plain_props_unchanged(old(self)),
    {
        if self.initialized {
            self.data.title.set(text.clone());
            self.data.paddings.mark_dirty();
            self.native_padding_left.mark_dirty();
            self.native_padding_right.mark_dirty();
            self.native_padding_top.mark_dirty();
            self.native_padding_bottom.mark_dirty();
        }
        self.title.set(text);
    }

    /// Writes the shared node's mirror side of the title link.  The
    /// write is visible from the widget's title before any subsequent
    /// read, and the derived paddings and their leaves are marked stale.
    pub fn set_mirror_title(&mut self, text: String)
        requires
            old(self).wf(),
            old(self).initialized(),
        ensures
            final(self).wf(),
            final(self).initialized(),
            final(self).title_string() == text,
            final(self).mirror_string() == text,
            final(self).paddings_dirty(),
            final(self).padding_left_dirty(),
            final(self).padding_right_dirty(),
            final(self).padding_top_dirty(),
            final(self).padding_bottom_dirty(),
            final(self).queries() == old(self).queries(),
            final(self).plain_props_unchanged(old(self)),
    {
        self.title.set(text.clone());
        self.data.title.set(text);
        self.data.paddings.mark_dirty();
        self.native_padding_left.mark_dirty();
        self.native_padding_right.mark_dirty();
        self.native_padding_top.mark_dirty();
        self.native_padding_bottom.mark_dirty();
    }

    /// Reads the title.
    pub fn title(&self) -> (r: String)
        requires
            self.wf(),
        ensures
            r == self.title_string(),
    {
        self.title.get().clone()
    }

    /// Reads the shared node's mirror of the title.  After `init` it
    /// always agrees with the title itself.
    pub fn mirror_title(&self) -> (r: String)
        requires
            self.wf(),
            self.initialized(),
        ensures
            r == self.mirror_string(),
            r == self.title_string(),
    {
        self.data.title.get().clone()
    }

    /// Brings the shared node's derived paddings up to date: if they are
    /// stale, queries the style collaborator's `margins` once with the
    /// mirror's current text and records the answer; if they are fresh,
    /// does nothing at all.
    fn refresh_paddings<F: Fn(String) -> BoxInsets>(&mut self, margins: F)
        requires
            old(self).wf(),
            old(self).initialized(),
            forall|t: String| call_requires(margins, (t,)),
        ensures
            final(self).wf(),
            final(self).initialized(),
            !final(self).paddings_dirty(),
            final(self).title_string() == old(self).title_string(),
            final(self).mirror_string() == old(self).mirror_string(),
            final(self).plain_props_unchanged(old(self)),
            final(self).padding_left_dirty() == old(self).padding_left_dirty(),
            final(self).padding_right_dirty() == old(self).padding_right_dirty(),
            final(self).padding_top_dirty() == old(self).padding_top_dirty(),
            final(self).padding_bottom_dirty() == old(self).padding_bottom_dirty(),
            final(self).padding_left_spec() == old(self).padding_left_spec(),
            final(self).padding_right_spec() == old(self).padding_right_spec(),
            final(self).padding_top_spec() == old(self).padding_top_spec(),
            final(self).padding_bottom_spec() == old(self).padding_bottom_spec(),
            !old(self).paddings_dirty() ==> {
                &&& *final(self) == *old(self)
                &&& final(self).queries() == old(self).queries()
            },
            old(self).paddings_dirty() ==> {
                &&& final(self).queries() == old(self).queries() + 1
                &&& call_ensures(margins, (old(self).title_string(),), final(self).paddings_spec())
            },
    {
        if self.data.paddings.is_dirty() {
            let text = self.data.title.get().clone();
            let insets = margins(text);
            self.data.paddings.set(insets);
            let ghost count = self.data.margins_queries@;
            self.data.margins_queries = Ghost(count + 1);
        }
    }

    /// Reads the left frame padding, recomputing lazily: a stale leaf is
    /// refilled from the shared paddings, which in turn are refreshed by
    /// at most one `margins` query, and a fresh leaf is answered from its
    /// cache with nothing recomputed and nothing changed.
    pub fn native_padding_left<F: Fn(String) -> BoxInsets>(&mut self, margins: F) -> (r: i32)
        requires
            old(self).wf(),
            old(self).initialized(),
            forall|t: String| call_requires(margins, (t,)),
        ensures
            final(self).wf(),
            final(self).initialized(),
            final(self).title_string() == old(self).title_string(),
            final(self).mirror_string() == old(self).mirror_string(),
            final(self).plain_props_unchanged(old(self)),
            !final(self).paddings_dirty(),
            !final(self).padding_left_dirty(),
            r == final(self).paddings_spec().left,
            r == final(self).padding_left_spec(),
            !old(self).paddings_dirty() ==> {
                &&& final(self).queries() == old(self).queries()
                &&& final(self).paddings_spec() == old(self).paddings_spec()
            },
            old(self).paddings_dirty() ==> {
                &&& final(self).queries() == old(self).queries() + 1
                &&& call_ensures(margins, (old(self).title_string(),), final(self).paddings_spec())
            },
            !old(self).padding_left_dirty() ==> *final(self) == *old(self),
    {
        if self.native_padding_left.is_dirty() {
            self.refresh_paddings(margins);
            let insets: BoxInsets = *self.data.paddings.get();
            self.native_padding_left.set(insets.left);
        }
        *self.native_padding_left.get()
    }

    /// Reads the right frame padding; see `native_padding_left` for the
    /// lazy recomputation contract.
    pub fn native_padding_right<F: Fn(String) -> BoxInsets>(&mut self, margins: F) -> (r: i32)
        requires
            old(self).wf(),
            old(self).initialized(),
            forall|t: String| call_requires(margins, (t,)),
        ensures
            final(self).wf(),
            final(self).initialized(),
            final(self).title_string() == old(self).title_string(),
            final(self).mirror_string() == old(self).mirror_string(),
            final(self).plain_props_unchanged(old(self)),
            !final(self).paddings_dirty(),
            !final(self).padding_right_dirty(),
            r == final(self).paddings_spec().right,
            r == final(self).padding_right_spec(),
            !old(self).paddings_dirty() ==> {
                &&& final(self).queries() == old(self).queries()
                &&& final(self).paddings_spec() == old(self).paddings_spec()
            },
            old(self).paddings_dirty() ==> {
                &&& final(self).queries() == old(self).queries() + 1
                &&& call_ensures(margins, (old(self).title_string(),), final(self).paddings_spec())
            },
            !old(self).padding_right_dirty() ==> *final(self) == *old(self),
    {
        if self.native_padding_right.is_dirty() {
            self.refresh_paddings(margins);
            let insets: BoxInsets = *self.data.paddings.get();
            self.native_padding_right.set(insets.right);
        }
        *self.native_padding_right.get()
    }

    /// Reads the top frame padding; see `native_padding_left` for the
    /// lazy recomputation contract.
    pub fn native_padding_top<F: Fn(String) -> BoxInsets>(&mut self, margins: F) -> (r: i32)
        requires
            old(self).wf(),
            old(self).initialized(),
            forall|t: String| call_requires(margins, (t,)),
        ensures
            final(self).wf(),
            final(self).initialized(),
            final(self).title_string() == old(self).title_string(),
            final(self).mirror_string() == old(self).mirror_string(),
            final(self).plain_props_unchanged(old(self)),
            !final(self).paddings_dirty(),
            !final(self).padding_top_dirty(),
            r == final(self).paddings_spec().top,
            r == final(self).padding_top_spec(),
            !old(self).paddings_dirty() ==> {
                &&& final(self).queries() == old(self).queries()
                &&& final(self).paddings_spec() == old(self).paddings_spec()
            },
            old(self).paddings_dirty() ==> {
                &&& final(self).queries() == old(self).queries() + 1
                &&& call_ensures(margins, (old(self).title_string(),), final(self).paddings_spec())
            },
            !old(self).padding_top_dirty() ==> *final(self) == *old(self),
    {
        if self.native_padding_top.is_dirty() {
            self.refresh_paddings(margins);
            let insets: BoxInsets = *self.data.paddings.get();
            self.native_padding_top.set(insets.top);
        }
        *self.native_padding_top.get()
    }

    /// Reads the bottom frame padding; see `native_padding_left` for the
    /// lazy recomputation contract.
    pub fn native_padding_bottom<F: Fn(String) -> BoxInsets>(&mut self, margins: F) -> (r: i32)
        requires
            old(self).wf(),
            old(self).initialized(),
            forall|t: String| call_requires(margins, (t,)),
        ensures
            final(self).wf(),
            final(self).initialized(),
            final(self).title_string() == old(self).title_string(),
            final(self).mirror_string() == old(self).mirror_string(),
            final(self).plain_props_unchanged(old(self)),
            !final(self).paddings_dirty(),
            !final(self).padding_bottom_dirty(),
            r == final(self).paddings_spec().bottom,
            r == final(self).padding_bottom_spec(),
            !old(self).paddings_dirty() ==> {
                &&& final(self).queries() == old(self).queries()
                &&& final(self).paddings_spec() == old(self).paddings_spec()
            },
            old(self).paddings_dirty() ==> {
                &&& final(self).queries() == old(self).queries() + 1
                &&& call_ensures(margins, (old(self).title_string(),), final(self).paddings_spec())
            },
            !old(self).padding_bottom_dirty() ==> *final(self) == *old(self),
    {
        if self.native_padding_bottom.is_dirty() {
            self.refresh_paddings(margins);
            let insets: BoxInsets = *self.data.paddings.get();
            self.native_padding_bottom.set(insets.bottom);
        }
        *self.native_padding_bottom.get()
    }

    /// The rectangle the widget occupies: a pure function of the
    /// position and size properties, with no side effect.
    pub fn geometry(&self) -> (r: Rect)
        requires
            self.wf(),
        ensures
            r == self.geometry_spec(),
    {
        Rect {
            x: *self.x.get(),
            y: *self.y.get(),
            width: *self.width.get(),
            height: *self.height.get(),
        }
    }

    /// Moves and resizes the widget.
    pub fn set_geometry(&mut self, rect: Rect)
        requires
            old(self).wf(),
        ensures
            final(self).wf(),
            final(self).geometry_spec() == rect,
            final(self).initialized() == old(self).initialized(),
            final(self).title_string() == old(self).title_string(),
            final(self).mirror_string() == old(self).mirror_string(),
            final(self).enabled_spec() == old(self).enabled_spec(),
            final(self).rendering_data_spec() == old(self).rendering_data_spec(),
            final(self).queries() == old(self).queries(),
            final(self).paddings_spec() == old(self).paddings_spec(),
            final(self).paddings_dirty() == old(self).paddings_dirty(),
            final(self).padding_left_dirty() == old(self).padding_left_dirty(),
            final(self).padding_right_dirty() == old(self).padding_right_dirty(),
            final(self).padding_top_dirty() == old(self).padding_top_dirty(),
            final(self).padding_bottom_dirty() == old(self).padding_bottom_dirty(),
            final(self).padding_left_spec() == old(self).padding_left_spec(),
            final(self).padding_right_spec() == old(self).padding_right_spec(),
            final(self).padding_top_spec() == old(self).padding_top_spec(),
            final(self).padding_bottom_spec() == old(self).padding_bottom_spec(),
    {
        self.x.set(rect.x);
        self.y.set(rect.y);
        self.width.set(rect.width);
        self.height.set(rect.height);
    }

    /// Reads the enabled flag.
    pub fn enabled(&self) -> (r: bool)
        requires
            self.wf(),
        ensures
            r == self.enabled_spec(),
    {
        *self.enabled.get()
    }

    /// Writes the enabled flag.
    pub fn set_enabled(&mut self, enabled: bool)
        requires
            old(self).wf(),
        ensures
            final(self).wf(),
            final(self).enabled_spec() == enabled,
            final(self).initialized() == old(self).initialized(),
            final(self).title_string() == old(self).title_string(),
            final(self).mirror_string() == old(self).mirror_string(),
            final(self).geometry_spec() == old(self).geometry_spec(),
            final(self).rendering_data_spec() == old(self).rendering_data_spec(),
            final(self).queries() == old(self).queries(),
            final(self).paddings_spec() == old(self).paddings_spec(),
            final(self).paddings_dirty() == old(self).paddings_dirty(),
            final(self).padding_left_dirty() == old(self).padding_left_dirty(),
            final(self).padding_right_dirty() == old(self).padding_right_dirty(),
            final(self).padding_top_dirty() == old(self).padding_top_dirty(),
            final(self).padding_bottom_dirty() == old(self).padding_bottom_dirty(),
            final(self).padding_left_spec() == old(self).padding_left_spec(),
            final(self).padding_right_spec() == old(self).padding_right_spec(),
            final(self).padding_top_spec() == old(self).padding_top_spec(),
            final(self).padding_bottom_spec() == old(self).padding_bottom_spec(),
    {
        self.enabled.set(enabled);
    }

    /// Reports the widget's layout constraint along one axis: the style
    /// collaborator measures the current title, the minimum extent is
    /// the measured extent along the requested axis, and the stretch
    /// factor is one, so the widget grows proportionally like other
    /// stretch-one items.  The call reads but never changes the widget,
    /// so equal texts always yield whatever the collaborator answers for
    /// that same text.
    pub fn layout_info<F: Fn(String) -> Size>(&self, orientation: Orientation, measure: F) -> (r:
        LayoutInfo)
        requires
            self.wf(),
            forall|t: String| call_requires(measure, (t,)),
        ensures
            r.stretch == 1,
            r.max == i32::MAX,
            r.preferred == 0,
            exists|measured: Size|
                #[trigger] call_ensures(measure, (self.title_string(),), measured)
                    && r.min == min_extent(orientation, measured),
    {
        let text = self.title.get().clone();
        let measured = measure(text);
        let min: i32 = match orientation {
            Orientation::Horizontal => measured.width,
            Orientation::Vertical => measured.height,
        };
        let info = LayoutInfo { min, max: i32::MAX, preferred: 0, stretch: 1 };
        proof {
            assert(call_ensures(measure, (self.title_string(),), measured)
                && info.min == min_extent(orientation, measured));
        }
        info
    }

    /// Offered a pointer event before its children see it, a group box
    /// always lets the children have first refusal, whatever the event
    /// holds.
    pub fn input_event_filter_before_children(&self, _event: MouseEvent) -> (r:
        InputEventFilterResult)
        ensures
            r == InputEventFilterResult::ForwardEvent,
    {
        InputEventFilterResult::ForwardEvent
    }

    /// A pointer event dispatched to a group box is always ignored:
    /// ownership of pointer events stays with the descendants and the
    /// surrounding container, whatever the event holds.
    pub fn input_event(&self, _event: MouseEvent) -> (r: InputEventResult)
        ensures
            r == InputEventResult::EventIgnored,
    {
        InputEventResult::EventIgnored
    }

    /// A key event dispatched to a group box is always ignored, whatever
    /// the event holds.
    pub fn key_event(&self, _event: &KeyEvent) -> (r: KeyEventResult)
        ensures
            r == KeyEventResult::EventIgnored,
    {
        KeyEventResult::EventIgnored
    }

    /// A focus change announced to a group box is always ignored,
    /// whatever the event holds.
    pub fn focus_event(&self, _event: &FocusEvent) -> (r: FocusEventResult)
        ensures
            r == FocusEventResult::FocusIgnored,
    {
        FocusEventResult::FocusIgnored
    }

    /// Assembles the paint call for the style collaborator: the exact
    /// text and enabled flag the measurement queries read, together with
    /// the size, pixel scale and visual-state flags the renderer asks to
    /// draw at, so the visual output stays consistent with the values
    /// used for measurement.  The surrounding system performs the actual
    /// drawing.
    pub fn render(&self, size: Size, pixel_scale: u32, visual_state: u32) -> (req: PaintRequest)
        requires
            self.wf(),
        ensures
            req.text == self.title_string(),
            req.enabled == self.enabled_spec(),
            req.size == size,
            req.pixel_scale == pixel_scale,
            req.visual_state == visual_state,
    {
        PaintRequest {
            text: self.title.get().clone(),
            enabled: *self.enabled.get(),
            size,
            pixel_scale,
            visual_state,
        }
    }
}

/// Two-way consistency of the title link: from the moment `init` merges
/// the widget's title and the shared node's mirror into one equivalence
/// class, the two sides read equal in every well-formed state, whatever
/// sequence of writes to either side produced that state.
pub proof fn lemma_two_way_link_consistent(g: NativeGroupBox)
    requires
        g.wf(),
        g.initialized(),
    ensures
        g.title_view() == g.mirror_view(),
        g.title_string() == g.mirror_string(),
{
}

/// Single-query fan-out: in any well-formed state whose four padding
/// leaves are fresh, every leaf reports a field of the one cached
/// margins answer — the four paddings never mix the fields of two
/// different style queries.
pub proof fn lemma_fan_out_consistent(g: NativeGroupBox)
    requires
        g.wf(),
        !g.padding_left_dirty(),
        !g.padding_right_dirty(),
        !g.padding_top_dirty(),
        !g.padding_bottom_dirty(),
    ensures
        !g.paddings_dirty(),
        g.padding_left_spec() == g.paddings_spec().left,
        g.padding_right_spec() == g.paddings_spec().right,
        g.padding_top_spec() == g.paddings_spec().top,
        g.padding_bottom_spec() == g.paddings_spec().bottom,
{
}

impl Default for NativeGroupBox {
    /// The freshly constructed widget, exactly as `new` builds it.
    fn default() -> (r: Self)
        ensures
            r.wf(),
            !r.initialized(),
            r.title_view() == Seq::<char>::empty(),
            r.enabled_spec() == false,
            r.queries() == 0,
    {
        NativeGroupBox::new()
    }
}

} // verus!
