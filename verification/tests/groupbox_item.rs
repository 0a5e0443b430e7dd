use std::cell::Cell;

use groupbox::{
    BoxInsets, FocusEvent, FocusEventResult, InputEventFilterResult, InputEventResult, KeyEvent,
    KeyEventResult, KeyEventType, MouseEvent, NativeGroupBox, Orientation, Rect, Size,
};

fn insets(left: i32, top: i32, right: i32, bottom: i32) -> BoxInsets {
    BoxInsets { left, top, right, bottom }
}

/// A style stand-in whose margins depend on whether the text is empty:
/// the label participates in the insets only when a title is present.
fn style_margins(text: String) -> BoxInsets {
    if text.is_empty() {
        insets(8, 8, 8, 8)
    } else {
        insets(8, 24, 8, 8)
    }
}

/// A style stand-in whose measurement grows with the text: a baseline
/// space-width extent for the empty text, plus a fixed advance per
/// character.
fn style_measure(text: String) -> Size {
    let advance: i32 = 6 * text.chars().count() as i32;
    Size { width: 10 + advance, height: 24 }
}

#[test]
fn default_widget_is_blank() {
    let g = NativeGroupBox::default();
    assert_eq!(g.title(), "");
    assert!(!g.enabled());
    let r = g.geometry();
    assert_eq!((r.x, r.y, r.width, r.height), (0, 0, 0, 0));
}

#[test]
fn memoization_repeated_get_recomputes_once() {
    let calls = Cell::new(0u32);
    let margins = |_t: String| {
        calls.set(calls.get() + 1);
        insets(3, 19, 5, 7)
    };
    let mut g = NativeGroupBox::new();
    g.init();
    g.set_title(String::from("Options"));
    let first = g.native_padding_left(margins);
    let second = g.native_padding_left(margins);
    let third = g.native_padding_left(margins);
    assert_eq!(first, 3);
    assert_eq!(second, 3);
    assert_eq!(third, 3);
    assert_eq!(calls.get(), 1);
}

#[test]
fn two_way_link_owner_write_reaches_mirror() {
    let mut g = NativeGroupBox::new();
    g.init();
    g.set_title(String::from("General"));
    assert_eq!(g.mirror_title(), "General");
    assert_eq!(g.title(), "General");
}

#[test]
fn two_way_link_mirror_write_reaches_owner() {
    let mut g = NativeGroupBox::new();
    g.init();
    g.set_mirror_title(String::from("Details"));
    assert_eq!(g.title(), "Details");
    assert_eq!(g.mirror_title(), "Details");
}

#[test]
fn two_way_link_holds_over_any_write_sequence() {
    let mut g = NativeGroupBox::new();
    g.init();
    g.set_title(String::from("a"));
    g.set_mirror_title(String::from("b"));
    g.set_title(String::from("c"));
    assert_eq!(g.title(), g.mirror_title());
    assert_eq!(g.title(), "c");
}

#[test]
fn init_links_with_the_owner_title_as_the_common_value() {
    let mut g = NativeGroupBox::new();
    g.set_title(String::from("Early"));
    g.init();
    assert_eq!(g.mirror_title(), "Early");
}

#[test]
fn single_query_fans_out_to_all_four_paddings() {
    let calls = Cell::new(0u32);
    let margins = |t: String| {
        calls.set(calls.get() + 1);
        assert_eq!(t, "Options");
        insets(3, 19, 5, 7)
    };
    let mut g = NativeGroupBox::new();
    g.init();
    g.set_title(String::from("Options"));
    let left = g.native_padding_left(margins);
    let right = g.native_padding_right(margins);
    let top = g.native_padding_top(margins);
    let bottom = g.native_padding_bottom(margins);
    assert_eq!((left, top, right, bottom), (3, 19, 5, 7));
    assert_eq!(calls.get(), 1);
    let _ = g.geometry();
    let again = g.native_padding_bottom(margins);
    assert_eq!(again, 7);
    assert_eq!(calls.get(), 1);
}

#[test]
fn changing_the_text_queries_margins_exactly_once_more() {
    let calls = Cell::new(0u32);
    let margins = |t: String| {
        calls.set(calls.get() + 1);
        style_margins(t)
    };
    let mut g = NativeGroupBox::new();
    g.init();
    let bare = g.native_padding_top(margins);
    assert_eq!(bare, 8);
    assert_eq!(calls.get(), 1);
    g.set_title(String::from("Options"));
    let titled = g.native_padding_top(margins);
    assert_eq!(titled, 24);
    assert_eq!(calls.get(), 2);
    let _ = g.native_padding_left(margins);
    let _ = g.native_padding_right(margins);
    assert_eq!(calls.get(), 2);
}

#[test]
fn layout_info_empty_text_reports_the_baseline_measurement() {
    let mut g = NativeGroupBox::new();
    g.init();
    g.set_title(String::new());
    let info = g.layout_info(Orientation::Horizontal, style_measure);
    assert_eq!(info.min, 10);
    assert_eq!(info.stretch, 1);
}

#[test]
fn layout_info_vertical_reports_the_measured_height() {
    let mut g = NativeGroupBox::new();
    g.init();
    g.set_title(String::from("Options"));
    let info = g.layout_info(Orientation::Vertical, style_measure);
    assert_eq!(info.min, 24);
    assert_eq!(info.stretch, 1);
}

#[test]
fn minimum_width_of_a_titled_box_dominates_the_empty_baseline() {
    let mut g = NativeGroupBox::new();
    g.init();
    let empty_min = g.layout_info(Orientation::Horizontal, style_measure).min;
    g.set_title(String::from("Options"));
    let titled_min = g.layout_info(Orientation::Horizontal, style_measure).min;
    assert_eq!(empty_min, 10);
    assert_eq!(titled_min, 10 + 6 * 7);
    assert!(titled_min >= empty_min);
}

#[test]
fn layout_info_is_idempotent_for_an_unchanged_text() {
    let mut g = NativeGroupBox::new();
    g.init();
    g.set_title(String::from("Options"));
    let a = g.layout_info(Orientation::Horizontal, style_measure);
    let b = g.layout_info(Orientation::Horizontal, style_measure);
    assert_eq!(a.min, b.min);
    assert_eq!(a.stretch, b.stretch);
}

#[test]
fn every_input_event_is_forwarded_or_ignored() {
    let g = NativeGroupBox::new();
    let pointer_events = [
        MouseEvent::Pressed { x: 1, y: 2 },
        MouseEvent::Released { x: 3, y: 4 },
        MouseEvent::Moved { x: 5, y: 6 },
        MouseEvent::Wheel { x: 7, y: 8, delta_x: 1, delta_y: -1 },
        MouseEvent::Exit,
    ];
    for ev in pointer_events {
        assert_eq!(
            g.input_event_filter_before_children(ev),
            InputEventFilterResult::ForwardEvent
        );
        assert_eq!(g.input_event(ev), InputEventResult::EventIgnored);
    }
}

#[test]
fn every_key_and_focus_event_is_ignored() {
    let g = NativeGroupBox::new();
    let pressed = KeyEvent { event_type: KeyEventType::KeyPressed, text: String::from("x") };
    let released = KeyEvent { event_type: KeyEventType::KeyReleased, text: String::new() };
    assert_eq!(g.key_event(&pressed), KeyEventResult::EventIgnored);
    assert_eq!(g.key_event(&released), KeyEventResult::EventIgnored);
    let focus_events = [
        FocusEvent::FocusIn,
        FocusEvent::FocusOut,
        FocusEvent::WindowReceivedFocus,
        FocusEvent::WindowLostFocus,
    ];
    for ev in focus_events {
        assert_eq!(g.focus_event(&ev), FocusEventResult::FocusIgnored);
    }
}

#[test]
fn geometry_reflects_the_position_and_size_properties() {
    let mut g = NativeGroupBox::new();
    g.init();
    g.set_geometry(Rect { x: 12, y: 34, width: 320, height: 200 });
    let r = g.geometry();
    assert_eq!((r.x, r.y, r.width, r.height), (12, 34, 320, 200));
}

#[test]
fn render_request_carries_the_measured_text_and_enabled_flag() {
    let mut g = NativeGroupBox::new();
    g.init();
    g.set_title(String::from("Options"));
    g.set_enabled(true);
    let req = g.render(Size { width: 320, height: 200 }, 2, 5);
    assert_eq!(req.text, "Options");
    assert!(req.enabled);
    assert_eq!((req.size.width, req.size.height), (320, 200));
    assert_eq!(req.pixel_scale, 2);
    assert_eq!(req.visual_state, 5);
}

#[test]
fn enabled_flag_round_trips() {
    let mut g = NativeGroupBox::new();
    assert!(!g.enabled());
    g.set_enabled(true);
    assert!(g.enabled());
    g.set_enabled(false);
    assert!(!g.enabled());
}
