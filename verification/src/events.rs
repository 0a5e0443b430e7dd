//! Input, key and focus events, and the results an item returns when one
//! is dispatched to it.

use vstd::prelude::*;

verus! {

/// A pointer event routed to an item, with positions in whole logical
/// pixels.
#[derive(Clone, Copy, PartialEq, Eq, Structural, Debug)]
pub enum MouseEvent {
    Pressed { x: i32, y: i32 },
    Released { x: i32, y: i32 },
    Moved { x: i32, y: i32 },
    Wheel { x: i32, y: i32, delta_x: i32, delta_y: i32 },
    Exit,
}

/// Whether a key event reports a key going down or coming back up.
#[derive(Clone, Copy, PartialEq, Eq, Structural, Debug)]
pub enum KeyEventType {
    KeyPressed,
    KeyReleased,
}

/// A keyboard event routed to an item.
#[derive(Clone, Debug)]
pub struct KeyEvent {
    pub event_type: KeyEventType,
    pub text: String,
}

/// A change of focus announced to an item.
#[derive(Clone, Copy, PartialEq, Eq, Structural, Debug)]
pub enum FocusEvent {
    FocusIn,
    FocusOut,
    WindowReceivedFocus,
    WindowLostFocus,
}

/// An item's answer when it is offered a pointer event before its
/// children see it.
#[derive(Clone, Copy, PartialEq, Eq, Structural, Debug)]
pub enum InputEventFilterResult {
    ForwardEvent,
    ForwardAndIgnore,
    Intercept,
}

/// An item's answer to a pointer event dispatched to it.
#[derive(Clone, Copy, PartialEq, Eq, Structural, Debug)]
pub enum InputEventResult {
    EventAccepted,
    EventIgnored,
    GrabMouse,
}

/// An item's answer to a key event dispatched to it.
#[derive(Clone, Copy, PartialEq, Eq, Structural, Debug)]
pub enum KeyEventResult {
    EventAccepted,
    EventIgnored,
}

/// An item's answer to a focus change announced to it.
#[derive(Clone, Copy, PartialEq, Eq, Structural, Debug)]
pub enum FocusEventResult {
    FocusAccepted,
    FocusIgnored,
}

} // verus!
