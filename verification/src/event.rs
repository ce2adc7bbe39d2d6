//! The closed set of input events routed from a frame down its widget tree.

use vstd::prelude::*;

verus! {

/// Identity of the pointer button an event carries.
#[derive(Debug, PartialEq, Eq, Structural, Clone, Copy)]
pub enum MouseButton {
    Left,
    Middle,
    Right,
    /// Any further button the windowing backend may report.
    Other,
}

/// Events are processed by the widgets a window owns.
///
/// Pointer events carry the pointer position in window coordinates and the
/// button identity.
#[derive(Debug, Clone, Copy)]
pub enum Event {
    ButtonDown((i32, i32), MouseButton),
    ButtonUp((i32, i32), MouseButton),
    WindowFocusLost,
}

} // verus!
