//! Small closed enumerations shared across widgets.

use vstd::prelude::*;

verus! {

/// Interaction state of a button widget.
#[derive(Debug, PartialEq, Eq, Structural, Clone, Copy)]
pub enum ButtonState {
    /// Not being interacted with.
    Idle,
    /// The pointer hovers over the button.
    Over,
    /// A press started inside the button and has not been released.
    Pressed,
}

/// Axis along which a box container packs its children.
#[derive(Debug, PartialEq, Eq, Structural, Clone, Copy)]
pub enum Direction {
    Horizon,
    Vertical,
}

} // verus!
