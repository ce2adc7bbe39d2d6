//! A filler widget: it only paints its rectangle in a fixed debug color.

use vstd::prelude::*;
use crate::geometry::Rect;
use crate::theme::Color;

verus! {

/// The color an `Empty` widget fills its rectangle with.
pub open spec fn spec_empty_fill_color() -> Color {
    Color { r: 0, g: 0, b: 0xFF }
}

/// A widget with no content, no children and no size preference.
#[derive(Debug)]
pub struct Empty {
    /// The rectangle the last layout pass assigned, if any.
    pub rect: Option<Rect>,
}

impl Empty {
    /// A fresh filler widget, not yet allocated a rectangle.
    pub fn new() -> (w: Empty)
        ensures
            w == (Empty { rect: None::<Rect> }),
    {
        Empty { rect: None }
    }
}

} // verus!
