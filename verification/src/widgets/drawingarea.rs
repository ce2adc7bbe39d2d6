//! A widget whose content is drawn by an application callback.
//!
//! The callback itself runs outside the library: the widget stores the
//! numeric key it was registered under and rendering emits a `UserDraw`
//! command carrying that key, scoped to the widget's rectangle.

use vstd::prelude::*;
use crate::geometry::Rect;
use crate::theme::Color;

verus! {

/// The color a drawing area is cleared to before its callback runs.
pub open spec fn spec_drawingarea_clear_color() -> Color {
    Color { r: 0xFF, g: 0xFF, b: 0xFF }
}

/// A widget delegating its drawing to an application callback.
#[derive(Debug)]
pub struct DrawingArea {
    /// The rectangle the last layout pass assigned, if any.
    pub rect: Option<Rect>,
    /// Key of the registered drawing callback, if any.
    pub draw_action: Option<u64>,
}

impl DrawingArea {
    /// A fresh drawing area with no callback registered.
    pub fn new() -> (w: DrawingArea)
        ensures
            w == (DrawingArea { rect: None::<Rect>, draw_action: None::<u64> }),
    {
        DrawingArea { rect: None, draw_action: None }
    }

    /// Register (or replace) the drawing callback, by its action key.
    pub fn on_draw(&mut self, action: u64)
        ensures
            final(self).draw_action == Some(action),
            final(self).rect == old(self).rect,
    {
        self.draw_action = Some(action);
    }
}

} // verus!
