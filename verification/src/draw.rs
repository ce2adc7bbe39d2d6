//! Drawing commands.
//!
//! Rendering a widget tree produces a list of these commands; the
//! application executes them, in order, against the real rendering backend.
//! Keeping rendering a pure computation makes the whole render pass
//! verifiable; only the command executor touches the backend.

use vstd::prelude::*;
use crate::geometry::Rect;
use crate::theme::Color;

verus! {

/// One backend drawing operation.
#[derive(Debug, PartialEq, Eq, Clone)]
pub enum DrawCmd {
    /// Restrict drawing to a rectangle; `None` removes the restriction.
    SetClip(Option<Rect>),
    /// Move the coordinate origin to a rectangle; `None` restores it.
    SetViewport(Option<Rect>),
    /// Fill the whole current target with a color.
    Clear(Color),
    /// Fill a rectangle with a color.
    FillRect(Rect, Color),
    /// Draw the one-pixel outline of a rectangle.
    OutlineRect(Rect, Color),
    /// Rasterize a string with the default font and blit it to a rectangle.
    Text(String, Rect, Color),
    /// Invoke the drawing callback an application registered under this key.
    UserDraw(u64),
    /// Present the finished frame.
    Present,
}

} // verus!
