//! A retained-mode GUI widget toolkit core: geometry, widget composition,
//! box-packing layout, event dispatch and a command-list renderer.
//!
//! The toolkit owns the widget tree and everything that can be computed from
//! plain values: layout allocation, the button and scrollbar state machines,
//! and the translation of a widget tree into a list of drawing commands.
//! Window creation, the event pump, font rasterization and the execution of
//! drawing commands against a real rendering backend are left to the
//! surrounding application.

pub mod draw;
pub mod enums;
pub mod event;
pub mod geometry;
pub mod laws;
pub mod signal;
pub mod theme;
pub mod traits;
pub mod uicontext;
pub mod widgets;

use vstd::prelude::*;

verus! {

} // verus!
