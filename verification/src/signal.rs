//! Signals emitted by event handling.
//!
//! Widgets do not store application callbacks; they store a numeric action
//! key and emit a signal carrying it. The application maps keys back to its
//! own closures. This keeps the whole event state machine verifiable.

use vstd::prelude::*;

verus! {

/// One observable effect of dispatching an event into a widget tree.
#[derive(Debug, PartialEq, Eq, Structural, Clone, Copy)]
pub enum Signal {
    /// A completed press-then-release cycle on the button registered under
    /// this action key.
    Clicked(u64),
    /// The range widget registered under this action key accepted a value.
    ValueChanged(u64, i64),
    /// Some widget changed its visual state; the next tick must re-render.
    Redraw,
}

} // verus!
