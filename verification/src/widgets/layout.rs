//! Absolute placement: every child keeps the explicit rectangle it was
//! added with; the container's own allocation never re-derives them.

use vstd::prelude::*;
use crate::geometry::Rect;
use crate::widgets::anywidget::{spec_alloc, AnyWidget};

verus! {

/// A container of absolutely placed children.
#[derive(Debug)]
pub struct Layout {
    /// The rectangle the last layout pass assigned, if any.
    pub rect: Option<Rect>,
    /// The children, in insertion order.
    pub children: Vec<AnyWidget>,
}

impl Layout {
    /// A fresh absolute-layout container.
    pub fn new() -> (b: Layout)
        ensures
            b.rect is None,
            b.children@ == Seq::<AnyWidget>::empty(),
    {
        Layout { rect: None, children: Vec::new() }
    }

    /// Append a child, allocating it the given rectangle immediately.
    pub fn add(&mut self, widget: AnyWidget, rect: Rect)
        ensures
            final(self).rect == old(self).rect,
            final(self).children@ == old(self).children@.push(spec_alloc(widget, rect)),
    {
        let mut widget = widget;
        widget.alloc_rect(rect);
        self.children.push(widget);
    }
}

} // verus!
