//! A horizontal box: packs its children left to right, sharing leftover
//! width among expand-flagged children.
//!
//! The packing arithmetic itself lives with the polymorphic widget value,
//! since it consults every child's size request.

use vstd::prelude::*;
use crate::geometry::Rect;
use crate::widgets::anywidget::AnyWidget;

verus! {

/// A container packing children along the horizontal axis.
#[derive(Debug)]
pub struct HBox {
    /// The rectangle the last layout pass assigned, if any.
    pub rect: Option<Rect>,
    /// Cache of the children's largest requested height.
    pub max_height: u32,
    /// The children with their expand flags, in packing order.
    pub children: Vec<(AnyWidget, bool)>,
    /// Whether the children's rectangles match the current rectangle and
    /// child set; cleared by any allocation or packing, re-established by
    /// the next render.
    pub box_updated: bool,
}

impl HBox {
    /// A fresh horizontal box with no children.
    pub fn new() -> (b: HBox)
        ensures
            b.rect is None,
            b.max_height == 0,
            b.children@ == Seq::<(AnyWidget, bool)>::empty(),
            !b.box_updated,
    {
        HBox { rect: None, max_height: 0, children: Vec::new(), box_updated: false }
    }

    /// Append a child; `expand` grants it a share of leftover width. The
    /// children's positions are recomputed lazily, on the next render.
    pub fn pack(&mut self, w: AnyWidget, expand: bool)
        ensures
            final(self).rect == old(self).rect,
            final(self).max_height == old(self).max_height,
            final(self).children@ == old(self).children@.push((w, expand)),
            !final(self).box_updated,
    {
        self.children.push((w, expand));
        self.box_updated = false;
    }
}

} // verus!
