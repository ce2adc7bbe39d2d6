//! A vertical box: packs its children top to bottom, sharing leftover
//! height among expand-flagged children. The transposed analogue of the
//! horizontal box.

use vstd::prelude::*;
use crate::geometry::Rect;
use crate::widgets::anywidget::AnyWidget;

verus! {

/// A container packing children along the vertical axis.
#[derive(Debug)]
pub struct VBox {
    /// The rectangle the last layout pass assigned, if any.
    pub rect: Option<Rect>,
    /// Cache of the children's largest requested width.
    pub max_width: u32,
    /// The children with their expand flags, in packing order.
    pub children: Vec<(AnyWidget, bool)>,
    /// Whether the children's rectangles match the current rectangle and
    /// child set; cleared by any allocation or packing, re-established by
    /// the next render.
    pub box_updated: bool,
}

impl VBox {
    /// A fresh vertical box with no children.
    pub fn new() -> (b: VBox)
        ensures
            b.rect is None,
            b.max_width == 0,
            b.children@ == Seq::<(AnyWidget, bool)>::empty(),
            !b.box_updated,
    {
        VBox { rect: None, max_width: 0, children: Vec::new(), box_updated: false }
    }

    /// Append a child; `expand` grants it a share of leftover height. The
    /// children's positions are recomputed lazily, on the next render.
    pub fn pack(&mut self, w: AnyWidget, expand: bool)
        ensures
            final(self).rect == old(self).rect,
            final(self).max_width == old(self).max_width,
            final(self).children@ == old(self).children@.push((w, expand)),
            !final(self).box_updated,
    {
        self.children.push((w, expand));
        self.box_updated = false;
    }
}

} // verus!
