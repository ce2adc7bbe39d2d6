//! A one-child container centering its child inside its own rectangle.

use vstd::prelude::*;
use crate::geometry::Rect;
use crate::widgets::anywidget::AnyWidget;

verus! {

/// The rectangle a centering box's child is allocated: its requested size
/// centered in the box's rectangle, or the full rectangle if the child
/// states no preference.
pub open spec fn spec_center_child_rect(rect: Rect, child_req: Option<(u32, u32)>) -> Rect {
    match child_req {
        Some(s) => Rect::spec_from_center(rect.spec_center(), s.0, s.1),
        None => rect,
    }
}

/// A container centering its sole child.
#[derive(Debug)]
pub struct CenteringBox {
    /// The rectangle the last layout pass assigned, if any.
    pub rect: Option<Rect>,
    /// The centered widget, if any.
    pub child: Option<Box<AnyWidget>>,
}

impl CenteringBox {
    /// A fresh centering box around `w`.
    pub fn new(w: AnyWidget) -> (b: CenteringBox)
        ensures
            b.rect is None,
            b.child matches Some(c) && *c == w,
    {
        CenteringBox { rect: None, child: Some(Box::new(w)) }
    }

    /// A fresh centering box with no child yet.
    pub fn empty() -> (b: CenteringBox)
        ensures
            b.rect is None,
            b.child is None,
    {
        CenteringBox { rect: None, child: None }
    }
}

} // verus!
