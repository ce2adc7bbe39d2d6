//! A one-child container insetting its child by four independent margins.

use vstd::prelude::*;
use crate::geometry::{sat_i32, sat_u32, Rect};
use crate::widgets::anywidget::AnyWidget;

verus! {

/// The rectangle a margin box's child is allocated: inset by the margins,
/// with a margin pair collapsing to zero if it would invert the rectangle
/// on that axis.
pub open spec fn spec_margin_child_rect(
    rect: Rect,
    top: u32,
    bottom: u32,
    left: u32,
    right: u32,
) -> Rect {
    let (l, r): (u32, u32) = if rect.w < left + right { (0u32, 0u32) } else { (left, right) };
    let (t, b): (u32, u32) = if rect.h < top + bottom { (0u32, 0u32) } else { (top, bottom) };
    Rect {
        x: sat_i32(rect.x + l) as i32,
        y: sat_i32(rect.y + t) as i32,
        w: (rect.w - l - r) as u32,
        h: (rect.h - t - b) as u32,
    }
}

/// A margin box's size request, given its child's request: the child's size
/// (or nothing) plus the margins on both axes, saturating at the extent
/// range. The box always states a preference.
pub open spec fn spec_margin_requested_size(
    child_req: Option<(u32, u32)>,
    top: u32,
    bottom: u32,
    left: u32,
    right: u32,
) -> Option<(u32, u32)> {
    match child_req {
        Some(s) => Some(
            (sat_u32(s.0 + left + right) as u32, sat_u32(s.1 + top + bottom) as u32),
        ),
        None => Some((sat_u32(left + right) as u32, sat_u32(top + bottom) as u32)),
    }
}

/// A container insetting its sole child by fixed margins.
#[derive(Debug)]
pub struct MarginBox {
    /// The rectangle the last layout pass assigned, if any.
    pub rect: Option<Rect>,
    /// The widget inset by the margins, if any.
    pub child: Option<Box<AnyWidget>>,
    pub top: u32,
    pub bottom: u32,
    pub left: u32,
    pub right: u32,
}

impl MarginBox {
    /// A fresh margin box around `w`.
    pub fn new(w: AnyWidget, top: u32, bottom: u32, left: u32, right: u32) -> (b: MarginBox)
        ensures
            b.rect is None,
            b.child matches Some(c) && *c == w,
            b.top == top && b.bottom == bottom && b.left == left && b.right == right,
    {
        MarginBox { rect: None, child: Some(Box::new(w)), top, bottom, left, right }
    }

    /// A fresh margin box with no child yet.
    pub fn empty(top: u32, bottom: u32, left: u32, right: u32) -> (b: MarginBox)
        ensures
            b.rect is None,
            b.child is None,
            b.top == top && b.bottom == bottom && b.left == left && b.right == right,
    {
        MarginBox { rect: None, child: None, top, bottom, left, right }
    }

    /// Put `w` in the box, replacing any present child. The child is not
    /// allocated a rectangle until the next layout pass.
    pub fn set_child(&mut self, w: AnyWidget)
        ensures
            *final(self) == (MarginBox { child: Some(Box::new(w)), ..*old(self) }),
    {
        self.child = Some(Box::new(w));
    }

    /// The rectangle the child is allocated for a given box rectangle.
    pub fn child_rect(&self, rect: Rect) -> (r: Rect)
        ensures
            r == spec_margin_child_rect(rect, self.top, self.bottom, self.left, self.right),
    {
        let (l, r): (u32, u32) = if (rect.w as u64) < self.left as u64 + self.right as u64 {
            (0, 0)
        } else {
            (self.left, self.right)
        };
        let (t, b): (u32, u32) = if (rect.h as u64) < self.top as u64 + self.bottom as u64 {
            (0, 0)
        } else {
            (self.top, self.bottom)
        };
        Rect {
            x: crate::geometry::coord_add(rect.x, l),
            y: crate::geometry::coord_add(rect.y, t),
            w: rect.w - l - r,
            h: rect.h - t - b,
        }
    }
}

} // verus!
