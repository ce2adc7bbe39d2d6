//! A text label: holds a string and its measured pixel size.
//!
//! Measuring text needs the backend's font rasterizer, so the measured size
//! is handed in as a plain value wherever the text is set; everything the
//! label computes from it (its size request and where the text lands inside
//! the allocated rectangle) is verified here.

use vstd::prelude::*;
use crate::geometry::{coord_add, sat_i32, Rect};

verus! {

/// A widget rendering one line of text.
#[derive(Debug)]
pub struct Label {
    /// The displayed text.
    pub label_str: String,
    /// The rectangle the last layout pass assigned, if any.
    pub rect: Option<Rect>,
    /// The pixel size the backend measured for `label_str`.
    pub text_size: (u32, u32),
}

/// Where a label's text lands inside its allocated rectangle: centered on
/// each axis where the rectangle exceeds the text size (odd remainders round
/// toward the lower coordinate), anchored at the origin otherwise.
pub open spec fn spec_text_rect(rect: Rect, text_size: (u32, u32)) -> Rect {
    let tx = if rect.w > text_size.0 {
        sat_i32(rect.x + (rect.w - text_size.0) / 2)
    } else {
        rect.x as int
    };
    let ty = if rect.h > text_size.1 {
        sat_i32(rect.y + (rect.h - text_size.1) / 2)
    } else {
        rect.y as int
    };
    Rect { x: tx as i32, y: ty as i32, w: text_size.0, h: text_size.1 }
}

impl Label {
    /// A fresh label showing `s`, whose measured pixel size is `text_size`.
    pub fn new(s: &str, text_size: (u32, u32)) -> (w: Label)
        ensures
            w.label_str@ == s@,
            w.rect is None,
            w.text_size == text_size,
    {
        Label { label_str: s.to_string(), rect: None, text_size }
    }

    /// The destination rectangle for the rasterized text.
    pub fn text_rect(&self, rect: Rect) -> (r: Rect)
        ensures
            r == spec_text_rect(rect, self.text_size),
    {
        let tx = if rect.w > self.text_size.0 {
            coord_add(rect.x, (rect.w - self.text_size.0) / 2)
        } else {
            rect.x
        };
        let ty = if rect.h > self.text_size.1 {
            coord_add(rect.y, (rect.h - self.text_size.1) / 2)
        } else {
            rect.y
        };
        Rect { x: tx, y: ty, w: self.text_size.0, h: self.text_size.1 }
    }

    /// Replace the text; `text_size` is the pixel size the backend measured
    /// for the new text.
    pub fn set_text(&mut self, new_text: &str, text_size: (u32, u32))
        ensures
            final(self).label_str@ == new_text@,
            final(self).text_size == text_size,
            final(self).rect == old(self).rect,
    {
        self.label_str = new_text.to_string();
        self.text_size = text_size;
    }

    /// The current text.
    pub fn get_text(&self) -> (t: String)
        ensures
            t@ == self.label_str@,
    {
        self.label_str.clone()
    }
}

} // verus!
