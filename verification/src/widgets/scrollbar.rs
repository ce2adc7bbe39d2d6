//! A horizontal scrollbar: an integer range value plus two arrow hit-boxes
//! that step the value when clicked.
//!
//! The range is modelled with `i64` values; `set_value` clamps into
//! `[lower, upper]`, and the stepping operations subtract or add `step`
//! (saturating at the `i64` range) before clamping.

use vstd::prelude::*;
use crate::draw::DrawCmd;
use crate::event::{Event, MouseButton};
use crate::geometry::{coord_add, i64_sat_add, i64_sat_sub, sat_i32, sat_i64, Rect};
use crate::signal::Signal;
use crate::theme::{get_theme_color, get_theme_layout, spec_theme_color, spec_theme_layout};

verus! {

/// The stored value after assigning `value` to a range `[lower, upper]`.
///
/// Meaningful when `lower <= upper`; the formula mirrors the assignment
/// exactly either way.
pub open spec fn spec_clamp(value: int, lower: int, upper: int) -> int {
    if value < lower {
        lower
    } else if value > upper {
        upper
    } else {
        value
    }
}

/// The left arrow hit-box for a scrollbar allocated `rect`: a square of
/// side `bar - 2` at the bar's left end, one pixel below the top edge.
pub open spec fn spec_sb_left_arrow(rect: Rect) -> Rect {
    let bar = spec_theme_layout().size_scrollbar;
    Rect {
        x: rect.x,
        y: sat_i32(rect.y + 1) as i32,
        w: (bar - 2) as u32,
        h: (bar - 2) as u32,
    }
}

/// The right arrow hit-box: the same square at the bar's right end.
pub open spec fn spec_sb_right_arrow(rect: Rect) -> Rect {
    let bar = spec_theme_layout().size_scrollbar;
    Rect {
        x: sat_i32(rect.x + rect.w - bar + 2) as i32,
        y: sat_i32(rect.y + 1) as i32,
        w: (bar - 2) as u32,
        h: (bar - 2) as u32,
    }
}

/// A scrollbar's state after being assigned a rectangle: the rectangle is
/// stored and both arrow hit-boxes are re-derived from it.
pub open spec fn spec_sb_alloc(s: HScrollBar, rect: Rect) -> HScrollBar {
    HScrollBar {
        rect: Some(rect),
        left_arrow_box: Some(spec_sb_left_arrow(rect)),
        right_arrow_box: Some(spec_sb_right_arrow(rect)),
        ..s
    }
}

/// The commands drawing a scrollbar: the track (one bar-thickness tall) and
/// the two arrow boxes, each filled and outlined.
pub open spec fn spec_sb_face_cmds(s: HScrollBar) -> Seq<DrawCmd> {
    let rect = s.rect.unwrap();
    let la = s.left_arrow_box.unwrap();
    let ra = s.right_arrow_box.unwrap();
    let bar = spec_theme_layout().size_scrollbar;
    let theme = spec_theme_color();
    let track = Rect { x: rect.x, y: rect.y, w: rect.w, h: bar };
    seq![
        DrawCmd::FillRect(track, theme.dark_background),
        DrawCmd::OutlineRect(track, theme.dark_border),
        DrawCmd::FillRect(la, theme.background),
        DrawCmd::OutlineRect(la, theme.dark_border),
        DrawCmd::FillRect(ra, theme.background),
        DrawCmd::OutlineRect(ra, theme.dark_border),
    ]
}

/// A scrollbar's state and signals after handling one event: a left press
/// inside an arrow box steps the value (clamped) and asks for a redraw;
/// everything else is ignored.
pub open spec fn spec_sb_handle(s: HScrollBar, e: Event) -> (HScrollBar, Seq<Signal>) {
    match e {
        Event::ButtonDown(p, btn) => {
            if btn == MouseButton::Left && s.rect.unwrap().spec_contains(p.0 as int, p.1 as int) {
                if s.left_arrow_box.unwrap().spec_contains(p.0 as int, p.1 as int) {
                    let v2 = spec_clamp(sat_i64(s.value - s.step), s.lower as int, s.upper as int);
                    let vs: Seq<Signal> = match s.value_action {
                        Some(a) => seq![Signal::ValueChanged(a, v2 as i64)],
                        None => Seq::empty(),
                    };
                    (HScrollBar { value: v2 as i64, ..s }, vs + seq![Signal::Redraw])
                } else if s.right_arrow_box.unwrap().spec_contains(p.0 as int, p.1 as int) {
                    let v2 = spec_clamp(sat_i64(s.value + s.step), s.lower as int, s.upper as int);
                    let vs: Seq<Signal> = match s.value_action {
                        Some(a) => seq![Signal::ValueChanged(a, v2 as i64)],
                        None => Seq::empty(),
                    };
                    (HScrollBar { value: v2 as i64, ..s }, vs + seq![Signal::Redraw])
                } else {
                    (s, Seq::empty())
                }
            } else {
                (s, Seq::empty())
            }
        },
        _ => (s, Seq::empty()),
    }
}

/// A horizontal scrollbar widget.
#[derive(Debug)]
pub struct HScrollBar {
    /// The rectangle the last layout pass assigned, if any.
    pub rect: Option<Rect>,
    /// Hit-box of the left (decrementing) arrow; set by layout.
    pub left_arrow_box: Option<Rect>,
    /// Hit-box of the right (incrementing) arrow; set by layout.
    pub right_arrow_box: Option<Rect>,
    /// Lower bound of the range.
    pub lower: i64,
    /// Upper bound of the range.
    pub upper: i64,
    /// Current value; `set_value` keeps it in `[lower, upper]`.
    pub value: i64,
    /// Amount one arrow click changes the value by.
    pub step: i64,
    /// Key of the registered value-changed callback, if any.
    pub value_action: Option<u64>,
}

impl HScrollBar {
    /// A fresh scrollbar over the range `[0, 100]`, value `0`, step `10`.
    pub fn new() -> (w: HScrollBar)
        ensures
            w.rect is None,
            w.left_arrow_box is None,
            w.right_arrow_box is None,
            w.lower == 0,
            w.upper == 100,
            w.value == 0,
            w.step == 10,
            w.value_action is None,
    {
        HScrollBar {
            rect: None,
            left_arrow_box: None,
            right_arrow_box: None,
            lower: 0,
            upper: 100,
            value: 0,
            step: 10,
            value_action: None,
        }
    }

    /// Set the lower bound. The stored value is not revisited.
    pub fn set_lower(&mut self, lower: i64)
        ensures
            *final(self) == (HScrollBar { lower, ..*old(self) }),
    {
        self.lower = lower;
    }

    /// The lower bound.
    pub fn get_lower(&self) -> (r: i64)
        ensures
            r == self.lower,
    {
        self.lower
    }

    /// Set the upper bound. The stored value is not revisited.
    pub fn set_upper(&mut self, upper: i64)
        ensures
            *final(self) == (HScrollBar { upper, ..*old(self) }),
    {
        self.upper = upper;
    }

    /// The upper bound.
    pub fn get_upper(&self) -> (r: i64)
        ensures
            r == self.upper,
    {
        self.upper
    }

    /// Assign a value, clamping it into `[lower, upper]`. If a value-changed
    /// callback is registered, the returned signal invokes it with the value
    /// actually stored.
    pub fn set_value(&mut self, value: i64) -> (sig: Option<Signal>)
        ensures
            final(self).value == spec_clamp(value as int, old(self).lower as int, old(self).upper as int),
            *final(self) == (HScrollBar { value: final(self).value, ..*old(self) }),
            sig == match old(self).value_action {
                Some(a) => Some(Signal::ValueChanged(a, final(self).value)),
                None => None::<Signal>,
            },
    {
        let clamped = if value < self.lower {
            self.lower
        } else if value > self.upper {
            self.upper
        } else {
            value
        };
        self.value = clamped;
        match self.value_action {
            Some(a) => Some(Signal::ValueChanged(a, clamped)),
            None => None,
        }
    }

    /// The stored value.
    pub fn get_value(&self) -> (r: i64)
        ensures
            r == self.value,
    {
        self.value
    }

    /// Step the value down by `step` (saturating), then clamp.
    pub fn step_dec_value(&mut self) -> (sig: Option<Signal>)
        ensures
            final(self).value == spec_clamp(
                sat_i64(old(self).value - old(self).step),
                old(self).lower as int,
                old(self).upper as int,
            ),
            *final(self) == (HScrollBar { value: final(self).value, ..*old(self) }),
            sig == match old(self).value_action {
                Some(a) => Some(Signal::ValueChanged(a, final(self).value)),
                None => None::<Signal>,
            },
    {
        let next = i64_sat_sub(self.value, self.step);
        self.set_value(next)
    }

    /// Step the value up by `step` (saturating), then clamp.
    pub fn step_inc_value(&mut self) -> (sig: Option<Signal>)
        ensures
            final(self).value == spec_clamp(
                sat_i64(old(self).value + old(self).step),
                old(self).lower as int,
                old(self).upper as int,
            ),
            *final(self) == (HScrollBar { value: final(self).value, ..*old(self) }),
            sig == match old(self).value_action {
                Some(a) => Some(Signal::ValueChanged(a, final(self).value)),
                None => None::<Signal>,
            },
    {
        let next = i64_sat_add(self.value, self.step);
        self.set_value(next)
    }

    /// Assign the scrollbar its rectangle and re-derive the arrow hit-boxes.
    pub fn sb_alloc(&mut self, rect: Rect)
        ensures
            *final(self) == spec_sb_alloc(*old(self), rect),
    {
        self.rect = Some(rect);
        let bar = get_theme_layout().size_scrollbar;
        self.left_arrow_box = Some(
            Rect { x: rect.x, y: coord_add(rect.y, 1), w: bar - 2, h: bar - 2 },
        );
        let right_x: i64 = rect.x as i64 + rect.w as i64 - bar as i64 + 2;
        let right_x: i32 = if right_x > 0x7fff_ffff_i64 {
            0x7fff_ffff
        } else if right_x < -0x8000_0000_i64 {
            -0x8000_0000
        } else {
            right_x as i32
        };
        self.right_arrow_box = Some(
            Rect { x: right_x, y: coord_add(rect.y, 1), w: bar - 2, h: bar - 2 },
        );
    }

    /// Emit the commands drawing the scrollbar.
    pub fn push_face_cmds(&self, out: &mut Vec<DrawCmd>)
        requires
            self.rect is Some,
            self.left_arrow_box is Some,
            self.right_arrow_box is Some,
        ensures
            final(out)@ == old(out)@ + spec_sb_face_cmds(*self),
    {
        let rect = *self.rect.as_ref().unwrap();
        let la = *self.left_arrow_box.as_ref().unwrap();
        let ra = *self.right_arrow_box.as_ref().unwrap();
        let bar = get_theme_layout().size_scrollbar;
        let theme = get_theme_color();
        let track = Rect { x: rect.x, y: rect.y, w: rect.w, h: bar };
        out.push(DrawCmd::FillRect(track, theme.dark_background));
        out.push(DrawCmd::OutlineRect(track, theme.dark_border));
        out.push(DrawCmd::FillRect(la, theme.background));
        out.push(DrawCmd::OutlineRect(la, theme.dark_border));
        out.push(DrawCmd::FillRect(ra, theme.background));
        out.push(DrawCmd::OutlineRect(ra, theme.dark_border));
        proof {
            assert(out@ =~= old(out)@ + spec_sb_face_cmds(*self));
        }
    }

    /// Handle one input event: only a left press inside one of the arrow
    /// boxes changes anything.
    pub fn event_handler(&mut self, event: &Event) -> (sigs: Vec<Signal>)
        requires
            old(self).left_arrow_box is Some,
            old(self).right_arrow_box is Some,
            (*event matches Event::ButtonDown(_, MouseButton::Left)) ==> old(self).rect is Some,
        ensures
            *final(self) == spec_sb_handle(*old(self), *event).0,
            sigs@ == spec_sb_handle(*old(self), *event).1,
    {
        let mut sigs: Vec<Signal> = Vec::new();
        let left_box = *self.left_arrow_box.as_ref().unwrap();
        let right_box = *self.right_arrow_box.as_ref().unwrap();
        match event {
            Event::ButtonDown(p, btn) => {
                if *btn == MouseButton::Left && self.rect.as_ref().unwrap().contains(*p) {
                    if left_box.contains(*p) {
                        match self.step_dec_value() {
                            Some(sg) => sigs.push(sg),
                            None => {},
                        }
                        sigs.push(Signal::Redraw);
                    } else if right_box.contains(*p) {
                        match self.step_inc_value() {
                            Some(sg) => sigs.push(sg),
                            None => {},
                        }
                        sigs.push(Signal::Redraw);
                    }
                }
            },
            _ => {},
        }
        proof {
            assert(sigs@ =~= spec_sb_handle(*old(self), *event).1);
        }
        sigs
    }

    /// Register (or replace) the value-changed callback, by its action key.
    pub fn on_value_changed(&mut self, action: u64)
        ensures
            *final(self) == (HScrollBar { value_action: Some(action), ..*old(self) }),
    {
        self.value_action = Some(action);
    }
}

} // verus!
