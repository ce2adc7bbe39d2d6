//! A push button: an optional child widget inside a fixed padding, a raised
//! bevel, and a press-state machine firing a click callback.

use vstd::prelude::*;
use crate::draw::DrawCmd;
use crate::enums::ButtonState;
use crate::event::{Event, MouseButton};
use crate::geometry::{coord_add, sat_i32, Rect};
use crate::signal::Signal;
use crate::theme::{get_theme_color, spec_theme_color, Color};
use crate::widgets::anywidget::AnyWidget;

verus! {

/// Padding between a button's rectangle and its child, on every side.
pub const PADDING_SIZE: u32 = 3;

/// The rectangle a button's child is allocated: inset by the padding on each
/// side, with the padding collapsing to zero on an axis where the button's
/// rectangle is smaller than twice the padding.
pub open spec fn spec_button_child_rect(rect: Rect) -> Rect {
    let lr: u32 = if rect.w < 2 * PADDING_SIZE { 0u32 } else { PADDING_SIZE };
    let tb: u32 = if rect.h < 2 * PADDING_SIZE { 0u32 } else { PADDING_SIZE };
    Rect {
        x: sat_i32(rect.x + lr) as i32,
        y: sat_i32(rect.y + tb) as i32,
        w: (rect.w - 2 * lr) as u32,
        h: (rect.h - 2 * tb) as u32,
    }
}

/// A button's size request, given its child's request: the child's size (or
/// zero without one) plus the padding on both axes. The button always states
/// a preference.
pub open spec fn spec_button_requested_size(child_req: Option<(u32, u32)>) -> Option<(u32, u32)> {
    match child_req {
        Some(s) => Some(
            (
                crate::geometry::sat_u32(s.0 + 2 * PADDING_SIZE) as u32,
                crate::geometry::sat_u32(s.1 + 2 * PADDING_SIZE) as u32,
            ),
        ),
        None => Some(((2 * PADDING_SIZE) as u32, (2 * PADDING_SIZE) as u32)),
    }
}

/// A push button widget.
#[derive(Debug)]
pub struct Button {
    /// The rectangle the last layout pass assigned, if any.
    pub rect: Option<Rect>,
    /// The widget drawn inside the button, if any.
    pub child: Option<Box<AnyWidget>>,
    /// Key of the registered click callback, if any.
    pub click_action: Option<u64>,
    /// Press-state machine.
    pub state: ButtonState,
}

/// A button's state and signals after handling one event.
///
/// A left press inside the rectangle arms the button; any left release
/// resets it and, when it was armed, completes the click — the release
/// position is deliberately not checked, so a press followed by a release
/// outside the button still clicks. Losing window focus disarms the button
/// without a click.
pub open spec fn spec_button_handle(b: Button, e: Event) -> (Button, Seq<Signal>) {
    match e {
        Event::ButtonDown(p, btn) => {
            if btn == MouseButton::Left && b.rect.unwrap().spec_contains(p.0 as int, p.1 as int) {
                (Button { state: ButtonState::Pressed, ..b }, seq![Signal::Redraw])
            } else {
                (b, Seq::empty())
            }
        },
        Event::ButtonUp(p, btn) => {
            if btn == MouseButton::Left {
                let b2 = Button { state: ButtonState::Idle, ..b };
                if b.state == ButtonState::Pressed {
                    let clicks: Seq<Signal> = match b.click_action {
                        Some(a) => seq![Signal::Clicked(a)],
                        None => Seq::empty(),
                    };
                    (b2, clicks + seq![Signal::Redraw])
                } else {
                    (b2, Seq::empty())
                }
            } else {
                (b, Seq::empty())
            }
        },
        Event::WindowFocusLost => {
            if b.state != ButtonState::Idle {
                (Button { state: ButtonState::Idle, ..b }, seq![Signal::Redraw])
            } else {
                (b, Seq::empty())
            }
        },
    }
}

/// The commands drawing a button's own face (background, fill and bevel),
/// before its child is drawn.
pub open spec fn spec_button_face_cmds(b: Button) -> Seq<DrawCmd> {
    let rect = b.rect.unwrap();
    let theme = spec_theme_color();
    let inside: Color = if b.state != ButtonState::Pressed {
        theme.light_border
    } else {
        theme.dark_border
    };
    let outside: Color = if b.state != ButtonState::Pressed {
        theme.dark_border
    } else {
        theme.light_border
    };
    let fill: Color = if b.state != ButtonState::Pressed {
        theme.background
    } else {
        theme.dark_background
    };
    let base = seq![
        DrawCmd::FillRect(rect, theme.background),
        DrawCmd::FillRect(rect, fill),
        DrawCmd::OutlineRect(rect, outside),
    ];
    if rect.w > 2 && rect.h > 2 {
        base + seq![
            DrawCmd::OutlineRect(
                Rect {
                    x: sat_i32(rect.x + 1) as i32,
                    y: sat_i32(rect.y + 1) as i32,
                    w: (rect.w - 2) as u32,
                    h: (rect.h - 2) as u32,
                },
                inside,
            ),
        ]
    } else {
        base
    }
}

impl Button {
    /// A fresh button with no child.
    pub fn new() -> (w: Button)
        ensures
            w.rect is None,
            w.child is None,
            w.click_action is None,
            w.state == ButtonState::Idle,
    {
        Button { rect: None, child: None, click_action: None, state: ButtonState::Idle }
    }

    /// A fresh button holding a label showing `s`, whose measured pixel size
    /// is `text_size`.
    pub fn new_with_label(s: &str, text_size: (u32, u32)) -> (w: Button)
        ensures
            w.rect is None,
            w.child matches Some(c) && *c matches AnyWidget::Label(l) && l.label_str@ == s@
                && l.rect is None && l.text_size == text_size,
            w.click_action is None,
            w.state == ButtonState::Idle,
    {
        Button {
            rect: None,
            child: Some(Box::new(AnyWidget::Label(crate::widgets::label::Label::new(s, text_size)))),
            click_action: None,
            state: ButtonState::Idle,
        }
    }

    /// Register (or replace) the click callback, by its action key.
    pub fn on_clicked(&mut self, action: u64)
        ensures
            *final(self) == (Button { click_action: Some(action), ..*old(self) }),
    {
        self.click_action = Some(action);
    }

    /// The rectangle the child is allocated for a given button rectangle.
    pub fn child_rect(rect: Rect) -> (r: Rect)
        ensures
            r == spec_button_child_rect(rect),
    {
        let lr: u32 = if rect.w < 2 * PADDING_SIZE { 0 } else { PADDING_SIZE };
        let tb: u32 = if rect.h < 2 * PADDING_SIZE { 0 } else { PADDING_SIZE };
        Rect {
            x: coord_add(rect.x, lr),
            y: coord_add(rect.y, tb),
            w: rect.w - 2 * lr,
            h: rect.h - 2 * tb,
        }
    }

    /// Handle one input event; the button never forwards events to its child.
    pub fn event_handler(&mut self, event: &Event) -> (sigs: Vec<Signal>)
        requires
            (*event matches Event::ButtonDown(_, MouseButton::Left)) ==> old(self).rect is Some,
        ensures
            *final(self) == spec_button_handle(*old(self), *event).0,
            sigs@ == spec_button_handle(*old(self), *event).1,
    {
        let mut sigs: Vec<Signal> = Vec::new();
        match event {
            Event::ButtonDown(p, btn) => {
                if *btn == MouseButton::Left && self.rect.as_ref().unwrap().contains(*p) {
                    self.state = ButtonState::Pressed;
                    sigs.push(Signal::Redraw);
                }
            },
            Event::ButtonUp(_, btn) => {
                if *btn == MouseButton::Left {
                    let was = self.state;
                    self.state = ButtonState::Idle;
                    if was == ButtonState::Pressed {
                        match self.click_action {
                            Some(a) => {
                                sigs.push(Signal::Clicked(a));
                            },
                            None => {},
                        }
                        sigs.push(Signal::Redraw);
                    }
                }
            },
            Event::WindowFocusLost => {
                if self.state != ButtonState::Idle {
                    self.state = ButtonState::Idle;
                    sigs.push(Signal::Redraw);
                }
            },
        }
        sigs
    }

    /// Emit the commands drawing the button's own face.
    pub fn push_face_cmds(&self, out: &mut Vec<DrawCmd>)
        requires
            self.rect is Some,
        ensures
            final(out)@ == old(out)@ + spec_button_face_cmds(*self),
    {
        let rect = *self.rect.as_ref().unwrap();
        let theme = get_theme_color();
        let (inside, outside, fill) = if self.state != ButtonState::Pressed {
            (theme.light_border, theme.dark_border, theme.background)
        } else {
            (theme.dark_border, theme.light_border, theme.dark_background)
        };
        out.push(DrawCmd::FillRect(rect, theme.background));
        out.push(DrawCmd::FillRect(rect, fill));
        out.push(DrawCmd::OutlineRect(rect, outside));
        if rect.w > 2 && rect.h > 2 {
            out.push(
                DrawCmd::OutlineRect(
                    Rect {
                        x: coord_add(rect.x, 1),
                        y: coord_add(rect.y, 1),
                        w: rect.w - 2,
                        h: rect.h - 2,
                    },
                    inside,
                ),
            );
        }
        proof {
            assert(out@ =~= old(out)@ + spec_button_face_cmds(*self));
        }
    }
}

} // verus!
