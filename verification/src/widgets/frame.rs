//! The top-level widget: owns one window's client area and one optional
//! child subtree.
//!
//! Creating the actual window, querying its size and presenting frames is
//! backend work; the frame itself holds the window parameters as plain
//! values, and its update pass produces drawing commands.

use vstd::prelude::*;
use crate::draw::DrawCmd;
use crate::event::Event;
use crate::geometry::Rect;
use crate::signal::Signal;
use crate::theme::{get_background_color, spec_theme_color};
use crate::widgets::anywidget::{
    spec_alloc, spec_can_handle, spec_handle_sigs, spec_handle_state, spec_render_cmds,
    spec_render_state, spec_renderable, AnyWidget,
};

verus! {

/// A top-level frame: one window, one optional child subtree.
#[derive(Debug)]
pub struct Frame {
    /// The window title requested at creation.
    pub title: String,
    /// The window's current client size; kept up to date by resize handling.
    pub window_size: (u32, u32),
    /// Whether the window was requested resizable.
    pub resizable: bool,
    /// The root of the frame's widget subtree, if any.
    pub child: Option<Box<AnyWidget>>,
}

/// The rectangle a frame allocates its child: the full client area.
pub open spec fn spec_frame_child_rect(window_size: (u32, u32)) -> Rect {
    Rect { x: 0, y: 0, w: window_size.0, h: window_size.1 }
}

/// A frame's state after re-deriving its child's rectangle to the current
/// client size.
pub open spec fn spec_frame_size_update(f: Frame) -> Frame {
    match f.child {
        Some(c) => Frame {
            child: Some(Box::new(spec_alloc(*c, spec_frame_child_rect(f.window_size)))),
            ..f
        },
        None => f,
    }
}

impl Frame {
    /// A fresh frame for a window of the given title, client size and
    /// resizability, with no child yet. The window itself is created by the
    /// backend from these values; the frame must then be registered with the
    /// context.
    pub fn new(title: &str, width: u32, height: u32, resizable: bool) -> (f: Frame)
        ensures
            f.title@ == title@,
            f.window_size == (width, height),
            f.resizable == resizable,
            f.child is None,
    {
        Frame { title: title.to_string(), window_size: (width, height), resizable, child: None }
    }

    /// Re-derive the child's rectangle to the frame's full client size.
    pub fn size_update(&mut self)
        ensures
            *final(self) == spec_frame_size_update(*old(self)),
    {
        let size = self.window_size;
        match self.child.take() {
            Some(c) => {
                let mut c = *c;
                c.alloc_rect(Rect { x: 0, y: 0, w: size.0, h: size.1 });
                self.child = Some(Box::new(c));
            },
            None => {},
        }
    }

    /// Replace the child and immediately lay it out to the current client
    /// size.
    pub fn set_child(&mut self, w: AnyWidget)
        ensures
            *final(self) == spec_frame_size_update(
                Frame { child: Some(Box::new(w)), ..*old(self) },
            ),
    {
        self.child = Some(Box::new(w));
        self.size_update();
    }

    /// Whether the frame's subtree is ready to render: every widget that
    /// draws has been allocated a rectangle.
    pub open spec fn spec_can_update(self) -> bool {
        match self.child {
            Some(c) => spec_renderable(*c, None::<Rect>),
            None => true,
        }
    }

    /// The commands redrawing this frame: clear to the theme background,
    /// draw the child subtree, present.
    pub open spec fn spec_update_cmds(self) -> Seq<DrawCmd> {
        let body: Seq<DrawCmd> = match self.child {
            Some(c) => spec_render_cmds(*c, None::<Rect>, None::<Rect>),
            None => Seq::empty(),
        };
        seq![DrawCmd::Clear(spec_theme_color().background)] + body + seq![DrawCmd::Present]
    }

    /// Redraw the frame: refresh any lazily deferred child layout and
    /// return the commands to execute against the window's renderer.
    pub fn update(&mut self) -> (cmds: Vec<DrawCmd>)
        requires
            old(self).spec_can_update(),
        ensures
            final(self).title == old(self).title,
            final(self).window_size == old(self).window_size,
            final(self).resizable == old(self).resizable,
            match (old(self).child, final(self).child) {
                (Some(c), Some(c2)) => spec_render_state(*c, None::<Rect>, *c2),
                (None, None) => true,
                _ => false,
            },
            cmds@ == old(self).spec_update_cmds(),
    {
        let mut cmds: Vec<DrawCmd> = Vec::new();
        cmds.push(DrawCmd::Clear(get_background_color()));
        match self.child.take() {
            Some(c) => {
                let c2 = AnyWidget::render_with(*c, None, None, &mut cmds);
                self.child = Some(Box::new(c2));
            },
            None => {},
        }
        cmds.push(DrawCmd::Present);
        proof {
            assert(cmds@ =~= old(self).spec_update_cmds());
        }
        cmds
    }

    /// Executable test of the redraw precondition: whether every widget in
    /// the subtree that draws has a rectangle.
    pub fn can_update(&self) -> (r: bool)
        ensures
            r == self.spec_can_update(),
    {
        match &self.child {
            Some(c) => c.is_renderable(None),
            None => true,
        }
    }

    /// Executable test of the event-dispatch precondition.
    pub fn can_handle_event(&self, event: &Event) -> (r: bool)
        ensures
            r == spec_can_handle(AnyWidget::Frame(*self), *event),
    {
        match &self.child {
            Some(c) => c.can_handle_event(event),
            None => true,
        }
    }

    /// Forward one input event to the frame's child, if any.
    pub fn event_handler(&mut self, event: &Event) -> (sigs: Vec<Signal>)
        requires
            spec_can_handle(AnyWidget::Frame(*old(self)), *event),
        ensures
            spec_handle_state(
                AnyWidget::Frame(*old(self)),
                *event,
                AnyWidget::Frame(*final(self)),
            ),
            sigs@ == spec_handle_sigs(AnyWidget::Frame(*old(self)), *event),
    {
        match self.child.take() {
            Some(c) => {
                let mut c = *c;
                let sigs = c.event_handler(event);
                self.child = Some(Box::new(c));
                sigs
            },
            None => Vec::new(),
        }
    }
}

} // verus!
