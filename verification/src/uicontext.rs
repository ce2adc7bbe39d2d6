//! The UI context: the frame registry and the redraw-request flag that
//! drive the main loop.
//!
//! The backend work of the loop — creating windows, pumping native events,
//! executing drawing commands, sleeping to the tick rate — lives in the
//! application. The decisions live here: which frame an event reaches, when
//! a redraw is owed, and what each frame draws.

use vstd::prelude::*;
use crate::draw::DrawCmd;
use crate::event::Event;
use crate::signal::Signal;
use crate::theme::ThemeLoader;
use crate::widgets::anywidget::{
    spec_can_handle, spec_handle_sigs, spec_handle_state, AnyWidget,
};
use crate::widgets::frame::{spec_frame_size_update, Frame};

verus! {

/// One UI session: the registered frames and the pending-redraw flag.
///
/// Events are dispatched to the first registered frame only; a redesign
/// would route by window, but the single-primary-frame behaviour is kept
/// deliberately.
#[derive(Debug)]
pub struct UIContext {
    /// The registered top-level frames, in registration order.
    pub frames: Vec<Frame>,
    /// Whether a redraw is owed on the next tick; repeated requests
    /// collapse into one.
    pub redraw_requested: bool,
}

/// Start a UI session. The theme must have been loaded first; the token
/// proves it.
pub fn init(theme_loader: ThemeLoader) -> (ctx: UIContext)
    ensures
        ctx.frames@ == Seq::<Frame>::empty(),
        !ctx.redraw_requested,
{
    let _ = theme_loader;
    UIContext { frames: Vec::new(), redraw_requested: false }
}

impl UIContext {
    /// Register a new top-level frame.
    pub fn add_frame(&mut self, frame: Frame)
        ensures
            final(self).frames@ == old(self).frames@.push(frame),
            final(self).redraw_requested == old(self).redraw_requested,
    {
        self.frames.push(frame);
    }

    /// Ask for a redraw on the next tick; idempotent.
    pub fn request_redraw(&mut self)
        ensures
            final(self).frames == old(self).frames,
            final(self).redraw_requested,
    {
        self.redraw_requested = true;
    }

    /// Take the pending-redraw flag: reports whether a redraw was owed and
    /// clears it.
    pub fn redraw_start(&mut self) -> (owed: bool)
        ensures
            owed == old(self).redraw_requested,
            final(self).frames == old(self).frames,
            !final(self).redraw_requested,
    {
        let owed = self.redraw_requested;
        self.redraw_requested = false;
        owed
    }

    /// How many frames are registered.
    pub fn frame_count(&self) -> (n: usize)
        ensures
            n == self.frames@.len(),
    {
        self.frames.len()
    }

    /// Dispatch one translated input event to the primary frame's widget
    /// tree, recording a redraw request if any widget asked for one. The
    /// returned signals also carry the callback keys for the application to
    /// act on.
    pub fn dispatch_event(&mut self, event: &Event) -> (sigs: Vec<Signal>)
        requires
            old(self).frames@.len() > 0,
            spec_can_handle(AnyWidget::Frame(old(self).frames@[0]), *event),
        ensures
            final(self).frames@.len() == old(self).frames@.len(),
            spec_handle_state(
                AnyWidget::Frame(old(self).frames@[0]),
                *event,
                AnyWidget::Frame(final(self).frames@[0]),
            ),
            forall|j: int|
                1 <= j < old(self).frames@.len() ==> final(self).frames@[j] == old(
                    self,
                ).frames@[j],
            sigs@ == spec_handle_sigs(AnyWidget::Frame(old(self).frames@[0]), *event),
            final(self).redraw_requested == (old(self).redraw_requested || sigs@.contains(
                Signal::Redraw,
            )),
    {
        let mut first = self.frames.remove(0);
        let sigs = first.event_handler(event);
        self.frames.insert(0, first);
        let mut i: usize = 0;
        let mut saw_redraw = false;
        while i < sigs.len()
            invariant
                i <= sigs@.len(),
                saw_redraw == sigs@.subrange(0, i as int).contains(Signal::Redraw),
            decreases sigs@.len() - i,
        {
            if sigs[i] == Signal::Redraw {
                saw_redraw = true;
            }
            proof {
                assert(sigs@.subrange(0, i + 1 as int).drop_last() =~= sigs@.subrange(
                    0,
                    i as int,
                ));
                assert(sigs@.subrange(0, i + 1 as int).last() == sigs@[i as int]);
            }
            i += 1;
        }
        proof {
            assert(sigs@.subrange(0, sigs@.len() as int) =~= sigs@);
        }
        if saw_redraw {
            self.redraw_requested = true;
        }
        sigs
    }

    /// React to the primary frame's window being resized to the given
    /// client size: remember it, re-derive the child's layout, and ask for
    /// a redraw.
    pub fn size_changed(&mut self, width: u32, height: u32)
        requires
            old(self).frames@.len() > 0,
        ensures
            final(self).frames@.len() == old(self).frames@.len(),
            final(self).frames@[0] == spec_frame_size_update(
                Frame { window_size: (width, height), ..old(self).frames@[0] },
            ),
            forall|j: int|
                1 <= j < old(self).frames@.len() ==> final(self).frames@[j] == old(
                    self,
                ).frames@[j],
            final(self).redraw_requested,
    {
        self.redraw_requested = true;
        let mut first = self.frames.remove(0);
        first.window_size = (width, height);
        first.size_update();
        self.frames.insert(0, first);
    }

    /// One redraw step of the main loop: when a redraw is owed, clear the
    /// flag and redraw every registered frame, returning one command list
    /// per frame; otherwise do nothing.
    pub fn redraw_tick(&mut self) -> (r: Option<Vec<Vec<DrawCmd>>>)
        requires
            forall|i: int|
                0 <= i < old(self).frames@.len() ==> (#[trigger] old(
                    self,
                ).frames@[i]).spec_can_update(),
        ensures
            !final(self).redraw_requested,
            r is Some <==> old(self).redraw_requested,
            final(self).frames@.len() == old(self).frames@.len(),
            r matches Some(cmds) ==> cmds@.len() == old(self).frames@.len() && forall|i: int|
                0 <= i < old(self).frames@.len() ==> (#[trigger] cmds@[i])@ == old(
                    self,
                ).frames@[i].spec_update_cmds(),
            r is Some ==> forall|i: int|
                0 <= i < old(self).frames@.len() ==> {
                    let f0 = #[trigger] old(self).frames@[i];
                    let f1 = final(self).frames@[i];
                    f1.title == f0.title && f1.window_size == f0.window_size && f1.resizable
                        == f0.resizable && match (f0.child, f1.child) {
                        (Some(c), Some(c2)) => crate::widgets::anywidget::spec_render_state(
                            *c,
                            None::<crate::geometry::Rect>,
                            *c2,
                        ),
                        (None, None) => true,
                        _ => false,
                    }
                },
            r is None ==> final(self).frames == old(self).frames,
    {
        if !self.redraw_start() {
            return None;
        }
        let mut all: Vec<Vec<DrawCmd>> = Vec::new();
        let mut i: usize = 0;
        let n = self.frames.len();
        while i < n
            invariant
                n == old(self).frames@.len(),
                forall|j: int|
                    0 <= j < n ==> (#[trigger] old(self).frames@[j]).spec_can_update(),
                i <= n,
                all@.len() == i,
                !self.redraw_requested,
                self.frames@.len() == n,
                forall|j: int|
                    i <= j < n ==> #[trigger] self.frames@[j] == old(self).frames@[j],
                forall|j: int|
                    0 <= j < i ==> (#[trigger] all@[j])@ == old(
                        self,
                    ).frames@[j].spec_update_cmds(),
                forall|j: int|
                    0 <= j < i ==> {
                        let f0 = #[trigger] old(self).frames@[j];
                        let f1 = self.frames@[j];
                        f1.title == f0.title && f1.window_size == f0.window_size && f1.resizable
                            == f0.resizable && match (f0.child, f1.child) {
                            (Some(c), Some(c2)) => crate::widgets::anywidget::spec_render_state(
                                *c,
                                None::<crate::geometry::Rect>,
                                *c2,
                            ),
                            (None, None) => true,
                            _ => false,
                        }
                    },
            decreases n - i,
        {
            let cmds = self.update_frame(i);
            all.push(cmds);
            i += 1;
        }
        Some(all)
    }

    /// Redraw one registered frame, returning the commands to execute
    /// against that frame's window.
    pub fn update_frame(&mut self, i: usize) -> (cmds: Vec<DrawCmd>)
        requires
            i < old(self).frames@.len(),
            old(self).frames@[i as int].spec_can_update(),
        ensures
            final(self).frames@.len() == old(self).frames@.len(),
            final(self).frames@[i as int].title == old(self).frames@[i as int].title,
            final(self).frames@[i as int].window_size == old(self).frames@[i as int].window_size,
            final(self).frames@[i as int].resizable == old(self).frames@[i as int].resizable,
            match (old(self).frames@[i as int].child, final(self).frames@[i as int].child) {
                (Some(c), Some(c2)) => crate::widgets::anywidget::spec_render_state(
                    *c,
                    None::<crate::geometry::Rect>,
                    *c2,
                ),
                (None, None) => true,
                _ => false,
            },
            forall|j: int|
                0 <= j < old(self).frames@.len() && j != i ==> final(self).frames@[j] == old(
                    self,
                ).frames@[j],
            final(self).redraw_requested == old(self).redraw_requested,
            cmds@ == old(self).frames@[i as int].spec_update_cmds(),
    {
        let mut f = self.frames.remove(i);
        let cmds = f.update();
        self.frames.insert(i, f);
        cmds
    }
}

} // verus!
