//! The polymorphic widget value: a closed sum over every concrete widget
//! kind, with the capability operations every widget supports — size
//! request, layout allocation, rendering and event handling — dispatched by
//! a match on the variant.

use vstd::prelude::*;
use crate::draw::DrawCmd;
use crate::event::{Event, MouseButton};
use crate::geometry::{sat_i32, sat_u32, Rect};
use crate::signal::Signal;
use crate::theme::spec_theme_layout;
use crate::widgets::button::{spec_button_child_rect, spec_button_requested_size, Button};
use crate::widgets::centeringbox::{spec_center_child_rect, CenteringBox};
use crate::widgets::drawingarea::DrawingArea;
use crate::widgets::empty::Empty;
use crate::widgets::frame::Frame;
use crate::widgets::hbox::HBox;
use crate::widgets::label::Label;
use crate::widgets::layout::Layout;
use crate::widgets::marginbox::{spec_margin_child_rect, spec_margin_requested_size, MarginBox};
use crate::widgets::scrollbar::HScrollBar;
use crate::widgets::vbox::VBox;

verus! {

/// Any widget: the closed set of concrete widget kinds.
#[derive(Debug)]
pub enum AnyWidget {
    Frame(Frame),
    Layout(Layout),
    VBox(VBox),
    HBox(HBox),
    MarginBox(MarginBox),
    CenteringBox(CenteringBox),
    Button(Button),
    Empty(Empty),
    Label(Label),
    DrawingArea(DrawingArea),
    HScrollBar(HScrollBar),
}

/// A widget's advisory natural size; `None` means no preference.
pub open spec fn spec_requested_size(w: AnyWidget) -> Option<(u32, u32)>
    decreases w, 1int,
{
    match w {
        AnyWidget::Frame(_) => None,
        AnyWidget::Layout(_) => None,
        AnyWidget::VBox(b) => Some((1u32, spec_max_req_w(b.children@) as u32)),
        AnyWidget::HBox(b) => Some((1u32, spec_max_req_h(b.children@) as u32)),
        AnyWidget::MarginBox(m) => spec_margin_requested_size(
            spec_opt_requested_size(m.child),
            m.top,
            m.bottom,
            m.left,
            m.right,
        ),
        AnyWidget::CenteringBox(_) => None,
        AnyWidget::Button(b) => spec_button_requested_size(spec_opt_requested_size(b.child)),
        AnyWidget::Empty(_) => None,
        AnyWidget::Label(l) => Some(l.text_size),
        AnyWidget::DrawingArea(_) => None,
        AnyWidget::HScrollBar(_) => Some(
            (
                sat_u32(2 * spec_theme_layout().size_scrollbar) as u32,
                spec_theme_layout().size_scrollbar,
            ),
        ),
    }
}

/// The size request of an optional child; `None` both without a child and
/// when the child states no preference.
pub open spec fn spec_opt_requested_size(c: Option<Box<AnyWidget>>) -> Option<(u32, u32)>
    decreases c, 0int,
{
    match c {
        Some(b) => spec_requested_size(*b),
        None => None,
    }
}

/// The largest requested height among packed children; children without a
/// preference do not contribute.
pub open spec fn spec_max_req_h(cs: Seq<(AnyWidget, bool)>) -> int
    decreases cs, 0int,
{
    if cs.len() == 0 {
        0
    } else {
        let m = spec_max_req_h(cs.drop_last());
        match spec_requested_size(cs.last().0) {
            Some(s) => if m < s.1 {
                s.1 as int
            } else {
                m
            },
            None => m,
        }
    }
}

/// The largest requested width among packed children.
pub open spec fn spec_max_req_w(cs: Seq<(AnyWidget, bool)>) -> int
    decreases cs, 0int,
{
    if cs.len() == 0 {
        0
    } else {
        let m = spec_max_req_w(cs.drop_last());
        match spec_requested_size(cs.last().0) {
            Some(s) => if m < s.0 {
                s.0 as int
            } else {
                m
            },
            None => m,
        }
    }
}

/// The requested width of one packed child, zero without a preference.
pub open spec fn spec_req_w(w: AnyWidget) -> int {
    match spec_requested_size(w) {
        Some(s) => s.0 as int,
        None => 0,
    }
}

/// The requested height of one packed child, zero without a preference.
pub open spec fn spec_req_h(w: AnyWidget) -> int {
    match spec_requested_size(w) {
        Some(s) => s.1 as int,
        None => 0,
    }
}

/// Sum of the children's requested widths.
pub open spec fn spec_sum_req_w(cs: Seq<(AnyWidget, bool)>) -> int
    decreases cs, 0int,
{
    if cs.len() == 0 {
        0
    } else {
        spec_sum_req_w(cs.drop_last()) + spec_req_w(cs.last().0)
    }
}

/// Sum of the children's requested heights.
pub open spec fn spec_sum_req_h(cs: Seq<(AnyWidget, bool)>) -> int
    decreases cs, 0int,
{
    if cs.len() == 0 {
        0
    } else {
        spec_sum_req_h(cs.drop_last()) + spec_req_h(cs.last().0)
    }
}

/// How many children carry the expand flag.
pub open spec fn spec_count_expand(cs: Seq<(AnyWidget, bool)>) -> int
    decreases cs.len(),
{
    if cs.len() == 0 {
        0
    } else {
        spec_count_expand(cs.drop_last()) + if cs.last().1 {
            1int
        } else {
            0int
        }
    }
}

/// A widget's state after being assigned a screen-space rectangle.
///
/// Single-child containers re-derive their child's rectangle immediately;
/// the packing boxes only mark their cached child positions stale, to be
/// recomputed on the next render; absolute layouts leave their children's
/// explicit rectangles untouched; a frame ignores the call.
pub open spec fn spec_alloc(w: AnyWidget, rect: Rect) -> AnyWidget
    decreases w, 1int,
{
    match w {
        AnyWidget::Frame(f) => AnyWidget::Frame(f),
        AnyWidget::Layout(l) => AnyWidget::Layout(Layout { rect: Some(rect), ..l }),
        AnyWidget::VBox(b) => AnyWidget::VBox(
            VBox { rect: Some(rect), box_updated: false, ..b },
        ),
        AnyWidget::HBox(b) => AnyWidget::HBox(
            HBox { rect: Some(rect), box_updated: false, ..b },
        ),
        AnyWidget::MarginBox(m) => AnyWidget::MarginBox(
            MarginBox {
                rect: Some(rect),
                child: spec_alloc_opt(
                    m.child,
                    spec_margin_child_rect(rect, m.top, m.bottom, m.left, m.right),
                ),
                ..m
            },
        ),
        AnyWidget::CenteringBox(c) => AnyWidget::CenteringBox(
            CenteringBox {
                rect: Some(rect),
                child: spec_alloc_opt(
                    c.child,
                    spec_center_child_rect(rect, spec_opt_requested_size(c.child)),
                ),
            },
        ),
        AnyWidget::Button(b) => AnyWidget::Button(
            Button {
                rect: Some(rect),
                child: spec_alloc_opt(b.child, spec_button_child_rect(rect)),
                ..b
            },
        ),
        AnyWidget::Empty(_) => AnyWidget::Empty(Empty { rect: Some(rect) }),
        AnyWidget::Label(l) => AnyWidget::Label(Label { rect: Some(rect), ..l }),
        AnyWidget::DrawingArea(d) => AnyWidget::DrawingArea(
            DrawingArea { rect: Some(rect), ..d },
        ),
        AnyWidget::HScrollBar(s) => AnyWidget::HScrollBar(
            crate::widgets::scrollbar::spec_sb_alloc(s, rect),
        ),
    }
}

/// Allocate an optional child its rectangle; no child, no change.
pub open spec fn spec_alloc_opt(c: Option<Box<AnyWidget>>, rect: Rect) -> Option<Box<AnyWidget>>
    decreases c, 0int,
{
    match c {
        Some(b) => Some(Box::new(spec_alloc(*b, rect))),
        None => None,
    }
}

/// The rectangle the widget was last allocated, if any. A frame is never
/// allocated one.
pub open spec fn spec_rect_of(w: AnyWidget) -> Option<Rect> {
    match w {
        AnyWidget::Frame(_) => None,
        AnyWidget::Layout(l) => l.rect,
        AnyWidget::VBox(b) => b.rect,
        AnyWidget::HBox(b) => b.rect,
        AnyWidget::MarginBox(m) => m.rect,
        AnyWidget::CenteringBox(c) => c.rect,
        AnyWidget::Button(b) => b.rect,
        AnyWidget::Empty(e) => e.rect,
        AnyWidget::Label(l) => l.rect,
        AnyWidget::DrawingArea(d) => d.rect,
        AnyWidget::HScrollBar(s) => s.rect,
    }
}

/// The rectangle actually in effect during a render step: a pending
/// allocation from the enclosing container wins over the stored one.
pub open spec fn spec_pend(pending: Option<Rect>, rect: Option<Rect>) -> Option<Rect> {
    match pending {
        Some(r) => Some(r),
        None => rect,
    }
}

/// Extra packing-axis extent granted to each expand-flagged child: the
/// leftover space divided evenly (the remainder is dropped); zero when the
/// children's requests already exceed the box or no child expands.
pub open spec fn spec_expand_extent(box_extent: u32, sum_req: int, n_expand: int) -> int {
    if (box_extent as int) < sum_req || n_expand == 0 {
        0
    } else {
        ((box_extent as int) - sum_req) / n_expand
    }
}

/// Width of horizontal-box child `i`: its request plus its expand share,
/// saturating at the extent range.
pub open spec fn spec_hbox_child_w(cs: Seq<(AnyWidget, bool)>, ew: int, i: int) -> int {
    sat_u32(spec_req_w(cs[i].0) + if cs[i].1 { ew } else { 0int })
}

/// Left edge of horizontal-box child `i`: the box origin plus the widths of
/// the children before it, saturating at the coordinate range.
pub open spec fn spec_hbox_child_x(cs: Seq<(AnyWidget, bool)>, ew: int, x0: int, i: int) -> int
    decreases i,
{
    if i <= 0 {
        x0
    } else {
        sat_i32(spec_hbox_child_x(cs, ew, x0, i - 1) + spec_hbox_child_w(cs, ew, i - 1))
    }
}

/// The rectangle a horizontal box assigns child `i` when recomputing
/// positions for box rectangle `br`: packed left to right, full box height.
pub open spec fn spec_hbox_child_rect(br: Rect, cs: Seq<(AnyWidget, bool)>, i: int) -> Rect {
    let ew = spec_expand_extent(br.w, spec_sum_req_w(cs), spec_count_expand(cs));
    Rect {
        x: spec_hbox_child_x(cs, ew, br.x as int, i) as i32,
        y: br.y,
        w: spec_hbox_child_w(cs, ew, i) as u32,
        h: br.h,
    }
}

/// Height of vertical-box child `i`.
pub open spec fn spec_vbox_child_h(cs: Seq<(AnyWidget, bool)>, ew: int, i: int) -> int {
    sat_u32(spec_req_h(cs[i].0) + if cs[i].1 { ew } else { 0int })
}

/// Top edge of vertical-box child `i`.
pub open spec fn spec_vbox_child_y(cs: Seq<(AnyWidget, bool)>, ew: int, y0: int, i: int) -> int
    decreases i,
{
    if i <= 0 {
        y0
    } else {
        sat_i32(spec_vbox_child_y(cs, ew, y0, i - 1) + spec_vbox_child_h(cs, ew, i - 1))
    }
}

/// The rectangle a vertical box assigns child `i`: packed top to bottom,
/// full box width.
pub open spec fn spec_vbox_child_rect(br: Rect, cs: Seq<(AnyWidget, bool)>, i: int) -> Rect {
    let ew = spec_expand_extent(br.h, spec_sum_req_h(cs), spec_count_expand(cs));
    Rect {
        x: br.x,
        y: spec_vbox_child_y(cs, ew, br.y as int, i) as i32,
        w: br.w,
        h: spec_vbox_child_h(cs, ew, i) as u32,
    }
}

/// Whether a packing box recomputes its children's positions during this
/// render: its cached positions are stale and it has a rectangle to lay
/// them out in.
pub open spec fn spec_box_runs_update(
    pending: Option<Rect>,
    rect: Option<Rect>,
    updated: bool,
) -> bool {
    let up2 = if pending is Some {
        false
    } else {
        updated
    };
    !up2 && spec_pend(pending, rect) is Some
}

/// The pending allocation a horizontal box hands child `i` during a render
/// step: the freshly computed position if the box recomputes, else nothing.
pub open spec fn spec_hbox_child_pending(
    pending: Option<Rect>,
    rect: Option<Rect>,
    updated: bool,
    cs: Seq<(AnyWidget, bool)>,
    i: int,
) -> Option<Rect> {
    if spec_box_runs_update(pending, rect, updated) {
        Some(spec_hbox_child_rect(spec_pend(pending, rect).unwrap(), cs, i))
    } else {
        None
    }
}

/// The pending allocation a vertical box hands child `i`.
pub open spec fn spec_vbox_child_pending(
    pending: Option<Rect>,
    rect: Option<Rect>,
    updated: bool,
    cs: Seq<(AnyWidget, bool)>,
    i: int,
) -> Option<Rect> {
    if spec_box_runs_update(pending, rect, updated) {
        Some(spec_vbox_child_rect(spec_pend(pending, rect).unwrap(), cs, i))
    } else {
        None
    }
}

/// The pending allocation a button hands its child.
pub open spec fn spec_button_child_pending(pending: Option<Rect>) -> Option<Rect> {
    match pending {
        Some(r) => Some(spec_button_child_rect(r)),
        None => None,
    }
}

/// The pending allocation a margin box hands its child.
pub open spec fn spec_margin_child_pending(pending: Option<Rect>, m: MarginBox) -> Option<Rect> {
    match pending {
        Some(r) => Some(spec_margin_child_rect(r, m.top, m.bottom, m.left, m.right)),
        None => None,
    }
}

/// The pending allocation a centering box hands its child.
pub open spec fn spec_center_child_pending(
    pending: Option<Rect>,
    child: Option<Box<AnyWidget>>,
) -> Option<Rect> {
    match pending {
        Some(r) => Some(spec_center_child_rect(r, spec_opt_requested_size(child))),
        None => None,
    }
}

/// Whether a render pass over the widget can run without hitting a missing
/// rectangle: every widget that draws either has a stored rectangle or is
/// about to be handed one. A frame is never rendered as a child.
pub open spec fn spec_renderable(w: AnyWidget, pending: Option<Rect>) -> bool
    decreases w, 1int,
{
    match w {
        AnyWidget::Frame(_) => false,
        AnyWidget::Empty(e) => spec_pend(pending, e.rect) is Some,
        AnyWidget::Label(l) => spec_pend(pending, l.rect) is Some,
        AnyWidget::DrawingArea(d) => spec_pend(pending, d.rect) is Some,
        AnyWidget::HScrollBar(s) => pending is Some || (s.rect is Some && s.left_arrow_box is Some
            && s.right_arrow_box is Some),
        AnyWidget::Button(b) => spec_pend(pending, b.rect) is Some && match b.child {
            Some(c) => spec_renderable(*c, spec_button_child_pending(pending)),
            None => true,
        },
        AnyWidget::MarginBox(m) => match m.child {
            Some(c) => spec_renderable(*c, spec_margin_child_pending(pending, m)),
            None => true,
        },
        AnyWidget::CenteringBox(cb) => match cb.child {
            Some(c) => spec_renderable(*c, spec_center_child_pending(pending, cb.child)),
            None => true,
        },
        AnyWidget::Layout(l) => spec_pend(pending, l.rect) is Some && forall|i: int|
            0 <= i < l.children@.len() ==> spec_renderable(#[trigger] l.children@[i], None),
        AnyWidget::HBox(b) => forall|i: int|
            0 <= i < b.children@.len() ==> spec_renderable(
                #[trigger] b.children@[i].0,
                spec_hbox_child_pending(pending, b.rect, b.box_updated, b.children@, i),
            ),
        AnyWidget::VBox(b) => forall|i: int|
            0 <= i < b.children@.len() ==> spec_renderable(
                #[trigger] b.children@[i].0,
                spec_vbox_child_pending(pending, b.rect, b.box_updated, b.children@, i),
            ),
    }
}

/// The drawing commands a render pass over the widget emits. `pending` is
/// the allocation the enclosing container is about to apply; `clip` is the
/// clip rectangle in effect, which widgets that change it restore.
pub open spec fn spec_render_cmds(
    w: AnyWidget,
    pending: Option<Rect>,
    clip: Option<Rect>,
) -> Seq<DrawCmd>
    decreases w, 1int,
{
    match w {
        AnyWidget::Frame(_) => Seq::empty(),
        AnyWidget::Empty(e) => seq![
            DrawCmd::FillRect(
                spec_pend(pending, e.rect).unwrap(),
                crate::widgets::empty::spec_empty_fill_color(),
            ),
        ],
        AnyWidget::Label(l) => seq![
            DrawCmd::Text(
                l.label_str,
                crate::widgets::label::spec_text_rect(
                    spec_pend(pending, l.rect).unwrap(),
                    l.text_size,
                ),
                crate::theme::spec_theme_color().text,
            ),
        ],
        AnyWidget::DrawingArea(d) => {
            let r = spec_pend(pending, d.rect).unwrap();
            let user: Seq<DrawCmd> = match d.draw_action {
                Some(a) => seq![DrawCmd::UserDraw(a)],
                None => Seq::empty(),
            };
            seq![
                DrawCmd::SetClip(Some(r)),
                DrawCmd::SetViewport(Some(r)),
                DrawCmd::Clear(crate::widgets::drawingarea::spec_drawingarea_clear_color()),
            ] + user + seq![DrawCmd::SetViewport(None::<Rect>), DrawCmd::SetClip(clip)]
        },
        AnyWidget::HScrollBar(s) => {
            let s2 = match pending {
                Some(r) => crate::widgets::scrollbar::spec_sb_alloc(s, r),
                None => s,
            };
            crate::widgets::scrollbar::spec_sb_face_cmds(s2)
        },
        AnyWidget::Button(b) => {
            let face = crate::widgets::button::spec_button_face_cmds(
                Button { rect: spec_pend(pending, b.rect), ..b },
            );
            match b.child {
                Some(c) => face + spec_render_cmds(*c, spec_button_child_pending(pending), clip),
                None => face,
            }
        },
        AnyWidget::MarginBox(m) => match m.child {
            Some(c) => spec_render_cmds(*c, spec_margin_child_pending(pending, m), clip),
            None => Seq::empty(),
        },
        AnyWidget::CenteringBox(cb) => match cb.child {
            Some(c) => spec_render_cmds(*c, spec_center_child_pending(pending, cb.child), clip),
            None => Seq::empty(),
        },
        AnyWidget::Layout(l) => seq![
            DrawCmd::FillRect(
                spec_pend(pending, l.rect).unwrap(),
                crate::theme::spec_theme_color().background,
            ),
        ] + spec_layout_cmds_upto(l.children@, clip, l.children@.len() as int),
        AnyWidget::HBox(b) => {
            let r2 = spec_pend(pending, b.rect);
            seq![DrawCmd::SetClip(r2)] + spec_hbox_cmds_upto(
                b.children@,
                pending,
                b.rect,
                b.box_updated,
                r2,
                b.children@.len() as int,
            ) + seq![DrawCmd::SetClip(clip)]
        },
        AnyWidget::VBox(b) => {
            let r2 = spec_pend(pending, b.rect);
            seq![DrawCmd::SetClip(r2)] + spec_vbox_cmds_upto(
                b.children@,
                pending,
                b.rect,
                b.box_updated,
                r2,
                b.children@.len() as int,
            ) + seq![DrawCmd::SetClip(clip)]
        },
    }
}

/// The commands of the first `n` children of an absolute layout.
pub open spec fn spec_layout_cmds_upto(cs: Seq<AnyWidget>, clip: Option<Rect>, n: int) -> Seq<
    DrawCmd,
>
    decreases cs, n,
{
    if n <= 0 || n > cs.len() {
        Seq::empty()
    } else {
        spec_layout_cmds_upto(cs, clip, n - 1) + spec_render_cmds(cs[n - 1], None::<Rect>, clip)
    }
}

/// The commands of the first `n` children of a horizontal box; the children
/// are clipped to the box's rectangle.
pub open spec fn spec_hbox_cmds_upto(
    cs: Seq<(AnyWidget, bool)>,
    pending: Option<Rect>,
    rect: Option<Rect>,
    updated: bool,
    clip2: Option<Rect>,
    n: int,
) -> Seq<DrawCmd>
    decreases cs, n,
{
    if n <= 0 || n > cs.len() {
        Seq::empty()
    } else {
        spec_hbox_cmds_upto(cs, pending, rect, updated, clip2, n - 1) + spec_render_cmds(
            cs[n - 1].0,
            spec_hbox_child_pending(pending, rect, updated, cs, n - 1),
            clip2,
        )
    }
}

/// The commands of the first `n` children of a vertical box.
pub open spec fn spec_vbox_cmds_upto(
    cs: Seq<(AnyWidget, bool)>,
    pending: Option<Rect>,
    rect: Option<Rect>,
    updated: bool,
    clip2: Option<Rect>,
    n: int,
) -> Seq<DrawCmd>
    decreases cs, n,
{
    if n <= 0 || n > cs.len() {
        Seq::empty()
    } else {
        spec_vbox_cmds_upto(cs, pending, rect, updated, clip2, n - 1) + spec_render_cmds(
            cs[n - 1].0,
            spec_vbox_child_pending(pending, rect, updated, cs, n - 1),
            clip2,
        )
    }
}

/// How a render pass transforms the widget's state: pending allocations are
/// applied, packing boxes with stale positions re-derive their children's
/// rectangles and mark themselves clean, and nothing else changes. Stated
/// as a relation because only the contents of a child vector are
/// determined, not its identity.
pub open spec fn spec_render_state(w: AnyWidget, pending: Option<Rect>, w2: AnyWidget) -> bool
    decreases w, 1int,
{
    match w {
        AnyWidget::Frame(f) => w2 == AnyWidget::Frame(f),
        AnyWidget::Empty(e) => w2 == AnyWidget::Empty(Empty { rect: spec_pend(pending, e.rect) }),
        AnyWidget::Label(l) => w2 == AnyWidget::Label(
            Label { rect: spec_pend(pending, l.rect), ..l },
        ),
        AnyWidget::DrawingArea(d) => w2 == AnyWidget::DrawingArea(
            DrawingArea { rect: spec_pend(pending, d.rect), ..d },
        ),
        AnyWidget::HScrollBar(s) => w2 == AnyWidget::HScrollBar(
            match pending {
                Some(r) => crate::widgets::scrollbar::spec_sb_alloc(s, r),
                None => s,
            },
        ),
        AnyWidget::Button(b) => {
            &&& w2 matches AnyWidget::Button(b2)
            &&& b2.rect == spec_pend(pending, b.rect)
            &&& b2.click_action == b.click_action
            &&& b2.state == b.state
            &&& match (b.child, b2.child) {
                (Some(c), Some(c2)) => spec_render_state(
                    *c,
                    spec_button_child_pending(pending),
                    *c2,
                ),
                (None, None) => true,
                _ => false,
            }
        },
        AnyWidget::MarginBox(m) => {
            &&& w2 matches AnyWidget::MarginBox(m2)
            &&& m2.rect == spec_pend(pending, m.rect)
            &&& m2.top == m.top && m2.bottom == m.bottom && m2.left == m.left && m2.right
                == m.right
            &&& match (m.child, m2.child) {
                (Some(c), Some(c2)) => spec_render_state(
                    *c,
                    spec_margin_child_pending(pending, m),
                    *c2,
                ),
                (None, None) => true,
                _ => false,
            }
        },
        AnyWidget::CenteringBox(cb) => {
            &&& w2 matches AnyWidget::CenteringBox(cb2)
            &&& cb2.rect == spec_pend(pending, cb.rect)
            &&& match (cb.child, cb2.child) {
                (Some(c), Some(c2)) => spec_render_state(
                    *c,
                    spec_center_child_pending(pending, cb.child),
                    *c2,
                ),
                (None, None) => true,
                _ => false,
            }
        },
        AnyWidget::Layout(l) => {
            &&& w2 matches AnyWidget::Layout(l2)
            &&& l2.rect == spec_pend(pending, l.rect)
            &&& l2.children@.len() == l.children@.len()
            &&& forall|i: int|
                0 <= i < l.children@.len() ==> spec_render_state(
                    #[trigger] l.children@[i],
                    None::<Rect>,
                    l2.children@[i],
                )
        },
        AnyWidget::HBox(b) => {
            let runs = spec_box_runs_update(pending, b.rect, b.box_updated);
            let up2 = if pending is Some {
                false
            } else {
                b.box_updated
            };
            &&& w2 matches AnyWidget::HBox(b2)
            &&& b2.rect == spec_pend(pending, b.rect)
            &&& b2.box_updated == (runs || up2)
            &&& b2.max_height as int == (if runs {
                spec_max_req_h(b.children@)
            } else {
                b.max_height as int
            })
            &&& b2.children@.len() == b.children@.len()
            &&& forall|i: int|
                0 <= i < b.children@.len() ==> b2.children@[i].1 == b.children@[i].1
                    && spec_render_state(
                    #[trigger] b.children@[i].0,
                    spec_hbox_child_pending(pending, b.rect, b.box_updated, b.children@, i),
                    b2.children@[i].0,
                )
        },
        AnyWidget::VBox(b) => {
            let runs = spec_box_runs_update(pending, b.rect, b.box_updated);
            let up2 = if pending is Some {
                false
            } else {
                b.box_updated
            };
            &&& w2 matches AnyWidget::VBox(b2)
            &&& b2.rect == spec_pend(pending, b.rect)
            &&& b2.box_updated == (runs || up2)
            &&& b2.max_width as int == (if runs {
                spec_max_req_w(b.children@)
            } else {
                b.max_width as int
            })
            &&& b2.children@.len() == b.children@.len()
            &&& forall|i: int|
                0 <= i < b.children@.len() ==> b2.children@[i].1 == b.children@[i].1
                    && spec_render_state(
                    #[trigger] b.children@[i].0,
                    spec_vbox_child_pending(pending, b.rect, b.box_updated, b.children@, i),
                    b2.children@[i].0,
                )
        },
    }
}

/// Whether dispatching the event can run without hitting a missing
/// rectangle: a button needs its rectangle for a left press, and a
/// scrollbar reads its arrow hit-boxes for every event.
pub open spec fn spec_can_handle(w: AnyWidget, e: Event) -> bool
    decreases w, 1int,
{
    match w {
        AnyWidget::Frame(f) => match f.child {
            Some(c) => spec_can_handle(*c, e),
            None => true,
        },
        AnyWidget::Layout(l) => forall|i: int|
            0 <= i < l.children@.len() ==> spec_can_handle(#[trigger] l.children@[i], e),
        AnyWidget::HBox(b) => forall|i: int|
            0 <= i < b.children@.len() ==> spec_can_handle(#[trigger] b.children@[i].0, e),
        AnyWidget::VBox(b) => forall|i: int|
            0 <= i < b.children@.len() ==> spec_can_handle(#[trigger] b.children@[i].0, e),
        AnyWidget::MarginBox(m) => match m.child {
            Some(c) => spec_can_handle(*c, e),
            None => true,
        },
        AnyWidget::CenteringBox(cb) => match cb.child {
            Some(c) => spec_can_handle(*c, e),
            None => true,
        },
        AnyWidget::Button(b) => (e matches Event::ButtonDown(_, MouseButton::Left)) ==> b.rect
            is Some,
        AnyWidget::HScrollBar(s) => s.left_arrow_box is Some && s.right_arrow_box is Some && ((
        e matches Event::ButtonDown(_, MouseButton::Left)) ==> s.rect is Some),
        AnyWidget::Empty(_) => true,
        AnyWidget::Label(_) => true,
        AnyWidget::DrawingArea(_) => true,
    }
}

/// The signals dispatching the event emits, in dispatch order. Containers
/// forward the event to every child in insertion order; only buttons and
/// scrollbars react themselves.
pub open spec fn spec_handle_sigs(w: AnyWidget, e: Event) -> Seq<Signal>
    decreases w, 1int,
{
    match w {
        AnyWidget::Frame(f) => match f.child {
            Some(c) => spec_handle_sigs(*c, e),
            None => Seq::empty(),
        },
        AnyWidget::Layout(l) => spec_layout_sigs_upto(l.children@, e, l.children@.len() as int),
        AnyWidget::HBox(b) => spec_children_sigs_upto(b.children@, e, b.children@.len() as int),
        AnyWidget::VBox(b) => spec_children_sigs_upto(b.children@, e, b.children@.len() as int),
        AnyWidget::MarginBox(m) => match m.child {
            Some(c) => spec_handle_sigs(*c, e),
            None => Seq::empty(),
        },
        AnyWidget::CenteringBox(cb) => match cb.child {
            Some(c) => spec_handle_sigs(*c, e),
            None => Seq::empty(),
        },
        AnyWidget::Button(b) => crate::widgets::button::spec_button_handle(b, e).1,
        AnyWidget::HScrollBar(s) => crate::widgets::scrollbar::spec_sb_handle(s, e).1,
        AnyWidget::Empty(_) => Seq::empty(),
        AnyWidget::Label(_) => Seq::empty(),
        AnyWidget::DrawingArea(_) => Seq::empty(),
    }
}

/// The signals of the first `n` children of a packing box.
pub open spec fn spec_children_sigs_upto(cs: Seq<(AnyWidget, bool)>, e: Event, n: int) -> Seq<
    Signal,
>
    decreases cs, n,
{
    if n <= 0 || n > cs.len() {
        Seq::empty()
    } else {
        spec_children_sigs_upto(cs, e, n - 1) + spec_handle_sigs(cs[n - 1].0, e)
    }
}

/// The signals of the first `n` children of an absolute layout.
pub open spec fn spec_layout_sigs_upto(cs: Seq<AnyWidget>, e: Event, n: int) -> Seq<Signal>
    decreases cs, n,
{
    if n <= 0 || n > cs.len() {
        Seq::empty()
    } else {
        spec_layout_sigs_upto(cs, e, n - 1) + spec_handle_sigs(cs[n - 1], e)
    }
}

/// How dispatching the event transforms the widget's state: the button and
/// scrollbar state machines step, everything else is unchanged apart from
/// its children. Stated as a relation because only the contents of a child
/// vector are determined, not its identity.
pub open spec fn spec_handle_state(w: AnyWidget, e: Event, w2: AnyWidget) -> bool
    decreases w, 1int,
{
    match w {
        AnyWidget::Frame(f) => {
            &&& w2 matches AnyWidget::Frame(f2)
            &&& f2.title == f.title
            &&& f2.window_size == f.window_size
            &&& f2.resizable == f.resizable
            &&& match (f.child, f2.child) {
                (Some(c), Some(c2)) => spec_handle_state(*c, e, *c2),
                (None, None) => true,
                _ => false,
            }
        },
        AnyWidget::Layout(l) => {
            &&& w2 matches AnyWidget::Layout(l2)
            &&& l2.rect == l.rect
            &&& l2.children@.len() == l.children@.len()
            &&& forall|i: int|
                0 <= i < l.children@.len() ==> spec_handle_state(
                    #[trigger] l.children@[i],
                    e,
                    l2.children@[i],
                )
        },
        AnyWidget::HBox(b) => {
            &&& w2 matches AnyWidget::HBox(b2)
            &&& b2.rect == b.rect
            &&& b2.max_height == b.max_height
            &&& b2.box_updated == b.box_updated
            &&& b2.children@.len() == b.children@.len()
            &&& forall|i: int|
                0 <= i < b.children@.len() ==> b2.children@[i].1 == b.children@[i].1
                    && spec_handle_state(#[trigger] b.children@[i].0, e, b2.children@[i].0)
        },
        AnyWidget::VBox(b) => {
            &&& w2 matches AnyWidget::VBox(b2)
            &&& b2.rect == b.rect
            &&& b2.max_width == b.max_width
            &&& b2.box_updated == b.box_updated
            &&& b2.children@.len() == b.children@.len()
            &&& forall|i: int|
                0 <= i < b.children@.len() ==> b2.children@[i].1 == b.children@[i].1
                    && spec_handle_state(#[trigger] b.children@[i].0, e, b2.children@[i].0)
        },
        AnyWidget::MarginBox(m) => {
            &&& w2 matches AnyWidget::MarginBox(m2)
            &&& m2.rect == m.rect
            &&& m2.top == m.top && m2.bottom == m.bottom && m2.left == m.left && m2.right
                == m.right
            &&& match (m.child, m2.child) {
                (Some(c), Some(c2)) => spec_handle_state(*c, e, *c2),
                (None, None) => true,
                _ => false,
            }
        },
        AnyWidget::CenteringBox(cb) => {
            &&& w2 matches AnyWidget::CenteringBox(cb2)
            &&& cb2.rect == cb.rect
            &&& match (cb.child, cb2.child) {
                (Some(c), Some(c2)) => spec_handle_state(*c, e, *c2),
                (None, None) => true,
                _ => false,
            }
        },
        AnyWidget::Button(b) => w2 == AnyWidget::Button(
            crate::widgets::button::spec_button_handle(b, e).0,
        ),
        AnyWidget::HScrollBar(s) => w2 == AnyWidget::HScrollBar(
            crate::widgets::scrollbar::spec_sb_handle(s, e).0,
        ),
        AnyWidget::Empty(e2) => w2 == AnyWidget::Empty(e2),
        AnyWidget::Label(l) => w2 == AnyWidget::Label(l),
        AnyWidget::DrawingArea(d) => w2 == AnyWidget::DrawingArea(d),
    }
}

/// A packed child is structurally smaller than the horizontal box holding
/// it; justifies recursing into box children.
proof fn lemma_hbox_child_decreases(w: AnyWidget, i: int)
    requires
        w is HBox,
        0 <= i < w->HBox_0.children@.len(),
    ensures
        decreases_to!(w => w->HBox_0.children@[i].0),
{
    assert(decreases_to!(w => w->HBox_0));
    assert(decreases_to!(w->HBox_0 => w->HBox_0.children));
    assert(decreases_to!(w->HBox_0.children => w->HBox_0.children@));
    assert(decreases_to!(w->HBox_0.children@ => w->HBox_0.children@[i]));
    assert(decreases_to!(w->HBox_0.children@[i] => w->HBox_0.children@[i].0));
}

/// A packed child is structurally smaller than the vertical box holding it.
proof fn lemma_vbox_child_decreases(w: AnyWidget, i: int)
    requires
        w is VBox,
        0 <= i < w->VBox_0.children@.len(),
    ensures
        decreases_to!(w => w->VBox_0.children@[i].0),
{
    assert(decreases_to!(w => w->VBox_0));
    assert(decreases_to!(w->VBox_0 => w->VBox_0.children));
    assert(decreases_to!(w->VBox_0.children => w->VBox_0.children@));
    assert(decreases_to!(w->VBox_0.children@ => w->VBox_0.children@[i]));
    assert(decreases_to!(w->VBox_0.children@[i] => w->VBox_0.children@[i].0));
}

/// An absolutely placed child is structurally smaller than the layout
/// container holding it.
proof fn lemma_layout_child_decreases(w: AnyWidget, i: int)
    requires
        w is Layout,
        0 <= i < w->Layout_0.children@.len(),
    ensures
        decreases_to!(w => w->Layout_0.children@[i]),
{
    assert(decreases_to!(w => w->Layout_0));
    assert(decreases_to!(w->Layout_0 => w->Layout_0.children));
    assert(decreases_to!(w->Layout_0.children => w->Layout_0.children@));
    assert(decreases_to!(w->Layout_0.children@ => w->Layout_0.children@[i]));
}

/// An absolutely placed child is structurally smaller than the layout value
/// holding it.
proof fn lemma_layout_elem_decreases(l: Layout, i: int)
    requires
        0 <= i < l.children@.len(),
    ensures
        decreases_to!(l => l.children@[i]),
{
    assert(decreases_to!(l => l.children));
    assert(decreases_to!(l.children => l.children@));
    assert(decreases_to!(l.children@ => l.children@[i]));
}

/// A packed child is structurally smaller than the child vector holding it.
proof fn lemma_children_elem_decreases(cs: Vec<(AnyWidget, bool)>, i: int)
    requires
        0 <= i < cs@.len(),
    ensures
        decreases_to!(cs => cs@[i].0),
{
    assert(decreases_to!(cs => cs@));
    assert(decreases_to!(cs@ => cs@[i]));
    assert(decreases_to!(cs@[i] => cs@[i].0));
}

/// An absolutely placed child is structurally smaller than the child vector
/// holding it.
proof fn lemma_layout_vec_elem_decreases(cs: Vec<AnyWidget>, i: int)
    requires
        0 <= i < cs@.len(),
    ensures
        decreases_to!(cs => cs@[i]),
{
    assert(decreases_to!(cs => cs@));
    assert(decreases_to!(cs@ => cs@[i]));
}

/// Whether a widget can be rendered depends only on whether an allocation
/// is pending, never on which rectangle it carries.
proof fn lemma_renderable_pending_irrelevant(w: AnyWidget, r1: Rect, r2: Rect)
    ensures
        spec_renderable(w, Some(r1)) == spec_renderable(w, Some(r2)),
    decreases w,
{
    match w {
        AnyWidget::Button(b) => {
            match b.child {
                Some(c) => {
                    lemma_renderable_pending_irrelevant(
                        *c,
                        spec_button_child_rect(r1),
                        spec_button_child_rect(r2),
                    );
                },
                None => {},
            }
        },
        AnyWidget::MarginBox(m) => {
            match m.child {
                Some(c) => {
                    lemma_renderable_pending_irrelevant(
                        *c,
                        spec_margin_child_rect(r1, m.top, m.bottom, m.left, m.right),
                        spec_margin_child_rect(r2, m.top, m.bottom, m.left, m.right),
                    );
                },
                None => {},
            }
        },
        AnyWidget::CenteringBox(cb) => {
            match cb.child {
                Some(c) => {
                    lemma_renderable_pending_irrelevant(
                        *c,
                        spec_center_child_rect(r1, spec_opt_requested_size(cb.child)),
                        spec_center_child_rect(r2, spec_opt_requested_size(cb.child)),
                    );
                },
                None => {},
            }
        },
        AnyWidget::HBox(b) => {
            assert forall|i: int| 0 <= i < b.children@.len() implies spec_renderable(
                #[trigger] b.children@[i].0,
                spec_hbox_child_pending(Some(r1), b.rect, b.box_updated, b.children@, i),
            ) == spec_renderable(
                b.children@[i].0,
                spec_hbox_child_pending(Some(r2), b.rect, b.box_updated, b.children@, i),
            ) by {
                lemma_hbox_child_decreases(w, i);
                lemma_renderable_pending_irrelevant(
                    b.children@[i].0,
                    spec_hbox_child_rect(r1, b.children@, i),
                    spec_hbox_child_rect(r2, b.children@, i),
                );
            }
        },
        AnyWidget::VBox(b) => {
            assert forall|i: int| 0 <= i < b.children@.len() implies spec_renderable(
                #[trigger] b.children@[i].0,
                spec_vbox_child_pending(Some(r1), b.rect, b.box_updated, b.children@, i),
            ) == spec_renderable(
                b.children@[i].0,
                spec_vbox_child_pending(Some(r2), b.rect, b.box_updated, b.children@, i),
            ) by {
                lemma_vbox_child_decreases(w, i);
                lemma_renderable_pending_irrelevant(
                    b.children@[i].0,
                    spec_vbox_child_rect(r1, b.children@, i),
                    spec_vbox_child_rect(r2, b.children@, i),
                );
            }
        },
        _ => {},
    }
}

impl AnyWidget {
    /// The rectangle the widget was last allocated, if any.
    pub fn rect_of(&self) -> (r: Option<Rect>)
        ensures
            r == spec_rect_of(*self),
    {
        match self {
            AnyWidget::Frame(_) => None,
            AnyWidget::Layout(l) => l.rect,
            AnyWidget::VBox(b) => b.rect,
            AnyWidget::HBox(b) => b.rect,
            AnyWidget::MarginBox(m) => m.rect,
            AnyWidget::CenteringBox(c) => c.rect,
            AnyWidget::Button(b) => b.rect,
            AnyWidget::Empty(e) => e.rect,
            AnyWidget::Label(l) => l.rect,
            AnyWidget::DrawingArea(d) => d.rect,
            AnyWidget::HScrollBar(s) => s.rect,
        }
    }

    /// Whether a render pass can run: the executable mirror of
    /// `spec_renderable`, so callers can test the render precondition.
    pub fn is_renderable(&self, pending: Option<Rect>) -> (r: bool)
        ensures
            r == spec_renderable(*self, pending),
        decreases *self, 1int,
    {
        match self {
            AnyWidget::Frame(_) => false,
            AnyWidget::Empty(e) => pending.is_some() || e.rect.is_some(),
            AnyWidget::Label(l) => pending.is_some() || l.rect.is_some(),
            AnyWidget::DrawingArea(d) => pending.is_some() || d.rect.is_some(),
            AnyWidget::HScrollBar(s) => pending.is_some() || (s.rect.is_some()
                && s.left_arrow_box.is_some() && s.right_arrow_box.is_some()),
            AnyWidget::Button(b) => {
                let have = pending.is_some() || b.rect.is_some();
                have && match &b.child {
                    Some(c) => {
                        let cpend: Option<Rect> = match pending {
                            Some(p) => Some(Button::child_rect(p)),
                            None => None,
                        };
                        c.is_renderable(cpend)
                    },
                    None => true,
                }
            },
            AnyWidget::MarginBox(m) => match &m.child {
                Some(c) => {
                    let cpend: Option<Rect> = match pending {
                        Some(p) => Some(m.child_rect(p)),
                        None => None,
                    };
                    c.is_renderable(cpend)
                },
                None => true,
            },
            AnyWidget::CenteringBox(cb) => match &cb.child {
                Some(c) => {
                    let cpend: Option<Rect> = match pending {
                        Some(p) => {
                            let rq = c.requested_size();
                            Some(
                                match rq {
                                    Some(s) => Rect::from_center(p.center(), s.0, s.1),
                                    None => p,
                                },
                            )
                        },
                        None => None,
                    };
                    c.is_renderable(cpend)
                },
                None => true,
            },
            AnyWidget::Layout(l) => {
                let have = pending.is_some() || l.rect.is_some();
                if !have {
                    false
                } else {
                    let mut i: usize = 0;
                    let mut ok = true;
                    while i < l.children.len()
                        invariant
                            *self == AnyWidget::Layout(*l),
                            i <= l.children@.len(),
                            ok == forall|j: int|
                                0 <= j < i ==> spec_renderable(
                                    #[trigger] l.children@[j],
                                    None::<Rect>,
                                ),
                        decreases l.children@.len() - i,
                    {
                        proof {
                            lemma_layout_child_decreases(*self, i as int);
                        }
                        if !l.children[i].is_renderable(None) {
                            ok = false;
                        }
                        i += 1;
                    }
                    ok
                }
            },
            AnyWidget::HBox(b) => {
                let runs: bool = match pending {
                    Some(_) => true,
                    None => !b.box_updated && b.rect.is_some(),
                };
                let cpend: Option<Rect> = if runs {
                    Some(Rect { x: 0, y: 0, w: 0, h: 0 })
                } else {
                    None
                };
                let mut i: usize = 0;
                let mut ok = true;
                while i < b.children.len()
                    invariant
                        *self == AnyWidget::HBox(*b),
                        runs == spec_box_runs_update(pending, b.rect, b.box_updated),
                        cpend is Some <==> runs,
                        i <= b.children@.len(),
                        ok == forall|j: int|
                            0 <= j < i ==> spec_renderable(
                                #[trigger] b.children@[j].0,
                                spec_hbox_child_pending(
                                    pending,
                                    b.rect,
                                    b.box_updated,
                                    b.children@,
                                    j,
                                ),
                            ),
                    decreases b.children@.len() - i,
                {
                    proof {
                        lemma_hbox_child_decreases(*self, i as int);
                    }
                    let child_ok = b.children[i].0.is_renderable(cpend);
                    proof {
                        if runs {
                            lemma_renderable_pending_irrelevant(
                                b.children@[i as int].0,
                                cpend->0,
                                spec_hbox_child_rect(
                                    spec_pend(pending, b.rect).unwrap(),
                                    b.children@,
                                    i as int,
                                ),
                            );
                        }
                    }
                    if !child_ok {
                        ok = false;
                    }
                    i += 1;
                }
                ok
            },
            AnyWidget::VBox(b) => {
                let runs: bool = match pending {
                    Some(_) => true,
                    None => !b.box_updated && b.rect.is_some(),
                };
                let cpend: Option<Rect> = if runs {
                    Some(Rect { x: 0, y: 0, w: 0, h: 0 })
                } else {
                    None
                };
                let mut i: usize = 0;
                let mut ok = true;
                while i < b.children.len()
                    invariant
                        *self == AnyWidget::VBox(*b),
                        runs == spec_box_runs_update(pending, b.rect, b.box_updated),
                        cpend is Some <==> runs,
                        i <= b.children@.len(),
                        ok == forall|j: int|
                            0 <= j < i ==> spec_renderable(
                                #[trigger] b.children@[j].0,
                                spec_vbox_child_pending(
                                    pending,
                                    b.rect,
                                    b.box_updated,
                                    b.children@,
                                    j,
                                ),
                            ),
                    decreases b.children@.len() - i,
                {
                    proof {
                        lemma_vbox_child_decreases(*self, i as int);
                    }
                    let child_ok = b.children[i].0.is_renderable(cpend);
                    proof {
                        if runs {
                            lemma_renderable_pending_irrelevant(
                                b.children@[i as int].0,
                                cpend->0,
                                spec_vbox_child_rect(
                                    spec_pend(pending, b.rect).unwrap(),
                                    b.children@,
                                    i as int,
                                ),
                            );
                        }
                    }
                    if !child_ok {
                        ok = false;
                    }
                    i += 1;
                }
                ok
            },
        }
    }

    /// Whether the event can be dispatched: the executable mirror of
    /// `spec_can_handle`, so callers can test the dispatch precondition.
    pub fn can_handle_event(&self, event: &Event) -> (r: bool)
        ensures
            r == spec_can_handle(*self, *event),
        decreases *self, 1int,
    {
        match self {
            AnyWidget::Frame(f) => match &f.child {
                Some(c) => c.can_handle_event(event),
                None => true,
            },
            AnyWidget::Empty(_) => true,
            AnyWidget::Label(_) => true,
            AnyWidget::DrawingArea(_) => true,
            AnyWidget::Button(b) => match event {
                Event::ButtonDown(_, btn) => {
                    if *btn == MouseButton::Left {
                        b.rect.is_some()
                    } else {
                        true
                    }
                },
                _ => true,
            },
            AnyWidget::HScrollBar(s) => {
                let arrows = s.left_arrow_box.is_some() && s.right_arrow_box.is_some();
                arrows && match event {
                    Event::ButtonDown(_, btn) => {
                        if *btn == MouseButton::Left {
                            s.rect.is_some()
                        } else {
                            true
                        }
                    },
                    _ => true,
                }
            },
            AnyWidget::MarginBox(m) => match &m.child {
                Some(c) => c.can_handle_event(event),
                None => true,
            },
            AnyWidget::CenteringBox(cb) => match &cb.child {
                Some(c) => c.can_handle_event(event),
                None => true,
            },
            AnyWidget::Layout(l) => {
                let mut i: usize = 0;
                let mut ok = true;
                while i < l.children.len()
                    invariant
                        *self == AnyWidget::Layout(*l),
                        i <= l.children@.len(),
                        ok == forall|j: int|
                            0 <= j < i ==> spec_can_handle(#[trigger] l.children@[j], *event),
                    decreases l.children@.len() - i,
                {
                    proof {
                        lemma_layout_child_decreases(*self, i as int);
                    }
                    if !l.children[i].can_handle_event(event) {
                        ok = false;
                    }
                    i += 1;
                }
                ok
            },
            AnyWidget::HBox(b) => {
                let mut i: usize = 0;
                let mut ok = true;
                while i < b.children.len()
                    invariant
                        *self == AnyWidget::HBox(*b),
                        i <= b.children@.len(),
                        ok == forall|j: int|
                            0 <= j < i ==> spec_can_handle(#[trigger] b.children@[j].0, *event),
                    decreases b.children@.len() - i,
                {
                    proof {
                        lemma_hbox_child_decreases(*self, i as int);
                    }
                    if !b.children[i].0.can_handle_event(event) {
                        ok = false;
                    }
                    i += 1;
                }
                ok
            },
            AnyWidget::VBox(b) => {
                let mut i: usize = 0;
                let mut ok = true;
                while i < b.children.len()
                    invariant
                        *self == AnyWidget::VBox(*b),
                        i <= b.children@.len(),
                        ok == forall|j: int|
                            0 <= j < i ==> spec_can_handle(#[trigger] b.children@[j].0, *event),
                    decreases b.children@.len() - i,
                {
                    proof {
                        lemma_vbox_child_decreases(*self, i as int);
                    }
                    if !b.children[i].0.can_handle_event(event) {
                        ok = false;
                    }
                    i += 1;
                }
                ok
            },
        }
    }

    /// The widget's advisory natural size; `None` means no preference —
    /// expand to fill. A pure query: nothing is mutated.
    pub fn requested_size(&self) -> (r: Option<(u32, u32)>)
        ensures
            r == spec_requested_size(*self),
        decreases *self, 1int,
    {
        match self {
            AnyWidget::Frame(_) => None,
            AnyWidget::Layout(_) => None,
            AnyWidget::VBox(b) => {
                let mut max_w: u32 = 0;
                let mut i: usize = 0;
                while i < b.children.len()
                    invariant
                        *self == AnyWidget::VBox(*b),
                        i <= b.children@.len(),
                        max_w == spec_max_req_w(b.children@.subrange(0, i as int)),
                    decreases b.children@.len() - i,
                {
                    let c = &b.children[i];
                    proof {
                        lemma_vbox_child_decreases(*self, i as int);
                    }
                    match c.0.requested_size() {
                        Some(s) => {
                            if max_w < s.0 {
                                max_w = s.0;
                            }
                        },
                        None => {},
                    }
                    proof {
                        assert(b.children@.subrange(0, i + 1 as int).drop_last() =~= b.children@
                            .subrange(0, i as int));
                        assert(b.children@.subrange(0, i + 1 as int).last() == b.children@[
                            i as int
                        ]);
                    }
                    i += 1;
                }
                proof {
                    assert(b.children@.subrange(0, b.children@.len() as int) =~= b.children@);
                }
                Some((1, max_w))
            },
            AnyWidget::HBox(b) => {
                let mut max_h: u32 = 0;
                let mut i: usize = 0;
                while i < b.children.len()
                    invariant
                        *self == AnyWidget::HBox(*b),
                        i <= b.children@.len(),
                        max_h == spec_max_req_h(b.children@.subrange(0, i as int)),
                    decreases b.children@.len() - i,
                {
                    let c = &b.children[i];
                    proof {
                        lemma_hbox_child_decreases(*self, i as int);
                    }
                    match c.0.requested_size() {
                        Some(s) => {
                            if max_h < s.1 {
                                max_h = s.1;
                            }
                        },
                        None => {},
                    }
                    proof {
                        assert(b.children@.subrange(0, i + 1 as int).drop_last() =~= b.children@
                            .subrange(0, i as int));
                        assert(b.children@.subrange(0, i + 1 as int).last() == b.children@[
                            i as int
                        ]);
                    }
                    i += 1;
                }
                proof {
                    assert(b.children@.subrange(0, b.children@.len() as int) =~= b.children@);
                }
                Some((1, max_h))
            },
            AnyWidget::MarginBox(m) => {
                let child_req = match &m.child {
                    Some(c) => c.requested_size(),
                    None => None,
                };
                let w = crate::geometry::extent_add(
                    match child_req {
                        Some(s) => s.0,
                        None => 0,
                    },
                    crate::geometry::extent_add(m.left, m.right),
                );
                let h = crate::geometry::extent_add(
                    match child_req {
                        Some(s) => s.1,
                        None => 0,
                    },
                    crate::geometry::extent_add(m.top, m.bottom),
                );
                Some((w, h))
            },
            AnyWidget::CenteringBox(_) => None,
            AnyWidget::Button(b) => {
                let child_req = match &b.child {
                    Some(c) => c.requested_size(),
                    None => None,
                };
                match child_req {
                    Some(s) => Some(
                        (
                            crate::geometry::extent_add(s.0, 2 * crate::widgets::button::PADDING_SIZE),
                            crate::geometry::extent_add(s.1, 2 * crate::widgets::button::PADDING_SIZE),
                        ),
                    ),
                    None => Some(
                        (
                            2 * crate::widgets::button::PADDING_SIZE,
                            2 * crate::widgets::button::PADDING_SIZE,
                        ),
                    ),
                }
            },
            AnyWidget::Empty(_) => None,
            AnyWidget::Label(l) => Some(l.text_size),
            AnyWidget::DrawingArea(_) => None,
            AnyWidget::HScrollBar(_) => {
                let bar = crate::theme::get_theme_layout().size_scrollbar;
                Some((crate::geometry::extent_add(bar, bar), bar))
            },
        }
    }

    /// Paint the widget and its children into `out`, applying any lazily
    /// deferred layout first. `clip` is the clip rectangle currently in
    /// effect; widgets that change it restore it afterwards. The only state
    /// the pass changes is the layout cache: assigned rectangles and the
    /// boxes' dirty flags.
    pub fn render(&mut self, clip: Option<Rect>, out: &mut Vec<DrawCmd>)
        requires
            spec_renderable(*old(self), None::<Rect>),
        ensures
            spec_render_state(*old(self), None::<Rect>, *final(self)),
            final(out)@ == old(out)@ + spec_render_cmds(*old(self), None::<Rect>, clip),
    {
        let mut tmp = AnyWidget::Empty(Empty::new());
        core::mem::swap(self, &mut tmp);
        tmp = Self::render_with(tmp, None, clip, out);
        core::mem::swap(self, &mut tmp);
    }

    /// Rendering, by value; `pending` is an allocation the enclosing
    /// container applies on the way down.
    pub(crate) fn render_with(
        w: AnyWidget,
        pending: Option<Rect>,
        clip: Option<Rect>,
        out: &mut Vec<DrawCmd>,
    ) -> (r: AnyWidget)
        requires
            spec_renderable(w, pending),
        ensures
            spec_render_state(w, pending, r),
            final(out)@ == old(out)@ + spec_render_cmds(w, pending, clip),
        decreases w, 1int,
    {
        let ghost w0 = w;
        match w {
            AnyWidget::Frame(f) => {
                proof {
                    assert(false);
                }
                AnyWidget::Frame(f)
            },
            AnyWidget::Empty(e) => {
                let r = match pending {
                    Some(p) => p,
                    None => e.rect.unwrap(),
                };
                out.push(DrawCmd::FillRect(r, crate::theme::Color { r: 0, g: 0, b: 0xFF }));
                proof {
                    assert(out@ =~= old(out)@ + spec_render_cmds(w0, pending, clip));
                }
                AnyWidget::Empty(Empty { rect: Some(r) })
            },
            AnyWidget::Label(mut l) => {
                let r = match pending {
                    Some(p) => p,
                    None => l.rect.unwrap(),
                };
                let trect = l.text_rect(r);
                out.push(DrawCmd::Text(l.label_str.clone(), trect, crate::theme::get_text_color()));
                l.rect = Some(r);
                proof {
                    assert(out@ =~= old(out)@ + spec_render_cmds(w0, pending, clip));
                }
                AnyWidget::Label(l)
            },
            AnyWidget::DrawingArea(mut d) => {
                let r = match pending {
                    Some(p) => p,
                    None => d.rect.unwrap(),
                };
                out.push(DrawCmd::SetClip(Some(r)));
                out.push(DrawCmd::SetViewport(Some(r)));
                out.push(DrawCmd::Clear(crate::theme::Color { r: 0xFF, g: 0xFF, b: 0xFF }));
                match d.draw_action {
                    Some(a) => out.push(DrawCmd::UserDraw(a)),
                    None => {},
                }
                out.push(DrawCmd::SetViewport(None));
                out.push(DrawCmd::SetClip(clip));
                d.rect = Some(r);
                proof {
                    assert(out@ =~= old(out)@ + spec_render_cmds(w0, pending, clip));
                }
                AnyWidget::DrawingArea(d)
            },
            AnyWidget::HScrollBar(mut s) => {
                match pending {
                    Some(p) => s.sb_alloc(p),
                    None => {},
                }
                s.push_face_cmds(out);
                proof {
                    assert(out@ =~= old(out)@ + spec_render_cmds(w0, pending, clip));
                }
                AnyWidget::HScrollBar(s)
            },
            AnyWidget::Button(b) => {
                let Button { rect, child, click_action, state } = b;
                let r2 = match pending {
                    Some(p) => Some(p),
                    None => rect,
                };
                let face = Button { rect: r2, child: None, click_action, state };
                face.push_face_cmds(out);
                proof {
                    assert(crate::widgets::button::spec_button_face_cmds(face)
                        =~= crate::widgets::button::spec_button_face_cmds(
                        Button { rect: r2, child: w0->Button_0.child, click_action, state },
                    ));
                }
                let child2 = match child {
                    Some(c) => {
                        let cpend = match pending {
                            Some(p) => Some(Button::child_rect(p)),
                            None => None,
                        };
                        Some(Box::new(Self::render_with(*c, cpend, clip, out)))
                    },
                    None => None,
                };
                proof {
                    assert(out@ =~= old(out)@ + spec_render_cmds(w0, pending, clip));
                }
                AnyWidget::Button(Button { rect: r2, child: child2, click_action, state })
            },
            AnyWidget::MarginBox(m) => {
                let MarginBox { rect, child, top, bottom, left, right } = m;
                let r2 = match pending {
                    Some(p) => Some(p),
                    None => rect,
                };
                let frame = MarginBox { rect: r2, child: None, top, bottom, left, right };
                let child2 = match child {
                    Some(c) => {
                        let cpend = match pending {
                            Some(p) => Some(frame.child_rect(p)),
                            None => None,
                        };
                        Some(Box::new(Self::render_with(*c, cpend, clip, out)))
                    },
                    None => {
                        proof {
                            assert(out@ =~= old(out)@ + spec_render_cmds(w0, pending, clip));
                        }
                        None
                    },
                };
                AnyWidget::MarginBox(
                    MarginBox { rect: r2, child: child2, top, bottom, left, right },
                )
            },
            AnyWidget::CenteringBox(cb) => {
                let CenteringBox { rect, child } = cb;
                let r2 = match pending {
                    Some(p) => Some(p),
                    None => rect,
                };
                let child2 = match child {
                    Some(c) => {
                        let cpend = match pending {
                            Some(p) => {
                                let rq = c.requested_size();
                                Some(
                                    match rq {
                                        Some(s) => Rect::from_center(p.center(), s.0, s.1),
                                        None => p,
                                    },
                                )
                            },
                            None => None,
                        };
                        Some(Box::new(Self::render_with(*c, cpend, clip, out)))
                    },
                    None => {
                        proof {
                            assert(out@ =~= old(out)@ + spec_render_cmds(w0, pending, clip));
                        }
                        None
                    },
                };
                AnyWidget::CenteringBox(CenteringBox { rect: r2, child: child2 })
            },
            AnyWidget::Layout(l) => {
                let r = Self::render_layout(l, pending, clip, out);
                AnyWidget::Layout(r)
            },
            AnyWidget::HBox(b) => {
                let r = Self::render_hbox(b, pending, clip, out);
                AnyWidget::HBox(r)
            },
            AnyWidget::VBox(b) => {
                let r = Self::render_vbox(b, pending, clip, out);
                AnyWidget::VBox(r)
            },
        }
    }


    /// Measure a horizontal box's children as the packing pass does: total
    /// requested width (saturating at the accumulator's range), number of
    /// expand-flagged children, and largest requested height.
    #[verifier::loop_isolation(false)]
    fn hbox_measure(children: &Vec<(AnyWidget, bool)>) -> (r: (u64, usize, u32))
        ensures
            r.0 as int == (if spec_sum_req_w(children@) > u64::MAX as int {
                u64::MAX as int
            } else {
                spec_sum_req_w(children@)
            }),
            r.1 as int == spec_count_expand(children@),
            r.2 as int == spec_max_req_h(children@),
    {
        let ghost cs0 = children@;
        let mut sum: u64 = 0;
        let mut n_expand: usize = 0;
        let mut max_h: u32 = 0;
        let mut i: usize = 0;
        while i < children.len()
            invariant
                i <= cs0.len(),
                n_expand <= i,
                sum as int == (if spec_sum_req_w(cs0.subrange(0, i as int)) > u64::MAX as int {
                    u64::MAX as int
                } else {
                    spec_sum_req_w(cs0.subrange(0, i as int))
                }),
                n_expand as int == spec_count_expand(cs0.subrange(0, i as int)),
                max_h as int == spec_max_req_h(cs0.subrange(0, i as int)),
            decreases cs0.len() - i,
        {
            let c = &children[i];
            let rq = c.0.requested_size();
            match rq {
                Some(s) => {
                    let rw = s.0;
                    sum = if sum > u64::MAX - rw as u64 {
                        u64::MAX
                    } else {
                        sum + rw as u64
                    };
                    if max_h < s.1 {
                        max_h = s.1;
                    }
                },
                None => {},
            }
            if c.1 {
                n_expand = n_expand + 1;
            }
            proof {
                assert(cs0.subrange(0, i + 1 as int).drop_last() =~= cs0.subrange(0, i as int));
                assert(cs0.subrange(0, i + 1 as int).last() == cs0[i as int]);
            }
            i += 1;
        }
        proof {
            assert(cs0.subrange(0, cs0.len() as int) =~= cs0);
        }
        (sum, n_expand, max_h)
    }

    /// Measure a vertical box's children: total requested height, expand
    /// count, and largest requested width.
    #[verifier::loop_isolation(false)]
    fn vbox_measure(children: &Vec<(AnyWidget, bool)>) -> (r: (u64, usize, u32))
        ensures
            r.0 as int == (if spec_sum_req_h(children@) > u64::MAX as int {
                u64::MAX as int
            } else {
                spec_sum_req_h(children@)
            }),
            r.1 as int == spec_count_expand(children@),
            r.2 as int == spec_max_req_w(children@),
    {
        let ghost cs0 = children@;
        let mut sum: u64 = 0;
        let mut n_expand: usize = 0;
        let mut max_w: u32 = 0;
        let mut i: usize = 0;
        while i < children.len()
            invariant
                i <= cs0.len(),
                n_expand <= i,
                sum as int == (if spec_sum_req_h(cs0.subrange(0, i as int)) > u64::MAX as int {
                    u64::MAX as int
                } else {
                    spec_sum_req_h(cs0.subrange(0, i as int))
                }),
                n_expand as int == spec_count_expand(cs0.subrange(0, i as int)),
                max_w as int == spec_max_req_w(cs0.subrange(0, i as int)),
            decreases cs0.len() - i,
        {
            let c = &children[i];
            let rq = c.0.requested_size();
            match rq {
                Some(s) => {
                    let rh = s.1;
                    sum = if sum > u64::MAX - rh as u64 {
                        u64::MAX
                    } else {
                        sum + rh as u64
                    };
                    if max_w < s.0 {
                        max_w = s.0;
                    }
                },
                None => {},
            }
            if c.1 {
                n_expand = n_expand + 1;
            }
            proof {
                assert(cs0.subrange(0, i + 1 as int).drop_last() =~= cs0.subrange(0, i as int));
                assert(cs0.subrange(0, i + 1 as int).last() == cs0[i as int]);
            }
            i += 1;
        }
        proof {
            assert(cs0.subrange(0, cs0.len() as int) =~= cs0);
        }
        (sum, n_expand, max_w)
    }

    /// Render an absolute layout: fill its background, then its children in
    /// insertion order, each keeping the rectangle it was added with.
    #[verifier::loop_isolation(false)]
    fn render_layout(
        l: Layout,
        pending: Option<Rect>,
        clip: Option<Rect>,
        out: &mut Vec<DrawCmd>,
    ) -> (r: Layout)
        requires
            spec_renderable(AnyWidget::Layout(l), pending),
        ensures
            spec_render_state(AnyWidget::Layout(l), pending, AnyWidget::Layout(r)),
            final(out)@ == old(out)@ + spec_render_cmds(AnyWidget::Layout(l), pending, clip),
        decreases l, 0int,
    {
        let Layout { rect, children } = l;
        let r2 = match pending {
            Some(p) => Some(p),
            None => rect,
        };
        out.push(DrawCmd::FillRect(r2.unwrap(), crate::theme::get_background_color()));
        let ghost cs0 = children@;
        let mut rest = children;
        let mut done: Vec<AnyWidget> = Vec::new();
        proof {
            assert(rest@ =~= cs0.subrange(0, cs0.len() as int));
        }
        while rest.len() > 0
            invariant
                done@.len() + rest@.len() == cs0.len(),
                rest@ == cs0.subrange(done@.len() as int, cs0.len() as int),
                forall|j: int|
                    0 <= j < done@.len() ==> spec_render_state(
                        #[trigger] cs0[j],
                        None::<Rect>,
                        done@[j],
                    ),
                out@ == old(out)@ + seq![
                    DrawCmd::FillRect(r2.unwrap(), crate::theme::spec_theme_color().background),
                ] + spec_layout_cmds_upto(cs0, clip, done@.len() as int),
            decreases rest@.len(),
        {
            let ghost k = done@.len() as int;
            let c = rest.remove(0);
            proof {
                assert(c == cs0[k]);
                lemma_layout_elem_decreases(l, k);
                assert(spec_renderable(cs0[k], None::<Rect>));
            }
            let c2 = Self::render_with(c, None, clip, out);
            done.push(c2);
            proof {
                assert(rest@ =~= cs0.subrange(k + 1, cs0.len() as int));
                assert(out@ =~= old(out)@ + seq![
                    DrawCmd::FillRect(r2.unwrap(), crate::theme::spec_theme_color().background),
                ] + spec_layout_cmds_upto(cs0, clip, k + 1));
            }
        }
        proof {
            assert(out@ =~= old(out)@ + spec_render_cmds(AnyWidget::Layout(l), pending, clip));
        }
        Layout { rect: r2, children: done }
    }

    /// Render a horizontal box: recompute stale child positions, then draw
    /// the children left to right, clipped to the box's rectangle.
    #[verifier::loop_isolation(false)]
    #[verifier::rlimit(50)]
    fn render_hbox(
        b: HBox,
        pending: Option<Rect>,
        clip: Option<Rect>,
        out: &mut Vec<DrawCmd>,
    ) -> (r: HBox)
        requires
            spec_renderable(AnyWidget::HBox(b), pending),
        ensures
            spec_render_state(AnyWidget::HBox(b), pending, AnyWidget::HBox(r)),
            final(out)@ == old(out)@ + spec_render_cmds(AnyWidget::HBox(b), pending, clip),
        decreases b, 1int,
    {
        let HBox { rect, max_height, children, box_updated } = b;
        let r2: Option<Rect> = match pending {
            Some(p) => Some(p),
            None => rect,
        };
        let up2: bool = match pending {
            Some(_) => false,
            None => box_updated,
        };
        out.push(DrawCmd::SetClip(r2));
        let runs: bool = !up2 && r2.is_some();
        let mut sum: u64 = 0;
        let mut n_expand: usize = 0;
        let mut max_h: u32 = 0;
        if runs {
            let m = Self::hbox_measure(&children);
            sum = m.0;
            n_expand = m.1;
            max_h = m.2;
        }
        let mut ew: u32 = 0;
        if runs {
            let brect = r2.unwrap();
            if (brect.w as u64) < sum || n_expand == 0 {
                ew = 0;
            } else {
                ew = ((brect.w as u64 - sum) / n_expand as u64) as u32;
            }
            proof {
                assert(ew as int == spec_expand_extent(
                    r2.unwrap().w,
                    spec_sum_req_w(children@),
                    spec_count_expand(children@),
                ));
            }
        }
        let done = Self::render_hbox_children(children, pending, rect, box_updated, r2, runs, ew, out);
        out.push(DrawCmd::SetClip(clip));
        let new_maxh = if runs {
            max_h
        } else {
            max_height
        };
        let new_updated = runs || up2;
        proof {
            assert(out@ =~= old(out)@ + spec_render_cmds(AnyWidget::HBox(b), pending, clip));
        }
        HBox { rect: r2, max_height: new_maxh, children: done, box_updated: new_updated }
    }

    /// Render the children of a horizontal box in packing order, handing
    /// each its freshly computed position when the box recomputes them.
    #[verifier::loop_isolation(false)]
    #[verifier::rlimit(100)]
    #[verifier::spinoff_prover]
    fn render_hbox_children(
        children: Vec<(AnyWidget, bool)>,
        pending: Option<Rect>,
        rect: Option<Rect>,
        updated: bool,
        r2: Option<Rect>,
        runs: bool,
        ew: u32,
        out: &mut Vec<DrawCmd>,
    ) -> (done: Vec<(AnyWidget, bool)>)
        requires
            forall|i: int|
                0 <= i < children@.len() ==> spec_renderable(
                    #[trigger] children@[i].0,
                    spec_hbox_child_pending(pending, rect, updated, children@, i),
                ),
            runs == spec_box_runs_update(pending, rect, updated),
            r2 == spec_pend(pending, rect),
            runs ==> ew as int == spec_expand_extent(
                r2.unwrap().w,
                spec_sum_req_w(children@),
                spec_count_expand(children@),
            ),
        ensures
            done@.len() == children@.len(),
            forall|j: int|
                0 <= j < children@.len() ==> (#[trigger] done@[j]).1 == children@[j].1
                    && spec_render_state(
                    children@[j].0,
                    spec_hbox_child_pending(pending, rect, updated, children@, j),
                    done@[j].0,
                ),
            final(out)@ == old(out)@ + spec_hbox_cmds_upto(
                children@,
                pending,
                rect,
                updated,
                r2,
                children@.len() as int,
            ),
        decreases children, 0int,
    {
        let ghost cs0 = children@;
        let ghost ew_spec = spec_expand_extent(
            r2.unwrap().w,
            spec_sum_req_w(cs0),
            spec_count_expand(cs0),
        );
        let mut x: i32 = 0;
        if runs {
            x = r2.unwrap().x;
        }
        let mut rest = children;
        let mut done: Vec<(AnyWidget, bool)> = Vec::new();
        proof {
            assert(rest@ =~= cs0.subrange(0, cs0.len() as int));
        }
        while rest.len() > 0
            invariant
                done@.len() + rest@.len() == cs0.len(),
                rest@ == cs0.subrange(done@.len() as int, cs0.len() as int),
                runs ==> x as int == spec_hbox_child_x(
                    cs0,
                    ew_spec,
                    r2.unwrap().x as int,
                    done@.len() as int,
                ),
                forall|j: int|
                    0 <= j < done@.len() ==> (#[trigger] done@[j]).1 == cs0[j].1
                        && spec_render_state(
                        cs0[j].0,
                        spec_hbox_child_pending(pending, rect, updated, cs0, j),
                        done@[j].0,
                    ),
                out@ == old(out)@ + spec_hbox_cmds_upto(
                    cs0,
                    pending,
                    rect,
                    updated,
                    r2,
                    done@.len() as int,
                ),
            decreases rest@.len(),
        {
            let ghost k = done@.len() as int;
            let (c, ex) = rest.remove(0);
            proof {
                assert(c == cs0[k].0 && ex == cs0[k].1);
                lemma_children_elem_decreases(children, k);
            }
            let cpend: Option<Rect> = if runs {
                let rw = match c.requested_size() {
                    Some(s) => s.0,
                    None => 0,
                };
                let wdt = crate::geometry::extent_add(
                    rw,
                    if ex {
                        ew
                    } else {
                        0
                    },
                );
                let brect = r2.unwrap();
                let crect = Rect { x, y: brect.y, w: wdt, h: brect.h };
                x = crate::geometry::coord_add(x, wdt);
                Some(crect)
            } else {
                None
            };
            proof {
                assert(cpend == spec_hbox_child_pending(pending, rect, updated, cs0, k));
                assert(spec_renderable(
                    cs0[k].0,
                    spec_hbox_child_pending(pending, rect, updated, cs0, k),
                ));
            }
            let c2 = Self::render_with(c, cpend, r2, out);
            done.push((c2, ex));
            proof {
                assert(rest@ =~= cs0.subrange(k + 1, cs0.len() as int));
                assert(out@ =~= old(out)@ + spec_hbox_cmds_upto(
                    cs0,
                    pending,
                    rect,
                    updated,
                    r2,
                    k + 1,
                ));
            }
        }
        done
    }

    /// Render a vertical box: the transposed analogue of the horizontal one.
    #[verifier::loop_isolation(false)]
    #[verifier::rlimit(50)]
    fn render_vbox(
        b: VBox,
        pending: Option<Rect>,
        clip: Option<Rect>,
        out: &mut Vec<DrawCmd>,
    ) -> (r: VBox)
        requires
            spec_renderable(AnyWidget::VBox(b), pending),
        ensures
            spec_render_state(AnyWidget::VBox(b), pending, AnyWidget::VBox(r)),
            final(out)@ == old(out)@ + spec_render_cmds(AnyWidget::VBox(b), pending, clip),
        decreases b, 1int,
    {
        let VBox { rect, max_width, children, box_updated } = b;
        let r2: Option<Rect> = match pending {
            Some(p) => Some(p),
            None => rect,
        };
        let up2: bool = match pending {
            Some(_) => false,
            None => box_updated,
        };
        out.push(DrawCmd::SetClip(r2));
        let runs: bool = !up2 && r2.is_some();
        let mut sum: u64 = 0;
        let mut n_expand: usize = 0;
        let mut max_w: u32 = 0;
        if runs {
            let m = Self::vbox_measure(&children);
            sum = m.0;
            n_expand = m.1;
            max_w = m.2;
        }
        let mut ew: u32 = 0;
        if runs {
            let brect = r2.unwrap();
            if (brect.h as u64) < sum || n_expand == 0 {
                ew = 0;
            } else {
                ew = ((brect.h as u64 - sum) / n_expand as u64) as u32;
            }
            proof {
                assert(ew as int == spec_expand_extent(
                    r2.unwrap().h,
                    spec_sum_req_h(children@),
                    spec_count_expand(children@),
                ));
            }
        }
        let done = Self::render_vbox_children(children, pending, rect, box_updated, r2, runs, ew, out);
        out.push(DrawCmd::SetClip(clip));
        let new_maxw = if runs {
            max_w
        } else {
            max_width
        };
        let new_updated = runs || up2;
        proof {
            assert(out@ =~= old(out)@ + spec_render_cmds(AnyWidget::VBox(b), pending, clip));
        }
        VBox { rect: r2, max_width: new_maxw, children: done, box_updated: new_updated }
    }

    /// Render the children of a vertical box in packing order.
    #[verifier::loop_isolation(false)]
    #[verifier::rlimit(100)]
    #[verifier::spinoff_prover]
    fn render_vbox_children(
        children: Vec<(AnyWidget, bool)>,
        pending: Option<Rect>,
        rect: Option<Rect>,
        updated: bool,
        r2: Option<Rect>,
        runs: bool,
        ew: u32,
        out: &mut Vec<DrawCmd>,
    ) -> (done: Vec<(AnyWidget, bool)>)
        requires
            forall|i: int|
                0 <= i < children@.len() ==> spec_renderable(
                    #[trigger] children@[i].0,
                    spec_vbox_child_pending(pending, rect, updated, children@, i),
                ),
            runs == spec_box_runs_update(pending, rect, updated),
            r2 == spec_pend(pending, rect),
            runs ==> ew as int == spec_expand_extent(
                r2.unwrap().h,
                spec_sum_req_h(children@),
                spec_count_expand(children@),
            ),
        ensures
            done@.len() == children@.len(),
            forall|j: int|
                0 <= j < children@.len() ==> (#[trigger] done@[j]).1 == children@[j].1
                    && spec_render_state(
                    children@[j].0,
                    spec_vbox_child_pending(pending, rect, updated, children@, j),
                    done@[j].0,
                ),
            final(out)@ == old(out)@ + spec_vbox_cmds_upto(
                children@,
                pending,
                rect,
                updated,
                r2,
                children@.len() as int,
            ),
        decreases children, 0int,
    {
        let ghost cs0 = children@;
        let ghost ew_spec = spec_expand_extent(
            r2.unwrap().h,
            spec_sum_req_h(cs0),
            spec_count_expand(cs0),
        );
        let mut y: i32 = 0;
        if runs {
            y = r2.unwrap().y;
        }
        let mut rest = children;
        let mut done: Vec<(AnyWidget, bool)> = Vec::new();
        proof {
            assert(rest@ =~= cs0.subrange(0, cs0.len() as int));
        }
        while rest.len() > 0
            invariant
                done@.len() + rest@.len() == cs0.len(),
                rest@ == cs0.subrange(done@.len() as int, cs0.len() as int),
                runs ==> y as int == spec_vbox_child_y(
                    cs0,
                    ew_spec,
                    r2.unwrap().y as int,
                    done@.len() as int,
                ),
                forall|j: int|
                    0 <= j < done@.len() ==> (#[trigger] done@[j]).1 == cs0[j].1
                        && spec_render_state(
                        cs0[j].0,
                        spec_vbox_child_pending(pending, rect, updated, cs0, j),
                        done@[j].0,
                    ),
                out@ == old(out)@ + spec_vbox_cmds_upto(
                    cs0,
                    pending,
                    rect,
                    updated,
                    r2,
                    done@.len() as int,
                ),
            decreases rest@.len(),
        {
            let ghost k = done@.len() as int;
            let (c, ex) = rest.remove(0);
            proof {
                assert(c == cs0[k].0 && ex == cs0[k].1);
                lemma_children_elem_decreases(children, k);
            }
            let cpend: Option<Rect> = if runs {
                let rh = match c.requested_size() {
                    Some(s) => s.1,
                    None => 0,
                };
                let hgt = crate::geometry::extent_add(
                    rh,
                    if ex {
                        ew
                    } else {
                        0
                    },
                );
                let brect = r2.unwrap();
                let crect = Rect { x: brect.x, y, w: brect.w, h: hgt };
                y = crate::geometry::coord_add(y, hgt);
                Some(crect)
            } else {
                None
            };
            proof {
                assert(cpend == spec_vbox_child_pending(pending, rect, updated, cs0, k));
                assert(spec_renderable(
                    cs0[k].0,
                    spec_vbox_child_pending(pending, rect, updated, cs0, k),
                ));
            }
            let c2 = Self::render_with(c, cpend, r2, out);
            done.push((c2, ex));
            proof {
                assert(rest@ =~= cs0.subrange(k + 1, cs0.len() as int));
                assert(out@ =~= old(out)@ + spec_vbox_cmds_upto(
                    cs0,
                    pending,
                    rect,
                    updated,
                    r2,
                    k + 1,
                ));
            }
        }
        done
    }

    /// Dispatch one input event into the widget tree: containers forward it
    /// to every child in insertion order; buttons and scrollbars step their
    /// state machines. Returns the emitted signals, in dispatch order.
    pub fn event_handler(&mut self, event: &Event) -> (sigs: Vec<Signal>)
        requires
            spec_can_handle(*old(self), *event),
        ensures
            spec_handle_state(*old(self), *event, *final(self)),
            sigs@ == spec_handle_sigs(*old(self), *event),
    {
        let mut tmp = AnyWidget::Empty(Empty::new());
        core::mem::swap(self, &mut tmp);
        let mut sigs: Vec<Signal> = Vec::new();
        tmp = Self::handle_widget(tmp, event, &mut sigs);
        core::mem::swap(self, &mut tmp);
        sigs
    }

    /// Event dispatch, by value.
    fn handle_widget(w: AnyWidget, event: &Event, out: &mut Vec<Signal>) -> (r: AnyWidget)
        requires
            spec_can_handle(w, *event),
        ensures
            spec_handle_state(w, *event, r),
            final(out)@ == old(out)@ + spec_handle_sigs(w, *event),
        decreases w, 1int,
    {
        match w {
            AnyWidget::Frame(f) => {
                let Frame { title, window_size, resizable, child } = f;
                let child2 = match child {
                    Some(c) => Some(Box::new(Self::handle_widget(*c, event, out))),
                    None => None,
                };
                AnyWidget::Frame(Frame { title, window_size, resizable, child: child2 })
            },
            AnyWidget::Layout(l) => {
                let Layout { rect, children } = l;
                let children2 = Self::handle_layout_children(children, event, out);
                AnyWidget::Layout(Layout { rect, children: children2 })
            },
            AnyWidget::HBox(b) => {
                let HBox { rect, max_height, children, box_updated } = b;
                let children2 = Self::handle_children(children, event, out);
                AnyWidget::HBox(HBox { rect, max_height, children: children2, box_updated })
            },
            AnyWidget::VBox(b) => {
                let VBox { rect, max_width, children, box_updated } = b;
                let children2 = Self::handle_children(children, event, out);
                AnyWidget::VBox(VBox { rect, max_width, children: children2, box_updated })
            },
            AnyWidget::MarginBox(m) => {
                let MarginBox { rect, child, top, bottom, left, right } = m;
                let child2 = match child {
                    Some(c) => Some(Box::new(Self::handle_widget(*c, event, out))),
                    None => None,
                };
                AnyWidget::MarginBox(
                    MarginBox { rect, child: child2, top, bottom, left, right },
                )
            },
            AnyWidget::CenteringBox(cb) => {
                let CenteringBox { rect, child } = cb;
                let child2 = match child {
                    Some(c) => Some(Box::new(Self::handle_widget(*c, event, out))),
                    None => None,
                };
                AnyWidget::CenteringBox(CenteringBox { rect, child: child2 })
            },
            AnyWidget::Button(mut b) => {
                let mut sigs = b.event_handler(event);
                out.append(&mut sigs);
                AnyWidget::Button(b)
            },
            AnyWidget::HScrollBar(mut s) => {
                let mut sigs = s.event_handler(event);
                out.append(&mut sigs);
                AnyWidget::HScrollBar(s)
            },
            AnyWidget::Empty(e) => {
                proof {
                    assert(out@ =~= old(out)@ + spec_handle_sigs(AnyWidget::Empty(e), *event));
                }
                AnyWidget::Empty(e)
            },
            AnyWidget::Label(l) => {
                proof {
                    assert(out@ =~= old(out)@ + spec_handle_sigs(AnyWidget::Label(l), *event));
                }
                AnyWidget::Label(l)
            },
            AnyWidget::DrawingArea(d) => {
                proof {
                    assert(out@ =~= old(out)@ + spec_handle_sigs(
                        AnyWidget::DrawingArea(d),
                        *event,
                    ));
                }
                AnyWidget::DrawingArea(d)
            },
        }
    }

    /// Dispatch the event to a packing box's children, in order.
    #[verifier::loop_isolation(false)]
    fn handle_children(
        children: Vec<(AnyWidget, bool)>,
        event: &Event,
        out: &mut Vec<Signal>,
    ) -> (done: Vec<(AnyWidget, bool)>)
        requires
            forall|i: int|
                0 <= i < children@.len() ==> spec_can_handle(
                    #[trigger] children@[i].0,
                    *event,
                ),
        ensures
            done@.len() == children@.len(),
            forall|j: int|
                0 <= j < children@.len() ==> (#[trigger] done@[j]).1 == children@[j].1
                    && spec_handle_state(children@[j].0, *event, done@[j].0),
            final(out)@ == old(out)@ + spec_children_sigs_upto(
                children@,
                *event,
                children@.len() as int,
            ),
        decreases children, 0int,
    {
        let ghost cs0 = children@;
        let mut rest = children;
        let mut done: Vec<(AnyWidget, bool)> = Vec::new();
        proof {
            assert(rest@ =~= cs0.subrange(0, cs0.len() as int));
        }
        while rest.len() > 0
            invariant
                done@.len() + rest@.len() == cs0.len(),
                rest@ == cs0.subrange(done@.len() as int, cs0.len() as int),
                forall|j: int|
                    0 <= j < done@.len() ==> (#[trigger] done@[j]).1 == cs0[j].1
                        && spec_handle_state(cs0[j].0, *event, done@[j].0),
                out@ == old(out)@ + spec_children_sigs_upto(cs0, *event, done@.len() as int),
            decreases rest@.len(),
        {
            let ghost k = done@.len() as int;
            let (c, ex) = rest.remove(0);
            proof {
                assert(c == cs0[k].0 && ex == cs0[k].1);
                lemma_children_elem_decreases(children, k);
            }
            let c2 = Self::handle_widget(c, event, out);
            done.push((c2, ex));
            proof {
                assert(rest@ =~= cs0.subrange(k + 1, cs0.len() as int));
                assert(out@ =~= old(out)@ + spec_children_sigs_upto(cs0, *event, k + 1));
            }
        }
        done
    }

    /// Dispatch the event to an absolute layout's children, in order.
    #[verifier::loop_isolation(false)]
    fn handle_layout_children(
        children: Vec<AnyWidget>,
        event: &Event,
        out: &mut Vec<Signal>,
    ) -> (done: Vec<AnyWidget>)
        requires
            forall|i: int|
                0 <= i < children@.len() ==> spec_can_handle(#[trigger] children@[i], *event),
        ensures
            done@.len() == children@.len(),
            forall|j: int|
                0 <= j < children@.len() ==> spec_handle_state(
                    #[trigger] children@[j],
                    *event,
                    done@[j],
                ),
            final(out)@ == old(out)@ + spec_layout_sigs_upto(
                children@,
                *event,
                children@.len() as int,
            ),
        decreases children, 0int,
    {
        let ghost cs0 = children@;
        let mut rest = children;
        let mut done: Vec<AnyWidget> = Vec::new();
        proof {
            assert(rest@ =~= cs0.subrange(0, cs0.len() as int));
        }
        while rest.len() > 0
            invariant
                done@.len() + rest@.len() == cs0.len(),
                rest@ == cs0.subrange(done@.len() as int, cs0.len() as int),
                forall|j: int|
                    0 <= j < done@.len() ==> spec_handle_state(
                        #[trigger] cs0[j],
                        *event,
                        done@[j],
                    ),
                out@ == old(out)@ + spec_layout_sigs_upto(cs0, *event, done@.len() as int),
            decreases rest@.len(),
        {
            let ghost k = done@.len() as int;
            let c = rest.remove(0);
            proof {
                assert(c == cs0[k]);
                lemma_layout_vec_elem_decreases(children, k);
            }
            let c2 = Self::handle_widget(c, event, out);
            done.push(c2);
            proof {
                assert(rest@ =~= cs0.subrange(k + 1, cs0.len() as int));
                assert(out@ =~= old(out)@ + spec_layout_sigs_upto(cs0, *event, k + 1));
            }
        }
        done
    }

    /// Assign the widget its screen-space rectangle; see `spec_alloc` for
    /// what each kind derives from it. Always succeeds.
    pub fn alloc_rect(&mut self, rect: Rect)
        ensures
            *final(self) == spec_alloc(*old(self), rect),
    {
        let mut tmp = AnyWidget::Empty(Empty::new());
        core::mem::swap(self, &mut tmp);
        tmp = Self::alloc_widget(tmp, rect);
        core::mem::swap(self, &mut tmp);
    }

    /// Allocation, by value.
    fn alloc_widget(w: AnyWidget, rect: Rect) -> (r: AnyWidget)
        ensures
            r == spec_alloc(w, rect),
        decreases w, 1int,
    {
        match w {
            AnyWidget::Frame(f) => AnyWidget::Frame(f),
            AnyWidget::Layout(mut l) => {
                l.rect = Some(rect);
                AnyWidget::Layout(l)
            },
            AnyWidget::VBox(mut b) => {
                b.rect = Some(rect);
                b.box_updated = false;
                AnyWidget::VBox(b)
            },
            AnyWidget::HBox(mut b) => {
                b.rect = Some(rect);
                b.box_updated = false;
                AnyWidget::HBox(b)
            },
            AnyWidget::MarginBox(m) => {
                let MarginBox { rect: _, child, top, bottom, left, right } = m;
                let mut m2 = MarginBox { rect: Some(rect), child: None, top, bottom, left, right };
                let child_rect = m2.child_rect(rect);
                match child {
                    Some(c) => {
                        m2.child = Some(Box::new(Self::alloc_widget(*c, child_rect)));
                    },
                    None => {},
                }
                AnyWidget::MarginBox(m2)
            },
            AnyWidget::CenteringBox(cb) => {
                let CenteringBox { rect: _, child } = cb;
                match child {
                    Some(c) => {
                        let child_req = c.requested_size();
                        let child_rect = match child_req {
                            Some(s) => Rect::from_center(rect.center(), s.0, s.1),
                            None => rect,
                        };
                        AnyWidget::CenteringBox(
                            CenteringBox {
                                rect: Some(rect),
                                child: Some(Box::new(Self::alloc_widget(*c, child_rect))),
                            },
                        )
                    },
                    None => AnyWidget::CenteringBox(CenteringBox { rect: Some(rect), child: None }),
                }
            },
            AnyWidget::Button(b) => {
                let Button { rect: _, child, click_action, state } = b;
                let child_rect = Button::child_rect(rect);
                let child2 = match child {
                    Some(c) => Some(Box::new(Self::alloc_widget(*c, child_rect))),
                    None => None,
                };
                AnyWidget::Button(
                    Button { rect: Some(rect), child: child2, click_action, state },
                )
            },
            AnyWidget::Empty(_) => AnyWidget::Empty(Empty { rect: Some(rect) }),
            AnyWidget::Label(mut l) => {
                l.rect = Some(rect);
                AnyWidget::Label(l)
            },
            AnyWidget::DrawingArea(mut d) => {
                d.rect = Some(rect);
                AnyWidget::DrawingArea(d)
            },
            AnyWidget::HScrollBar(mut s) => {
                s.sb_alloc(rect);
                AnyWidget::HScrollBar(s)
            },
        }
    }
}

} // verus!
