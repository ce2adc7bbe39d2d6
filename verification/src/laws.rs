//! The toolkit's laws: guarantees that span several operations, proved once
//! and for all over the layout and event specifications.

use vstd::prelude::*;
use vstd::arithmetic::div_mod::lemma_fundamental_div_mod;
use crate::enums::ButtonState;
use crate::event::{Event, MouseButton};
use crate::geometry::Rect;
use crate::signal::Signal;
use crate::widgets::anywidget::{
    spec_alloc, spec_count_expand, spec_expand_extent, spec_hbox_child_rect, spec_hbox_child_w,
    spec_hbox_child_x, spec_rect_of, spec_req_h, spec_req_w, spec_requested_size,
    spec_sum_req_h, spec_sum_req_w, spec_vbox_child_h, spec_vbox_child_rect, spec_vbox_child_y,
    AnyWidget,
};
use crate::widgets::button::{
    spec_button_child_rect, spec_button_handle, Button, PADDING_SIZE,
};
use crate::widgets::scrollbar::spec_clamp;
use crate::widgets::scrollbar::HScrollBar;
use crate::geometry::sat_i64;

verus! {

/// Packing-axis extent consumed by the first `i` children of a horizontal
/// box, under expand share `ew`.
pub open spec fn spec_hbox_used(cs: Seq<(AnyWidget, bool)>, ew: int, i: int) -> int
    decreases i,
{
    if i <= 0 {
        0
    } else {
        spec_hbox_used(cs, ew, i - 1) + spec_hbox_child_w(cs, ew, i - 1)
    }
}

/// Packing-axis extent consumed by the first `i` children of a vertical
/// box.
pub open spec fn spec_vbox_used(cs: Seq<(AnyWidget, bool)>, ew: int, i: int) -> int
    decreases i,
{
    if i <= 0 {
        0
    } else {
        spec_vbox_used(cs, ew, i - 1) + spec_vbox_child_h(cs, ew, i - 1)
    }
}

/// The sum of requested widths is nonnegative.
proof fn lemma_sum_req_w_nonneg(cs: Seq<(AnyWidget, bool)>)
    ensures
        spec_sum_req_w(cs) >= 0,
    decreases cs.len(),
{
    if cs.len() > 0 {
        lemma_sum_req_w_nonneg(cs.drop_last());
    }
}

/// The sum of requested heights is nonnegative.
proof fn lemma_sum_req_h_nonneg(cs: Seq<(AnyWidget, bool)>)
    ensures
        spec_sum_req_h(cs) >= 0,
    decreases cs.len(),
{
    if cs.len() > 0 {
        lemma_sum_req_h_nonneg(cs.drop_last());
    }
}

/// Each child's requested width is at most the sum of all of them.
proof fn lemma_req_w_le_sum(cs: Seq<(AnyWidget, bool)>, i: int)
    requires
        0 <= i < cs.len(),
    ensures
        spec_req_w(cs[i].0) <= spec_sum_req_w(cs),
    decreases cs.len(),
{
    if i == cs.len() - 1 {
        lemma_sum_req_w_nonneg(cs.drop_last());
    } else {
        lemma_req_w_le_sum(cs.drop_last(), i);
        assert(cs.drop_last()[i] == cs[i]);
    }
}

/// Each child's requested height is at most the sum of all of them.
proof fn lemma_req_h_le_sum(cs: Seq<(AnyWidget, bool)>, i: int)
    requires
        0 <= i < cs.len(),
    ensures
        spec_req_h(cs[i].0) <= spec_sum_req_h(cs),
    decreases cs.len(),
{
    if i == cs.len() - 1 {
        lemma_sum_req_h_nonneg(cs.drop_last());
    } else {
        lemma_req_h_le_sum(cs.drop_last(), i);
        assert(cs.drop_last()[i] == cs[i]);
    }
}

/// Consumed extents are nonnegative and grow with the child count.
proof fn lemma_hbox_used_nonneg(cs: Seq<(AnyWidget, bool)>, ew: int, i: int)
    ensures
        spec_hbox_used(cs, ew, i) >= 0,
        forall|j: int| 0 <= j <= i ==> #[trigger] spec_hbox_used(cs, ew, j) <= spec_hbox_used(
            cs,
            ew,
            i,
        ),
    decreases i,
{
    if i > 0 {
        lemma_hbox_used_nonneg(cs, ew, i - 1);
    }
}

proof fn lemma_vbox_used_nonneg(cs: Seq<(AnyWidget, bool)>, ew: int, i: int)
    ensures
        spec_vbox_used(cs, ew, i) >= 0,
        forall|j: int| 0 <= j <= i ==> #[trigger] spec_vbox_used(cs, ew, j) <= spec_vbox_used(
            cs,
            ew,
            i,
        ),
    decreases i,
{
    if i > 0 {
        lemma_vbox_used_nonneg(cs, ew, i - 1);
    }
}

/// While every child's offset stays in the coordinate range, a horizontal
/// box's child offsets are exactly the box origin plus the extents consumed
/// before them: no saturation occurs.
proof fn lemma_hbox_x_accum(cs: Seq<(AnyWidget, bool)>, ew: int, x0: int, i: int)
    requires
        0 <= i,
        crate::geometry::coord_min() <= x0,
        x0 + spec_hbox_used(cs, ew, i) <= crate::geometry::coord_max(),
    ensures
        spec_hbox_child_x(cs, ew, x0, i) == x0 + spec_hbox_used(cs, ew, i),
    decreases i,
{
    lemma_hbox_used_nonneg(cs, ew, i);
    if i > 0 {
        lemma_hbox_x_accum(cs, ew, x0, i - 1);
    }
}

proof fn lemma_vbox_y_accum(cs: Seq<(AnyWidget, bool)>, ew: int, y0: int, i: int)
    requires
        0 <= i,
        crate::geometry::coord_min() <= y0,
        y0 + spec_vbox_used(cs, ew, i) <= crate::geometry::coord_max(),
    ensures
        spec_vbox_child_y(cs, ew, y0, i) == y0 + spec_vbox_used(cs, ew, i),
    decreases i,
{
    lemma_vbox_used_nonneg(cs, ew, i);
    if i > 0 {
        lemma_vbox_y_accum(cs, ew, y0, i - 1);
    }
}

/// The consumed extent of a prefix is the prefix's requested sum plus one
/// expand share per expand-flagged child in it.
proof fn lemma_hbox_used_formula(cs: Seq<(AnyWidget, bool)>, ew: int, i: int)
    requires
        0 <= i <= cs.len(),
        0 <= ew,
        forall|j: int| 0 <= j < cs.len() ==> spec_req_w(#[trigger] cs[j].0) + ew <= 0xffff_ffff,
    ensures
        spec_hbox_used(cs, ew, i) == spec_sum_req_w(cs.subrange(0, i)) + spec_count_expand(
            cs.subrange(0, i),
        ) * ew,
    decreases i,
{
    if i == 0 {
        assert(cs.subrange(0, 0) =~= Seq::<(AnyWidget, bool)>::empty());
    } else {
        lemma_hbox_used_formula(cs, ew, i - 1);
        assert(cs.subrange(0, i).drop_last() =~= cs.subrange(0, i - 1));
        assert(cs.subrange(0, i).last() == cs[i - 1]);
        let c1 = spec_count_expand(cs.subrange(0, i - 1));
        assert((c1 + 1) * ew == c1 * ew + ew) by (nonlinear_arith);
    }
}

proof fn lemma_vbox_used_formula(cs: Seq<(AnyWidget, bool)>, ew: int, i: int)
    requires
        0 <= i <= cs.len(),
        0 <= ew,
        forall|j: int| 0 <= j < cs.len() ==> spec_req_h(#[trigger] cs[j].0) + ew <= 0xffff_ffff,
    ensures
        spec_vbox_used(cs, ew, i) == spec_sum_req_h(cs.subrange(0, i)) + spec_count_expand(
            cs.subrange(0, i),
        ) * ew,
    decreases i,
{
    if i == 0 {
        assert(cs.subrange(0, 0) =~= Seq::<(AnyWidget, bool)>::empty());
    } else {
        lemma_vbox_used_formula(cs, ew, i - 1);
        assert(cs.subrange(0, i).drop_last() =~= cs.subrange(0, i - 1));
        assert(cs.subrange(0, i).last() == cs[i - 1]);
        let c1 = spec_count_expand(cs.subrange(0, i - 1));
        assert((c1 + 1) * ew == c1 * ew + ew) by (nonlinear_arith);
    }
}

/// With no expand-flagged child, a horizontal box gives every child exactly
/// its requested width, packed gaplessly from the box origin, so the total
/// consumed width equals the sum of the requests — whatever the box's own
/// width. Holds whenever the children fit the coordinate range at all.
pub proof fn lemma_hbox_layout_no_expand(br: Rect, cs: Seq<(AnyWidget, bool)>)
    requires
        spec_count_expand(cs) == 0,
        br.x + spec_sum_req_w(cs) <= crate::geometry::coord_max(),
    ensures
        forall|i: int|
            0 <= i < cs.len() ==> (#[trigger] spec_hbox_child_rect(br, cs, i)).w as int
                == spec_req_w(cs[i].0),
        forall|i: int|
            0 <= i < cs.len() ==> (#[trigger] spec_hbox_child_rect(br, cs, i)).x as int == br.x
                + spec_sum_req_w(cs.subrange(0, i)),
        spec_hbox_child_x(
            cs,
            spec_expand_extent(br.w, spec_sum_req_w(cs), spec_count_expand(cs)),
            br.x as int,
            cs.len() as int,
        ) == br.x + spec_sum_req_w(cs),
    decreases 0int,
{
    let ew = spec_expand_extent(br.w, spec_sum_req_w(cs), spec_count_expand(cs));
    assert(ew == 0);
    assert forall|j: int| 0 <= j < cs.len() implies spec_req_w(#[trigger] cs[j].0) + ew
        <= 0xffff_ffff by {}
    assert forall|i: int| 0 <= i <= cs.len() implies #[trigger] spec_hbox_used(cs, ew, i) == br.x
        + spec_sum_req_w(cs.subrange(0, i)) - br.x by {
        lemma_hbox_used_formula(cs, ew, i);
        let c1 = spec_count_expand(cs.subrange(0, i));
        assert(c1 * 0 == 0) by (nonlinear_arith);
    }
    assert forall|i: int| 0 <= i <= cs.len() implies br.x + #[trigger] spec_hbox_used(cs, ew, i)
        <= crate::geometry::coord_max() by {
        lemma_sum_suffix_w(cs, i);
    }
    assert forall|i: int| 0 <= i < cs.len() implies (#[trigger] spec_hbox_child_rect(
        br,
        cs,
        i,
    )).x as int == br.x + spec_sum_req_w(cs.subrange(0, i)) by {
        lemma_hbox_x_accum(cs, ew, br.x as int, i);
    }
    lemma_hbox_x_accum(cs, ew, br.x as int, cs.len() as int);
    assert(cs.subrange(0, cs.len() as int) =~= cs);
}

/// A prefix's requested sum is at most the whole sum.
proof fn lemma_sum_suffix_w(cs: Seq<(AnyWidget, bool)>, i: int)
    requires
        0 <= i <= cs.len(),
    ensures
        spec_sum_req_w(cs.subrange(0, i)) <= spec_sum_req_w(cs),
        spec_sum_req_w(cs.subrange(0, i)) >= 0,
    decreases cs.len() - i,
{
    lemma_sum_req_w_nonneg(cs.subrange(0, i));
    if i == cs.len() {
        assert(cs.subrange(0, i) =~= cs);
    } else {
        lemma_sum_suffix_w(cs, i + 1);
        assert(cs.subrange(0, i + 1).drop_last() =~= cs.subrange(0, i));
        assert(cs.subrange(0, i + 1).last() == cs[i]);
    }
}

proof fn lemma_sum_suffix_h(cs: Seq<(AnyWidget, bool)>, i: int)
    requires
        0 <= i <= cs.len(),
    ensures
        spec_sum_req_h(cs.subrange(0, i)) <= spec_sum_req_h(cs),
        spec_sum_req_h(cs.subrange(0, i)) >= 0,
    decreases cs.len() - i,
{
    lemma_sum_req_h_nonneg(cs.subrange(0, i));
    if i == cs.len() {
        assert(cs.subrange(0, i) =~= cs);
    } else {
        lemma_sum_suffix_h(cs, i + 1);
        assert(cs.subrange(0, i + 1).drop_last() =~= cs.subrange(0, i));
        assert(cs.subrange(0, i + 1).last() == cs[i]);
    }
}

/// With no expand-flagged child, a vertical box gives every child exactly
/// its requested height, packed gaplessly from the box origin.
pub proof fn lemma_vbox_layout_no_expand(br: Rect, cs: Seq<(AnyWidget, bool)>)
    requires
        spec_count_expand(cs) == 0,
        br.y + spec_sum_req_h(cs) <= crate::geometry::coord_max(),
    ensures
        forall|i: int|
            0 <= i < cs.len() ==> (#[trigger] spec_vbox_child_rect(br, cs, i)).h as int
                == spec_req_h(cs[i].0),
        forall|i: int|
            0 <= i < cs.len() ==> (#[trigger] spec_vbox_child_rect(br, cs, i)).y as int == br.y
                + spec_sum_req_h(cs.subrange(0, i)),
        spec_vbox_child_y(
            cs,
            spec_expand_extent(br.h, spec_sum_req_h(cs), spec_count_expand(cs)),
            br.y as int,
            cs.len() as int,
        ) == br.y + spec_sum_req_h(cs),
    decreases 0int,
{
    let ew = spec_expand_extent(br.h, spec_sum_req_h(cs), spec_count_expand(cs));
    assert(ew == 0);
    assert forall|i: int| 0 <= i <= cs.len() implies #[trigger] spec_vbox_used(cs, ew, i) == br.y
        + spec_sum_req_h(cs.subrange(0, i)) - br.y by {
        lemma_vbox_used_formula(cs, ew, i);
        let c1 = spec_count_expand(cs.subrange(0, i));
        assert(c1 * 0 == 0) by (nonlinear_arith);
    }
    assert forall|i: int| 0 <= i <= cs.len() implies br.y + #[trigger] spec_vbox_used(cs, ew, i)
        <= crate::geometry::coord_max() by {
        lemma_sum_suffix_h(cs, i);
    }
    assert forall|i: int| 0 <= i < cs.len() implies (#[trigger] spec_vbox_child_rect(
        br,
        cs,
        i,
    )).y as int == br.y + spec_sum_req_h(cs.subrange(0, i)) by {
        lemma_vbox_y_accum(cs, ew, br.y as int, i);
    }
    lemma_vbox_y_accum(cs, ew, br.y as int, cs.len() as int);
    assert(cs.subrange(0, cs.len() as int) =~= cs);
}

/// With at least one expand-flagged child and a box wide enough for all the
/// requests, every expand child receives its request plus an equal share of
/// the leftover width (the integer quotient), non-expand children exactly
/// their request, and the unallocated remainder is smaller than the number
/// of expand children.
pub proof fn lemma_hbox_layout_expand(br: Rect, cs: Seq<(AnyWidget, bool)>)
    requires
        spec_count_expand(cs) >= 1,
        spec_sum_req_w(cs) <= br.w,
        br.x + br.w <= crate::geometry::coord_max(),
    ensures
        spec_expand_extent(br.w, spec_sum_req_w(cs), spec_count_expand(cs)) == (br.w
            - spec_sum_req_w(cs)) / spec_count_expand(cs),
        forall|i: int|
            0 <= i < cs.len() && cs[i].1 ==> (#[trigger] spec_hbox_child_rect(br, cs, i)).w
                as int == spec_req_w(cs[i].0) + spec_expand_extent(
                br.w,
                spec_sum_req_w(cs),
                spec_count_expand(cs),
            ),
        forall|i: int|
            0 <= i < cs.len() && !cs[i].1 ==> (#[trigger] spec_hbox_child_rect(br, cs, i)).w
                as int == spec_req_w(cs[i].0),
        spec_hbox_child_x(
            cs,
            spec_expand_extent(br.w, spec_sum_req_w(cs), spec_count_expand(cs)),
            br.x as int,
            cs.len() as int,
        ) == br.x + spec_sum_req_w(cs) + spec_count_expand(cs) * spec_expand_extent(
            br.w,
            spec_sum_req_w(cs),
            spec_count_expand(cs),
        ),
        spec_sum_req_w(cs) + spec_count_expand(cs) * spec_expand_extent(
            br.w,
            spec_sum_req_w(cs),
            spec_count_expand(cs),
        ) <= br.w,
        br.w - (spec_sum_req_w(cs) + spec_count_expand(cs) * spec_expand_extent(
            br.w,
            spec_sum_req_w(cs),
            spec_count_expand(cs),
        )) < spec_count_expand(cs),
    decreases 0int,
{
    let sum = spec_sum_req_w(cs);
    let n = spec_count_expand(cs);
    let diff = br.w - sum;
    let ew = spec_expand_extent(br.w, sum, n);
    lemma_sum_req_w_nonneg(cs);
    assert(ew == diff / n);
    lemma_fundamental_div_mod(diff, n);
    assert(0 <= diff % n < n);
    assert(n * ew <= diff && diff - n * ew < n);
    assert(ew >= 0) by {
        assert(diff == n * ew + diff % n);
        if ew < 0 {
            assert(n * ew <= 1 * ew) by (nonlinear_arith)
                requires n >= 1 && ew < 0;
            assert(diff < n);
            assert(diff % n == diff - n * ew >= diff - ew > diff);
            assert(false);
        }
    }
    assert(ew <= diff) by {
        assert(n * ew >= 1 * ew) by (nonlinear_arith)
            requires n >= 1 && ew >= 0;
    }
    assert forall|j: int| 0 <= j < cs.len() implies spec_req_w(#[trigger] cs[j].0) + ew
        <= 0xffff_ffff by {
        lemma_req_w_le_sum(cs, j);
    }
    assert forall|i: int| 0 <= i < cs.len() && cs[i].1 implies (#[trigger] spec_hbox_child_rect(
        br,
        cs,
        i,
    )).w as int == spec_req_w(cs[i].0) + ew by {
        lemma_req_w_le_sum(cs, i);
    }
    assert forall|i: int| 0 <= i < cs.len() && !cs[i].1 implies (#[trigger] spec_hbox_child_rect(
        br,
        cs,
        i,
    )).w as int == spec_req_w(cs[i].0) by {}
    lemma_hbox_used_formula(cs, ew, cs.len() as int);
    assert(cs.subrange(0, cs.len() as int) =~= cs);
    assert(n * ew == spec_count_expand(cs) * ew);
    lemma_hbox_x_accum(cs, ew, br.x as int, cs.len() as int);
}

/// The vertical analogue of the expand law.
pub proof fn lemma_vbox_layout_expand(br: Rect, cs: Seq<(AnyWidget, bool)>)
    requires
        spec_count_expand(cs) >= 1,
        spec_sum_req_h(cs) <= br.h,
        br.y + br.h <= crate::geometry::coord_max(),
    ensures
        spec_expand_extent(br.h, spec_sum_req_h(cs), spec_count_expand(cs)) == (br.h
            - spec_sum_req_h(cs)) / spec_count_expand(cs),
        forall|i: int|
            0 <= i < cs.len() && cs[i].1 ==> (#[trigger] spec_vbox_child_rect(br, cs, i)).h
                as int == spec_req_h(cs[i].0) + spec_expand_extent(
                br.h,
                spec_sum_req_h(cs),
                spec_count_expand(cs),
            ),
        forall|i: int|
            0 <= i < cs.len() && !cs[i].1 ==> (#[trigger] spec_vbox_child_rect(br, cs, i)).h
                as int == spec_req_h(cs[i].0),
        spec_vbox_child_y(
            cs,
            spec_expand_extent(br.h, spec_sum_req_h(cs), spec_count_expand(cs)),
            br.y as int,
            cs.len() as int,
        ) == br.y + spec_sum_req_h(cs) + spec_count_expand(cs) * spec_expand_extent(
            br.h,
            spec_sum_req_h(cs),
            spec_count_expand(cs),
        ),
        spec_sum_req_h(cs) + spec_count_expand(cs) * spec_expand_extent(
            br.h,
            spec_sum_req_h(cs),
            spec_count_expand(cs),
        ) <= br.h,
        br.h - (spec_sum_req_h(cs) + spec_count_expand(cs) * spec_expand_extent(
            br.h,
            spec_sum_req_h(cs),
            spec_count_expand(cs),
        )) < spec_count_expand(cs),
    decreases 0int,
{
    let sum = spec_sum_req_h(cs);
    let n = spec_count_expand(cs);
    let diff = br.h - sum;
    let ew = spec_expand_extent(br.h, sum, n);
    lemma_sum_req_h_nonneg(cs);
    assert(ew == diff / n);
    lemma_fundamental_div_mod(diff, n);
    assert(0 <= diff % n < n);
    assert(n * ew <= diff && diff - n * ew < n);
    assert(ew >= 0) by {
        assert(diff == n * ew + diff % n);
        if ew < 0 {
            assert(n * ew <= 1 * ew) by (nonlinear_arith)
                requires n >= 1 && ew < 0;
            assert(diff < n);
            assert(diff % n == diff - n * ew >= diff - ew > diff);
            assert(false);
        }
    }
    assert forall|j: int| 0 <= j < cs.len() implies spec_req_h(#[trigger] cs[j].0) + ew
        <= 0xffff_ffff by {
        lemma_req_h_le_sum(cs, j);
    }
    assert forall|i: int| 0 <= i < cs.len() && cs[i].1 implies (#[trigger] spec_vbox_child_rect(
        br,
        cs,
        i,
    )).h as int == spec_req_h(cs[i].0) + ew by {
        lemma_req_h_le_sum(cs, i);
    }
    lemma_vbox_used_formula(cs, ew, cs.len() as int);
    assert(cs.subrange(0, cs.len() as int) =~= cs);
    lemma_vbox_y_accum(cs, ew, br.y as int, cs.len() as int);
}

/// A render step that hands any widget but a frame a pending allocation
/// stores exactly that rectangle.
pub proof fn lemma_render_sets_rect(w: AnyWidget, p: Rect, w2: AnyWidget)
    requires
        !(w is Frame),
        crate::widgets::anywidget::spec_render_state(w, Some(p), w2),
    ensures
        spec_rect_of(w2) == Some(p),
{
}

/// Rendering a horizontal box whose cached positions are stale assigns
/// every child exactly the packing-formula rectangle.
pub proof fn lemma_hbox_render_positions(b: crate::widgets::hbox::HBox, w2: AnyWidget)
    requires
        crate::widgets::anywidget::spec_render_state(AnyWidget::HBox(b), None::<Rect>, w2),
        b.rect matches Some(br),
        !b.box_updated,
        forall|i: int| 0 <= i < b.children@.len() ==> !((#[trigger] b.children@[i].0) is Frame),
    ensures
        w2 matches AnyWidget::HBox(b2) && b2.children@.len() == b.children@.len() && forall|
            i: int,
        |
            0 <= i < b.children@.len() ==> spec_rect_of(#[trigger] b2.children@[i].0) == Some(
                spec_hbox_child_rect(b.rect->0, b.children@, i),
            ),
{
    let b2 = w2->HBox_0;
    assert forall|i: int| 0 <= i < b.children@.len() implies spec_rect_of(
        #[trigger] b2.children@[i].0,
    ) == Some(spec_hbox_child_rect(b.rect->0, b.children@, i)) by {
        lemma_render_sets_rect(
            b.children@[i].0,
            spec_hbox_child_rect(b.rect->0, b.children@, i),
            b2.children@[i].0,
        );
    }
}

/// Rendering a vertical box whose cached positions are stale assigns every
/// child exactly the packing-formula rectangle.
pub proof fn lemma_vbox_render_positions(b: crate::widgets::vbox::VBox, w2: AnyWidget)
    requires
        crate::widgets::anywidget::spec_render_state(AnyWidget::VBox(b), None::<Rect>, w2),
        b.rect matches Some(br),
        !b.box_updated,
        forall|i: int| 0 <= i < b.children@.len() ==> !((#[trigger] b.children@[i].0) is Frame),
    ensures
        w2 matches AnyWidget::VBox(b2) && b2.children@.len() == b.children@.len() && forall|
            i: int,
        |
            0 <= i < b.children@.len() ==> spec_rect_of(#[trigger] b2.children@[i].0) == Some(
                spec_vbox_child_rect(b.rect->0, b.children@, i),
            ),
{
    let b2 = w2->VBox_0;
    assert forall|i: int| 0 <= i < b.children@.len() implies spec_rect_of(
        #[trigger] b2.children@[i].0,
    ) == Some(spec_vbox_child_rect(b.rect->0, b.children@, i)) by {
        lemma_render_sets_rect(
            b.children@[i].0,
            spec_vbox_child_rect(b.rect->0, b.children@, i),
            b2.children@[i].0,
        );
    }
}

/// Allocating any widget but a frame stores exactly the given rectangle.
pub proof fn lemma_alloc_sets_rect(w: AnyWidget, rect: Rect)
    requires
        !(w is Frame),
    ensures
        spec_rect_of(spec_alloc(w, rect)) == Some(rect),
{
}

/// Allocating a button with a rectangle at least twice the padding on an
/// axis insets its child exactly the padding from each edge on that axis;
/// on a smaller axis the child receives the full extent there.
pub proof fn lemma_button_child_inset(b: Button, rect: Rect)
    requires
        b.child matches Some(c) && !(*c is Frame),
        rect.x <= crate::geometry::coord_max() - PADDING_SIZE,
        rect.y <= crate::geometry::coord_max() - PADDING_SIZE,
    ensures
        spec_alloc(AnyWidget::Button(b), rect) matches AnyWidget::Button(b2)
            && b2.child matches Some(c2) && spec_rect_of(*c2) == Some(
            spec_button_child_rect(rect),
        ),
        rect.w >= 2 * PADDING_SIZE ==> spec_button_child_rect(rect).x == rect.x + PADDING_SIZE
            && spec_button_child_rect(rect).w == rect.w - 2 * PADDING_SIZE,
        rect.w < 2 * PADDING_SIZE ==> spec_button_child_rect(rect).x == rect.x
            && spec_button_child_rect(rect).w == rect.w,
        rect.h >= 2 * PADDING_SIZE ==> spec_button_child_rect(rect).y == rect.y + PADDING_SIZE
            && spec_button_child_rect(rect).h == rect.h - 2 * PADDING_SIZE,
        rect.h < 2 * PADDING_SIZE ==> spec_button_child_rect(rect).y == rect.y
            && spec_button_child_rect(rect).h == rect.h,
{
    let c = b.child->0;
    lemma_alloc_sets_rect(*c, spec_button_child_rect(rect));
}

/// Allocation does not change any widget's size request.
pub proof fn lemma_alloc_requested_size_unchanged(w: AnyWidget, rect: Rect)
    ensures
        spec_requested_size(spec_alloc(w, rect)) == spec_requested_size(w),
    decreases w,
{
    match w {
        AnyWidget::MarginBox(m) => {
            match m.child {
                Some(c) => {
                    lemma_alloc_requested_size_unchanged(
                        *c,
                        crate::widgets::marginbox::spec_margin_child_rect(
                            rect,
                            m.top,
                            m.bottom,
                            m.left,
                            m.right,
                        ),
                    );
                },
                None => {},
            }
        },
        AnyWidget::Button(b) => {
            match b.child {
                Some(c) => {
                    lemma_alloc_requested_size_unchanged(*c, spec_button_child_rect(rect));
                },
                None => {},
            }
        },
        _ => {},
    }
}

/// Allocating the same rectangle twice produces exactly the same tree as
/// allocating it once: repeated layout passes do not drift.
pub proof fn lemma_alloc_idempotent(w: AnyWidget, rect: Rect)
    ensures
        spec_alloc(spec_alloc(w, rect), rect) == spec_alloc(w, rect),
    decreases w,
{
    match w {
        AnyWidget::MarginBox(m) => {
            match m.child {
                Some(c) => {
                    lemma_alloc_idempotent(
                        *c,
                        crate::widgets::marginbox::spec_margin_child_rect(
                            rect,
                            m.top,
                            m.bottom,
                            m.left,
                            m.right,
                        ),
                    );
                },
                None => {},
            }
        },
        AnyWidget::CenteringBox(cb) => {
            match cb.child {
                Some(c) => {
                    lemma_alloc_requested_size_unchanged(
                        *c,
                        crate::widgets::centeringbox::spec_center_child_rect(
                            rect,
                            crate::widgets::anywidget::spec_opt_requested_size(cb.child),
                        ),
                    );
                    lemma_alloc_idempotent(
                        *c,
                        crate::widgets::centeringbox::spec_center_child_rect(
                            rect,
                            crate::widgets::anywidget::spec_opt_requested_size(cb.child),
                        ),
                    );
                },
                None => {},
            }
        },
        AnyWidget::Button(b) => {
            match b.child {
                Some(c) => {
                    lemma_alloc_idempotent(*c, spec_button_child_rect(rect));
                },
                None => {},
            }
        },
        _ => {},
    }
}

/// A left press inside an idle button followed by any left release fires
/// the registered click callback exactly once — the release position is
/// not checked — and both steps ask for a redraw.
pub proof fn lemma_button_click_fires(b: Button, p: (i32, i32), q: (i32, i32), a: u64)
    requires
        b.state == ButtonState::Idle,
        b.click_action == Some(a),
        b.rect matches Some(r) && r.spec_contains(p.0 as int, p.1 as int),
    ensures
        ({
            let (b1, s1) = spec_button_handle(b, Event::ButtonDown(p, MouseButton::Left));
            let (b2, s2) = spec_button_handle(b1, Event::ButtonUp(q, MouseButton::Left));
            s1 == seq![Signal::Redraw] && s2 == seq![Signal::Clicked(a), Signal::Redraw]
                && b2.state == ButtonState::Idle
        }),
{
    let (b1, s1) = spec_button_handle(b, Event::ButtonDown(p, MouseButton::Left));
    let (b2, s2) = spec_button_handle(b1, Event::ButtonUp(q, MouseButton::Left));
    assert(s2 =~= seq![Signal::Clicked(a), Signal::Redraw]);
}

/// A left press outside an idle button followed by a left release fires
/// nothing: the button never arms.
pub proof fn lemma_button_click_outside(b: Button, p: (i32, i32), q: (i32, i32))
    requires
        b.state == ButtonState::Idle,
        b.rect matches Some(r) && !r.spec_contains(p.0 as int, p.1 as int),
    ensures
        ({
            let (b1, s1) = spec_button_handle(b, Event::ButtonDown(p, MouseButton::Left));
            let (b2, s2) = spec_button_handle(b1, Event::ButtonUp(q, MouseButton::Left));
            s1 == Seq::<Signal>::empty() && s2 == Seq::<Signal>::empty() && b2 == b
        }),
{
}

/// Losing window focus between the press and the release suppresses the
/// pending click: the release fires nothing.
pub proof fn lemma_button_focus_lost_suppresses(b: Button, p: (i32, i32), q: (i32, i32))
    requires
        b.state == ButtonState::Idle,
        b.rect matches Some(r) && r.spec_contains(p.0 as int, p.1 as int),
    ensures
        ({
            let (b1, s1) = spec_button_handle(b, Event::ButtonDown(p, MouseButton::Left));
            let (b2, s2) = spec_button_handle(b1, Event::WindowFocusLost);
            let (b3, s3) = spec_button_handle(b2, Event::ButtonUp(q, MouseButton::Left));
            s2 == seq![Signal::Redraw] && s3 == Seq::<Signal>::empty() && b3.state
                == ButtonState::Idle
        }),
{
}

/// Assigning a scrollbar value always stores a value inside
/// `[lower, upper]`.
pub proof fn lemma_set_value_in_range(s: HScrollBar, value: int)
    requires
        s.lower <= s.upper,
    ensures
        s.lower <= spec_clamp(value, s.lower as int, s.upper as int) <= s.upper,
{
}

/// Stepping a scrollbar down and then up returns to the original value,
/// as long as neither step clamps at a boundary (which `lower + step <=
/// value` rules out for a nonnegative step).
pub proof fn lemma_step_round_trip(s: HScrollBar)
    requires
        s.lower <= s.upper,
        s.lower <= s.value <= s.upper,
        0 <= s.step,
        s.lower + s.step <= s.value,
    ensures
        ({
            let v1 = spec_clamp(sat_i64(s.value - s.step), s.lower as int, s.upper as int);
            let v2 = spec_clamp(sat_i64(v1 + s.step), s.lower as int, s.upper as int);
            v1 == s.value - s.step && v2 == s.value
        }),
{
}

} // verus!
