use guikit::draw::DrawCmd;
use guikit::geometry::Rect;
use guikit::widgets::{
    AnyWidget, Button, CenteringBox, Empty, HBox, Label, Layout, MarginBox, VBox,
};

fn label(w: u32, h: u32) -> AnyWidget {
    AnyWidget::Label(Label::new("x", (w, h)))
}

fn child_rects(w: &AnyWidget) -> Vec<Option<Rect>> {
    match w {
        AnyWidget::HBox(b) => b.children.iter().map(|c| c.0.rect_of()).collect(),
        AnyWidget::VBox(b) => b.children.iter().map(|c| c.0.rect_of()).collect(),
        AnyWidget::Layout(l) => l.children.iter().map(|c| c.rect_of()).collect(),
        _ => panic!("not a multi-child container"),
    }
}

#[test]
fn hbox_end_to_end_two_fixed_one_expanding() {
    let mut hbox = HBox::new();
    hbox.pack(label(30, 10), false);
    hbox.pack(label(30, 10), false);
    hbox.pack(label(10, 5), true);
    let mut w = AnyWidget::HBox(hbox);
    w.alloc_rect(Rect::new(0, 0, 100, 20));
    assert!(w.is_renderable(None));
    let mut out: Vec<DrawCmd> = Vec::new();
    w.render(None, &mut out);
    let rects = child_rects(&w);
    assert_eq!(rects[0], Some(Rect::new(0, 0, 30, 20)));
    assert_eq!(rects[1], Some(Rect::new(30, 0, 30, 20)));
    assert_eq!(rects[2], Some(Rect::new(60, 0, 40, 20)));
}

#[test]
fn hbox_no_expand_consumes_sum_of_requests() {
    let mut hbox = HBox::new();
    hbox.pack(label(30, 10), false);
    hbox.pack(label(25, 10), false);
    let mut w = AnyWidget::HBox(hbox);
    // The box is far wider than the requests; no child expands.
    w.alloc_rect(Rect::new(0, 0, 500, 20));
    let mut out: Vec<DrawCmd> = Vec::new();
    w.render(None, &mut out);
    let rects = child_rects(&w);
    assert_eq!(rects[0], Some(Rect::new(0, 0, 30, 20)));
    assert_eq!(rects[1], Some(Rect::new(30, 0, 25, 20)));
}

#[test]
fn hbox_expand_drops_remainder() {
    let mut hbox = HBox::new();
    hbox.pack(label(10, 5), true);
    hbox.pack(label(10, 5), true);
    hbox.pack(label(10, 5), true);
    let mut w = AnyWidget::HBox(hbox);
    // Leftover is 100 - 30 = 70; each expander gets floor(70 / 3) = 23,
    // the remainder 1 stays unallocated.
    w.alloc_rect(Rect::new(0, 0, 100, 20));
    let mut out: Vec<DrawCmd> = Vec::new();
    w.render(None, &mut out);
    let rects = child_rects(&w);
    assert_eq!(rects[0], Some(Rect::new(0, 0, 33, 20)));
    assert_eq!(rects[1], Some(Rect::new(33, 0, 33, 20)));
    assert_eq!(rects[2], Some(Rect::new(66, 0, 33, 20)));
}

#[test]
fn hbox_too_narrow_gives_requests_only() {
    let mut hbox = HBox::new();
    hbox.pack(label(30, 10), true);
    hbox.pack(label(30, 10), false);
    let mut w = AnyWidget::HBox(hbox);
    // Requests exceed the box, so the expand share is zero and children
    // overflow to the right.
    w.alloc_rect(Rect::new(0, 0, 40, 20));
    let mut out: Vec<DrawCmd> = Vec::new();
    w.render(None, &mut out);
    let rects = child_rects(&w);
    assert_eq!(rects[0], Some(Rect::new(0, 0, 30, 20)));
    assert_eq!(rects[1], Some(Rect::new(30, 0, 30, 20)));
}

#[test]
fn vbox_packs_top_to_bottom() {
    let mut vbox = VBox::new();
    vbox.pack(label(10, 30), false);
    vbox.pack(label(10, 30), false);
    vbox.pack(label(5, 10), true);
    let mut w = AnyWidget::VBox(vbox);
    let mut out: Vec<DrawCmd> = Vec::new();
    w.alloc_rect(Rect::new(0, 0, 20, 100));
    w.render(None, &mut out);
    let rects = child_rects(&w);
    assert_eq!(rects[0], Some(Rect::new(0, 0, 20, 30)));
    assert_eq!(rects[1], Some(Rect::new(0, 30, 20, 30)));
    assert_eq!(rects[2], Some(Rect::new(0, 60, 20, 40)));
}

#[test]
fn box_requested_size_is_one_by_max_cross() {
    let mut hbox = HBox::new();
    hbox.pack(label(30, 10), false);
    hbox.pack(label(10, 25), false);
    let w = AnyWidget::HBox(hbox);
    assert_eq!(w.requested_size(), Some((1, 25)));

    let mut vbox = VBox::new();
    vbox.pack(label(30, 10), false);
    vbox.pack(label(10, 25), false);
    let w2 = AnyWidget::VBox(vbox);
    assert_eq!(w2.requested_size(), Some((1, 30)));
}

#[test]
fn empty_box_requests_zero_cross_extent() {
    let w = AnyWidget::HBox(HBox::new());
    assert_eq!(w.requested_size(), Some((1, 0)));
}

#[test]
fn layout_is_lazy_until_render() {
    let mut hbox = HBox::new();
    hbox.pack(label(30, 10), false);
    let mut w = AnyWidget::HBox(hbox);
    w.alloc_rect(Rect::new(0, 0, 100, 20));
    // Before the render pass the child keeps no rectangle.
    assert_eq!(child_rects(&w)[0], None);
    let mut out: Vec<DrawCmd> = Vec::new();
    w.render(None, &mut out);
    assert_eq!(child_rects(&w)[0], Some(Rect::new(0, 0, 30, 20)));
}

#[test]
fn button_insets_child_by_padding() {
    let b = Button::new_with_label("go", (20, 10));
    let mut w = AnyWidget::Button(b);
    w.alloc_rect(Rect::new(0, 0, 50, 20));
    match &w {
        AnyWidget::Button(b2) => {
            let c = b2.child.as_ref().unwrap();
            assert_eq!(c.rect_of(), Some(Rect::new(3, 3, 44, 14)));
        },
        _ => unreachable!(),
    }
}

#[test]
fn button_padding_collapses_on_small_axis() {
    let b = Button::new_with_label("go", (20, 10));
    let mut w = AnyWidget::Button(b);
    // Narrower than twice the padding: the full width passes through.
    w.alloc_rect(Rect::new(0, 0, 5, 20));
    match &w {
        AnyWidget::Button(b2) => {
            let c = b2.child.as_ref().unwrap();
            assert_eq!(c.rect_of(), Some(Rect::new(0, 3, 5, 14)));
        },
        _ => unreachable!(),
    }
}

#[test]
fn button_requested_size_adds_padding() {
    let b = Button::new_with_label("go", (20, 10));
    let w = AnyWidget::Button(b);
    assert_eq!(w.requested_size(), Some((26, 16)));
    let w2 = AnyWidget::Button(Button::new());
    assert_eq!(w2.requested_size(), Some((6, 6)));
}

#[test]
fn alloc_rect_is_idempotent() {
    let mut hbox = HBox::new();
    hbox.pack(AnyWidget::Button(Button::new_with_label("go", (20, 10))), true);
    hbox.pack(label(30, 10), false);
    let mut w1 = AnyWidget::HBox(hbox);
    let r = Rect::new(5, 7, 100, 20);
    w1.alloc_rect(r);
    let once = format!("{:?}", w1);
    w1.alloc_rect(r);
    let twice = format!("{:?}", w1);
    assert_eq!(once, twice);
}

#[test]
fn margin_box_insets_by_margins() {
    let m = MarginBox::new(AnyWidget::Empty(Empty::new()), 2, 3, 4, 5);
    let mut w = AnyWidget::MarginBox(m);
    w.alloc_rect(Rect::new(0, 0, 100, 50));
    match &w {
        AnyWidget::MarginBox(m2) => {
            let c = m2.child.as_ref().unwrap();
            assert_eq!(c.rect_of(), Some(Rect::new(4, 2, 91, 45)));
        },
        _ => unreachable!(),
    }
}

#[test]
fn margin_pair_collapses_when_it_would_invert() {
    let m = MarginBox::new(AnyWidget::Empty(Empty::new()), 10, 10, 30, 30);
    let mut w = AnyWidget::MarginBox(m);
    // 50 < 30 + 30, so the horizontal margins collapse; the vertical pair
    // still applies.
    w.alloc_rect(Rect::new(0, 0, 50, 50));
    match &w {
        AnyWidget::MarginBox(m2) => {
            let c = m2.child.as_ref().unwrap();
            assert_eq!(c.rect_of(), Some(Rect::new(0, 10, 50, 30)));
        },
        _ => unreachable!(),
    }
}

#[test]
fn margin_box_requested_size_adds_margins() {
    let m = MarginBox::new(label(10, 20), 2, 3, 4, 5);
    let w = AnyWidget::MarginBox(m);
    assert_eq!(w.requested_size(), Some((19, 25)));
    let m2 = MarginBox::empty(2, 3, 4, 5);
    let w2 = AnyWidget::MarginBox(m2);
    assert_eq!(w2.requested_size(), Some((9, 5)));
}

#[test]
fn centering_box_centers_a_sized_child() {
    let cb = CenteringBox::new(label(10, 10));
    let mut w = AnyWidget::CenteringBox(cb);
    w.alloc_rect(Rect::new(0, 0, 100, 50));
    match &w {
        AnyWidget::CenteringBox(cb2) => {
            let c = cb2.child.as_ref().unwrap();
            assert_eq!(c.rect_of(), Some(Rect::new(45, 20, 10, 10)));
        },
        _ => unreachable!(),
    }
}

#[test]
fn centering_box_expands_a_child_without_preference() {
    let cb = CenteringBox::new(AnyWidget::Empty(Empty::new()));
    let mut w = AnyWidget::CenteringBox(cb);
    w.alloc_rect(Rect::new(5, 5, 100, 50));
    match &w {
        AnyWidget::CenteringBox(cb2) => {
            let c = cb2.child.as_ref().unwrap();
            assert_eq!(c.rect_of(), Some(Rect::new(5, 5, 100, 50)));
        },
        _ => unreachable!(),
    }
}

#[test]
fn absolute_layout_keeps_explicit_rects() {
    let mut l = Layout::new();
    l.add(AnyWidget::Empty(Empty::new()), Rect::new(10, 10, 20, 20));
    l.add(AnyWidget::Empty(Empty::new()), Rect::new(50, 5, 8, 8));
    let mut w = AnyWidget::Layout(l);
    // The container's own allocation never re-derives its children's.
    w.alloc_rect(Rect::new(0, 0, 200, 200));
    let rects = child_rects(&w);
    assert_eq!(rects[0], Some(Rect::new(10, 10, 20, 20)));
    assert_eq!(rects[1], Some(Rect::new(50, 5, 8, 8)));
}
