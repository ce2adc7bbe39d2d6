use guikit::draw::DrawCmd;
use guikit::geometry::Rect;
use guikit::theme::{get_background_color, get_dark_border_color, get_text_color, Color};
use guikit::widgets::{AnyWidget, DrawingArea, Empty, Frame, HBox, Label};

#[test]
fn empty_fills_its_rect_with_the_debug_color() {
    let mut w = AnyWidget::Empty(Empty::new());
    w.alloc_rect(Rect::new(1, 2, 3, 4));
    let mut out: Vec<DrawCmd> = Vec::new();
    w.render(None, &mut out);
    assert_eq!(out, vec![DrawCmd::FillRect(Rect::new(1, 2, 3, 4), Color::rgb(0, 0, 0xFF))]);
}

#[test]
fn label_centers_text_in_a_larger_rect() {
    // Text size (13, 7) in a (20, 10) rectangle: both odd remainders round
    // toward the lower coordinate.
    let mut w = AnyWidget::Label(Label::new("Hi", (13, 7)));
    w.alloc_rect(Rect::new(0, 0, 20, 10));
    let mut out: Vec<DrawCmd> = Vec::new();
    w.render(None, &mut out);
    assert_eq!(
        out,
        vec![
            DrawCmd::Text(String::from("Hi"), Rect::new(3, 1, 13, 7), get_text_color()),
        ],
    );
}

#[test]
fn label_anchors_at_origin_in_a_smaller_rect() {
    let mut w = AnyWidget::Label(Label::new("Hi", (13, 7)));
    w.alloc_rect(Rect::new(4, 4, 10, 10));
    let mut out: Vec<DrawCmd> = Vec::new();
    w.render(None, &mut out);
    assert_eq!(
        out,
        vec![
            DrawCmd::Text(String::from("Hi"), Rect::new(4, 5, 13, 7), get_text_color()),
        ],
    );
}

#[test]
fn drawing_area_scopes_and_restores_clip_and_viewport() {
    let mut d = DrawingArea::new();
    d.on_draw(11);
    let mut w = AnyWidget::DrawingArea(d);
    let r = Rect::new(5, 5, 40, 30);
    w.alloc_rect(r);
    let mut out: Vec<DrawCmd> = Vec::new();
    let prior = Some(Rect::new(0, 0, 100, 100));
    w.render(prior, &mut out);
    assert_eq!(
        out,
        vec![
            DrawCmd::SetClip(Some(r)),
            DrawCmd::SetViewport(Some(r)),
            DrawCmd::Clear(Color::rgb(0xFF, 0xFF, 0xFF)),
            DrawCmd::UserDraw(11),
            DrawCmd::SetViewport(None),
            DrawCmd::SetClip(prior),
        ],
    );
}

#[test]
fn drawing_area_without_callback_emits_no_user_draw() {
    let mut w = AnyWidget::DrawingArea(DrawingArea::new());
    w.alloc_rect(Rect::new(0, 0, 10, 10));
    let mut out: Vec<DrawCmd> = Vec::new();
    w.render(None, &mut out);
    assert!(!out.iter().any(|c| matches!(c, DrawCmd::UserDraw(_))));
}

#[test]
fn hbox_clips_children_to_its_rect_and_restores() {
    let mut hbox = HBox::new();
    hbox.pack(AnyWidget::Empty(Empty::new()), true);
    let mut w = AnyWidget::HBox(hbox);
    let r = Rect::new(0, 0, 100, 20);
    w.alloc_rect(r);
    let mut out: Vec<DrawCmd> = Vec::new();
    w.render(None, &mut out);
    assert_eq!(out.first(), Some(&DrawCmd::SetClip(Some(r))));
    assert_eq!(out.last(), Some(&DrawCmd::SetClip(None)));
    assert_eq!(out.len(), 3);
}

#[test]
fn scrollbar_draws_track_and_arrows() {
    let mut w = AnyWidget::HScrollBar(guikit::widgets::HScrollBar::new());
    w.alloc_rect(Rect::new(0, 0, 100, 20));
    let mut out: Vec<DrawCmd> = Vec::new();
    w.render(None, &mut out);
    assert_eq!(out.len(), 6);
    assert_eq!(
        out[1],
        DrawCmd::OutlineRect(Rect::new(0, 0, 100, 20), get_dark_border_color()),
    );
    assert_eq!(out[3], DrawCmd::OutlineRect(Rect::new(0, 1, 18, 18), get_dark_border_color()));
    assert_eq!(out[5], DrawCmd::OutlineRect(Rect::new(82, 1, 18, 18), get_dark_border_color()));
}

#[test]
fn frame_update_clears_draws_and_presents() {
    let mut f = Frame::new("demo", 200, 100, false);
    f.set_child(AnyWidget::Empty(Empty::new()));
    assert!(f.can_update());
    let cmds = f.update();
    assert_eq!(
        cmds,
        vec![
            DrawCmd::Clear(get_background_color()),
            DrawCmd::FillRect(Rect::new(0, 0, 200, 100), Color::rgb(0, 0, 0xFF)),
            DrawCmd::Present,
        ],
    );
}

#[test]
fn frame_without_child_still_presents() {
    let mut f = Frame::new("demo", 200, 100, false);
    let cmds = f.update();
    assert_eq!(cmds, vec![DrawCmd::Clear(get_background_color()), DrawCmd::Present]);
}

#[test]
fn set_child_lays_out_to_the_client_size() {
    let mut f = Frame::new("demo", 320, 240, true);
    f.set_child(AnyWidget::Empty(Empty::new()));
    let c = f.child.as_ref().unwrap();
    assert_eq!(c.rect_of(), Some(Rect::new(0, 0, 320, 240)));
}

#[test]
fn render_does_not_change_what_is_drawn_next_time() {
    // Rendering refreshes the layout cache and nothing else: a second pass
    // emits exactly the same commands.
    let mut hbox = HBox::new();
    hbox.pack(AnyWidget::Label(Label::new("a", (30, 10))), true);
    let mut w = AnyWidget::HBox(hbox);
    w.alloc_rect(Rect::new(0, 0, 100, 20));
    let mut first: Vec<DrawCmd> = Vec::new();
    w.render(None, &mut first);
    let mut second: Vec<DrawCmd> = Vec::new();
    w.render(None, &mut second);
    assert_eq!(first, second);
}
