use guikit::draw::DrawCmd;
use guikit::event::{Event, MouseButton};
use guikit::geometry::Rect;
use guikit::signal::Signal;
use guikit::theme::{
    get_theme_color, get_theme_layout, Color, ThemeColor, ThemeLayout, ThemeLoadError,
    ThemeLoader,
};
use guikit::traits::{ButtonTrait, ContainerTrait, OneChildContainerTrait, TextTrait};
use guikit::uicontext::init;
use guikit::widgets::{AnyWidget, Button, Empty, Frame, HBox, Label, MarginBox};

#[test]
fn theme_palette_has_the_fixed_values() {
    let c = get_theme_color();
    assert_eq!(c, ThemeColor::default());
    assert_eq!(c.background, Color::rgb(0xD4, 0xD4, 0xD4));
    assert_eq!(c.dark_border, Color::rgb(0x70, 0x70, 0x70));
    assert_eq!(c.text, Color::rgb(0, 0, 0));
    let l = get_theme_layout();
    assert_eq!(l, ThemeLayout::default());
    assert_eq!(l.size_scrollbar, 20);
}

#[test]
fn theme_load_error_carries_its_message() {
    let e = ThemeLoadError::LoadFontError(String::from("no such font"));
    assert_eq!(e.message(), "no such font");
}

#[test]
fn context_starts_empty_and_tracks_redraws() {
    let mut ctx = init(ThemeLoader);
    assert_eq!(ctx.frame_count(), 0);
    assert!(!ctx.redraw_requested);
    ctx.request_redraw();
    ctx.request_redraw();
    assert!(ctx.redraw_start());
    assert!(!ctx.redraw_start());
}

#[test]
fn dispatching_a_press_requests_a_redraw() {
    let mut ctx = init(ThemeLoader);
    let mut f = Frame::new("demo", 100, 40, false);
    let mut b = Button::new();
    b.on_clicked(1);
    f.set_child(AnyWidget::Button(b));
    ctx.add_frame(f);
    assert_eq!(ctx.frame_count(), 1);
    let down = Event::ButtonDown((5, 5), MouseButton::Left);
    assert!(ctx.frames[0].can_handle_event(&down));
    let sigs = ctx.dispatch_event(&down);
    assert_eq!(sigs, vec![Signal::Redraw]);
    assert!(ctx.redraw_requested);
    let up = Event::ButtonUp((5, 5), MouseButton::Left);
    let sigs2 = ctx.dispatch_event(&up);
    assert_eq!(sigs2, vec![Signal::Clicked(1), Signal::Redraw]);
}

#[test]
fn dispatching_an_ignored_event_requests_nothing() {
    let mut ctx = init(ThemeLoader);
    let mut f = Frame::new("demo", 100, 40, false);
    f.set_child(AnyWidget::Empty(Empty::new()));
    ctx.add_frame(f);
    let sigs = ctx.dispatch_event(&Event::WindowFocusLost);
    assert_eq!(sigs, vec![]);
    assert!(!ctx.redraw_requested);
}

#[test]
fn size_changed_relays_out_and_requests_redraw() {
    let mut ctx = init(ThemeLoader);
    let mut f = Frame::new("demo", 100, 40, false);
    f.set_child(AnyWidget::Empty(Empty::new()));
    ctx.add_frame(f);
    ctx.size_changed(64, 48);
    assert!(ctx.redraw_requested);
    assert_eq!(ctx.frames[0].window_size, (64, 48));
    let c = ctx.frames[0].child.as_ref().unwrap();
    assert_eq!(c.rect_of(), Some(Rect::new(0, 0, 64, 48)));
}

#[test]
fn redraw_tick_updates_every_frame_once() {
    let mut ctx = init(ThemeLoader);
    let mut f = Frame::new("a", 10, 10, false);
    f.set_child(AnyWidget::Empty(Empty::new()));
    ctx.add_frame(f);
    let mut g = Frame::new("b", 20, 20, false);
    g.set_child(AnyWidget::Empty(Empty::new()));
    ctx.add_frame(g);
    // No redraw owed yet.
    assert!(ctx.redraw_tick().is_none());
    ctx.request_redraw();
    let cmds = ctx.redraw_tick().unwrap();
    assert_eq!(cmds.len(), 2);
    assert_eq!(cmds[0].len(), 3);
    assert_eq!(cmds[1].len(), 3);
    // The flag was cleared: the next tick has nothing to do.
    assert!(ctx.redraw_tick().is_none());
}

#[test]
fn update_frame_returns_the_frame_commands() {
    let mut ctx = init(ThemeLoader);
    let mut f = Frame::new("demo", 10, 10, false);
    f.set_child(AnyWidget::Empty(Empty::new()));
    ctx.add_frame(f);
    let cmds = ctx.update_frame(0);
    assert_eq!(cmds.len(), 3);
    assert_eq!(cmds[2], DrawCmd::Present);
}

#[test]
fn container_trait_exposes_children_in_order() {
    let mut hbox = HBox::new();
    hbox.pack(AnyWidget::Label(Label::new("a", (1, 1))), false);
    hbox.pack(AnyWidget::Empty(Empty::new()), true);
    assert_eq!(hbox.child_count(), 2);
    assert!(matches!(hbox.child_at(0), AnyWidget::Label(_)));
    assert!(matches!(hbox.child_at(1), AnyWidget::Empty(_)));
}

#[test]
fn one_child_container_yields_the_sole_child() {
    let m = MarginBox::new(AnyWidget::Empty(Empty::new()), 1, 1, 1, 1);
    assert_eq!(m.child_count(), 1);
    assert!(matches!(m.with_child(), Some(AnyWidget::Empty(_))));
    let e = MarginBox::empty(1, 1, 1, 1);
    assert!(e.with_child().is_none());
    let mut e2 = e;
    e2.set_child(AnyWidget::Empty(Empty::new()));
    assert_eq!(e2.child_count(), 1);
}

#[test]
fn button_trait_registers_the_callback_key() {
    let mut b = Button::new();
    ButtonTrait::on_clicked(&mut b, 42);
    assert_eq!(b.click_action, Some(42));
}

#[test]
fn text_trait_round_trips_text() {
    let mut l = Label::new("first", (10, 5));
    assert_eq!(l.get_text(), "first");
    TextTrait::set_text(&mut l, "second", (12, 6));
    assert_eq!(TextTrait::get_text(&l), "second");
    assert_eq!(l.text_size, (12, 6));
}

#[test]
fn frame_is_a_one_child_container() {
    let mut f = Frame::new("demo", 10, 10, false);
    assert_eq!(ContainerTrait::child_count(&f), 0);
    f.set_child(AnyWidget::Empty(Empty::new()));
    assert_eq!(ContainerTrait::child_count(&f), 1);
}
