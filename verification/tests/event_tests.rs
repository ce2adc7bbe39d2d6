use guikit::enums::ButtonState;
use guikit::event::{Event, MouseButton};
use guikit::geometry::Rect;
use guikit::signal::Signal;
use guikit::widgets::{AnyWidget, Button, HBox, HScrollBar};

fn pressed_button() -> Button {
    let mut b = Button::new();
    b.on_clicked(7);
    let mut w = AnyWidget::Button(b);
    w.alloc_rect(Rect::new(0, 0, 50, 20));
    let sigs = w.event_handler(&Event::ButtonDown((10, 10), MouseButton::Left));
    assert_eq!(sigs, vec![Signal::Redraw]);
    match w {
        AnyWidget::Button(b2) => b2,
        _ => unreachable!(),
    }
}

#[test]
fn click_inside_then_release_fires_once() {
    let b = pressed_button();
    assert_eq!(b.state, ButtonState::Pressed);
    let mut w = AnyWidget::Button(b);
    // The release may land anywhere; the position is not re-checked.
    let sigs = w.event_handler(&Event::ButtonUp((1000, 1000), MouseButton::Left));
    assert_eq!(sigs, vec![Signal::Clicked(7), Signal::Redraw]);
    let clicks = sigs.iter().filter(|s| matches!(s, Signal::Clicked(_))).count();
    assert_eq!(clicks, 1);
    match w {
        AnyWidget::Button(b2) => assert_eq!(b2.state, ButtonState::Idle),
        _ => unreachable!(),
    }
}

#[test]
fn press_outside_never_arms() {
    let mut b = Button::new();
    b.on_clicked(7);
    let mut w = AnyWidget::Button(b);
    w.alloc_rect(Rect::new(0, 0, 50, 20));
    let sigs = w.event_handler(&Event::ButtonDown((60, 10), MouseButton::Left));
    assert_eq!(sigs, vec![]);
    let sigs2 = w.event_handler(&Event::ButtonUp((10, 10), MouseButton::Left));
    assert_eq!(sigs2, vec![]);
}

#[test]
fn focus_lost_suppresses_pending_click() {
    let b = pressed_button();
    let mut w = AnyWidget::Button(b);
    let sigs = w.event_handler(&Event::WindowFocusLost);
    assert_eq!(sigs, vec![Signal::Redraw]);
    let sigs2 = w.event_handler(&Event::ButtonUp((10, 10), MouseButton::Left));
    assert_eq!(sigs2, vec![]);
}

#[test]
fn release_without_callback_still_redraws() {
    let mut w = AnyWidget::Button(Button::new());
    w.alloc_rect(Rect::new(0, 0, 50, 20));
    let _ = w.event_handler(&Event::ButtonDown((10, 10), MouseButton::Left));
    let sigs = w.event_handler(&Event::ButtonUp((10, 10), MouseButton::Left));
    assert_eq!(sigs, vec![Signal::Redraw]);
}

#[test]
fn right_button_is_ignored() {
    let mut b = Button::new();
    b.on_clicked(7);
    let mut w = AnyWidget::Button(b);
    w.alloc_rect(Rect::new(0, 0, 50, 20));
    let sigs = w.event_handler(&Event::ButtonDown((10, 10), MouseButton::Right));
    assert_eq!(sigs, vec![]);
}

#[test]
fn boxes_forward_events_to_children() {
    let mut b = Button::new();
    b.on_clicked(9);
    let mut hbox = HBox::new();
    hbox.pack(AnyWidget::Button(b), false);
    let mut w = AnyWidget::HBox(hbox);
    let mut out = Vec::new();
    w.alloc_rect(Rect::new(0, 0, 100, 20));
    w.render(None, &mut out);
    let sigs = w.event_handler(&Event::ButtonDown((1, 1), MouseButton::Left));
    assert_eq!(sigs, vec![Signal::Redraw]);
    let sigs2 = w.event_handler(&Event::ButtonUp((1, 1), MouseButton::Left));
    assert_eq!(sigs2, vec![Signal::Clicked(9), Signal::Redraw]);
}

#[test]
fn unallocated_button_rejects_left_press() {
    let w = AnyWidget::Button(Button::new());
    assert!(!w.can_handle_event(&Event::ButtonDown((0, 0), MouseButton::Left)));
    assert!(w.can_handle_event(&Event::WindowFocusLost));
}

#[test]
fn set_value_clamps_into_range() {
    let mut s = HScrollBar::new();
    assert_eq!(s.get_lower(), 0);
    assert_eq!(s.get_upper(), 100);
    assert_eq!(s.get_value(), 0);
    let sig = s.set_value(150);
    assert_eq!(s.get_value(), 100);
    assert_eq!(sig, None);
    let sig2 = s.set_value(-5);
    assert_eq!(s.get_value(), 0);
    assert_eq!(sig2, None);
    let sig3 = s.set_value(42);
    assert_eq!(s.get_value(), 42);
    assert_eq!(sig3, None);
}

#[test]
fn set_value_fires_registered_callback() {
    let mut s = HScrollBar::new();
    s.on_value_changed(3);
    let sig = s.set_value(-5);
    assert_eq!(sig, Some(Signal::ValueChanged(3, 0)));
}

#[test]
fn step_down_then_up_round_trips_away_from_bounds() {
    let mut s = HScrollBar::new();
    let _ = s.set_value(50);
    let _ = s.step_dec_value();
    assert_eq!(s.get_value(), 40);
    let _ = s.step_inc_value();
    assert_eq!(s.get_value(), 50);
}

#[test]
fn step_round_trip_breaks_at_a_boundary() {
    // From the lower bound, stepping down clamps, so stepping back up does
    // not return to the original value.
    let mut s = HScrollBar::new();
    let _ = s.step_dec_value();
    assert_eq!(s.get_value(), 0);
    let _ = s.step_inc_value();
    assert_eq!(s.get_value(), 10);
}

#[test]
fn scrollbar_arrows_step_the_value() {
    let mut s = HScrollBar::new();
    s.on_value_changed(4);
    let _ = s.set_value(50);
    let mut w = AnyWidget::HScrollBar(s);
    w.alloc_rect(Rect::new(0, 0, 100, 20));
    // The left arrow box is an 18-pixel square at the bar's left end.
    let sigs = w.event_handler(&Event::ButtonDown((5, 5), MouseButton::Left));
    assert_eq!(sigs, vec![Signal::ValueChanged(4, 40), Signal::Redraw]);
    // The right arrow box starts at x + w - 20 + 2 = 82.
    let sigs2 = w.event_handler(&Event::ButtonDown((90, 5), MouseButton::Left));
    assert_eq!(sigs2, vec![Signal::ValueChanged(4, 50), Signal::Redraw]);
    // A press on the track between the arrows changes nothing.
    let sigs3 = w.event_handler(&Event::ButtonDown((50, 5), MouseButton::Left));
    assert_eq!(sigs3, vec![]);
}

#[test]
fn scrollbar_requested_size_is_twice_the_bar() {
    let w = AnyWidget::HScrollBar(HScrollBar::new());
    assert_eq!(w.requested_size(), Some((40, 20)));
}
