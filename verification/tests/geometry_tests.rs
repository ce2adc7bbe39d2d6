use guikit::geometry::{coord_add, coord_sub, extent_add, i64_sat_add, i64_sat_sub, Rect};

#[test]
fn rect_new_stores_fields() {
    let r = Rect::new(3, -4, 10, 20);
    assert_eq!(r.x, 3);
    assert_eq!(r.y, -4);
    assert_eq!(r.w, 10);
    assert_eq!(r.h, 20);
}

#[test]
fn contains_is_half_open() {
    let r = Rect::new(10, 10, 5, 5);
    assert!(r.contains((10, 10)));
    assert!(r.contains((14, 14)));
    assert!(!r.contains((15, 10)));
    assert!(!r.contains((10, 15)));
    assert!(!r.contains((9, 10)));
}

#[test]
fn contains_empty_rect_holds_nothing() {
    let r = Rect::new(0, 0, 0, 0);
    assert!(!r.contains((0, 0)));
}

#[test]
fn center_rounds_toward_origin() {
    let r = Rect::new(0, 0, 5, 5);
    assert_eq!(r.center(), (2, 2));
    let r2 = Rect::new(10, 20, 4, 6);
    assert_eq!(r2.center(), (12, 23));
}

#[test]
fn from_center_matches_center() {
    let r = Rect::from_center((50, 25), 10, 10);
    assert_eq!(r, Rect::new(45, 20, 10, 10));
}

#[test]
fn coord_arithmetic_saturates() {
    assert_eq!(coord_add(i32::MAX - 1, 10), i32::MAX);
    assert_eq!(coord_add(5, 7), 12);
    assert_eq!(coord_sub(i32::MIN + 1, 10), i32::MIN);
    assert_eq!(coord_sub(5, 7), -2);
    assert_eq!(extent_add(u32::MAX - 1, 10), u32::MAX);
    assert_eq!(extent_add(5, 7), 12);
    assert_eq!(i64_sat_add(i64::MAX, 1), i64::MAX);
    assert_eq!(i64_sat_sub(i64::MIN, 1), i64::MIN);
    assert_eq!(i64_sat_add(2, 3), 5);
}
