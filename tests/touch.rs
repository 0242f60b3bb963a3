use twatch_core::touch::{touch_point_from, RawTouch, RawTouchKind, TouchEvent, TouchPoint};

fn at(x: u16, y: u16) -> TouchPoint {
    TouchPoint { x, y, event: TouchEvent::Press }
}

#[test]
fn button1_region_bounds() {
    assert!(at(0, 0).on_button1());
    assert!(at(99, 99).on_button1());
    assert!(!at(100, 50).on_button1());
    assert!(!at(50, 100).on_button1());
}

#[test]
fn button2_region_bounds() {
    assert!(at(141, 0).on_button2());
    assert!(at(239, 99).on_button2());
    assert!(!at(140, 50).on_button2());
    assert!(!at(200, 100).on_button2());
}

#[test]
fn back_region_bounds() {
    assert!(at(10, 201).on_back());
    assert!(at(0, 239).on_back());
    assert!(!at(10, 200).on_back());
    assert!(!at(10, 10).on_back());
}

#[test]
fn decode_maps_each_report_kind() {
    let raw = |kind| Some(RawTouch { kind, x: 12, y: 34 });
    assert_eq!(touch_point_from(raw(RawTouchKind::Press)), Some(TouchPoint { x: 12, y: 34, event: TouchEvent::Press }));
    assert_eq!(touch_point_from(raw(RawTouchKind::Release)), Some(TouchPoint { x: 12, y: 34, event: TouchEvent::Release }));
    assert_eq!(touch_point_from(raw(RawTouchKind::Contact)), Some(TouchPoint { x: 12, y: 34, event: TouchEvent::Move }));
    assert_eq!(touch_point_from(raw(RawTouchKind::Invalid)), None);
    assert_eq!(touch_point_from(None), None);
}
