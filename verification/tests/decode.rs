use glapp::events::{decode_mouse, MouseButton, MouseKind, NativeButton, TOUCH_MOUSE_ID};

#[test]
fn touch_sentinel_is_touch_unknown_despite_right() {
    let (kind, button) = decode_mouse(TOUCH_MOUSE_ID, NativeButton::Right);
    assert_eq!(kind, MouseKind::Touch);
    assert_eq!(button, MouseButton::Unknown);
}

#[test]
fn touch_sentinel_is_touch_unknown_despite_left() {
    let (kind, button) = decode_mouse(TOUCH_MOUSE_ID, NativeButton::Left);
    assert_eq!(kind, MouseKind::Touch);
    assert_eq!(button, MouseButton::Unknown);
}

#[test]
fn plain_device_right_is_mouse_right() {
    let (kind, button) = decode_mouse(7, NativeButton::Right);
    assert_eq!(kind, MouseKind::Mouse);
    assert_eq!(button, MouseButton::Right);
}

#[test]
fn plain_device_left_is_mouse_left() {
    let (kind, button) = decode_mouse(0, NativeButton::Left);
    assert_eq!(kind, MouseKind::Mouse);
    assert_eq!(button, MouseButton::Left);
}

#[test]
fn plain_device_other_codes_are_mouse_unknown() {
    for b in [NativeButton::Unknown, NativeButton::Middle, NativeButton::X1, NativeButton::X2] {
        let (kind, button) = decode_mouse(1, b);
        assert_eq!(kind, MouseKind::Mouse);
        assert_eq!(button, MouseButton::Unknown);
    }
}

#[test]
fn almost_sentinel_device_is_still_mouse() {
    let (kind, button) = decode_mouse(TOUCH_MOUSE_ID - 1, NativeButton::Unknown);
    assert_eq!(kind, MouseKind::Mouse);
    assert_eq!(button, MouseButton::Unknown);
}
