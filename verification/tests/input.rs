use remote_client::input::{
    activate_os, check_scroll_on_mac, input_os_password, mask, push_modifiers, send_mouse,
    send_pointer_device_event, ControlKey, InputStep, Key, KeyData, PointerDeviceEvent,
    TouchEvent, MOUSE_BUTTON_LEFT, MOUSE_BUTTON_RIGHT, MOUSE_BUTTON_WHEEL, MOUSE_TYPE_DOWN,
    MOUSE_TYPE_TRACKPAD, MOUSE_TYPE_UP, MOUSE_TYPE_WHEEL,
};

fn mouse(step: &InputStep) -> (i32, i32, i32) {
    match step {
        InputStep::Mouse(e) => {
            assert!(e.modifiers.is_empty());
            (e.mask, e.x, e.y)
        }
        other => panic!("unexpected {:?}", other),
    }
}

fn sleep(step: &InputStep) -> u64 {
    match step {
        InputStep::Sleep(ms) => *ms,
        other => panic!("unexpected {:?}", other),
    }
}

#[test]
fn masks_pack_buttons_above_type() {
    assert_eq!(mask(MOUSE_BUTTON_LEFT, MOUSE_TYPE_DOWN), 9);
    assert_eq!(mask(MOUSE_BUTTON_LEFT, MOUSE_TYPE_UP), 10);
    assert_eq!(mask(MOUSE_BUTTON_RIGHT, MOUSE_TYPE_DOWN), 17);
    assert_eq!(mask(MOUSE_BUTTON_RIGHT, MOUSE_TYPE_UP), 18);
    assert_eq!(mask(MOUSE_BUTTON_WHEEL, MOUSE_TYPE_DOWN), 33);
    assert_eq!(mask(0, MOUSE_TYPE_WHEEL), 3);
    assert_eq!(mask(0, MOUSE_TYPE_TRACKPAD), 4);
}

#[test]
fn modifiers_come_in_fixed_order() {
    let e = send_mouse(9, 10, 20, true, true, true, true, false);
    assert_eq!(e.modifiers, vec![ControlKey::Alt, ControlKey::Shift, ControlKey::Control, ControlKey::Meta]);
    assert_eq!((e.mask, e.x, e.y), (9, 10, 20));
    let e = send_mouse(9, 10, 20, false, true, false, true, false);
    assert_eq!(e.modifiers, vec![ControlKey::Control, ControlKey::Meta]);
    let e = send_mouse(9, -5, 7, false, false, false, false, false);
    assert!(e.modifiers.is_empty());
    assert_eq!((e.x, e.y), (-5, 7));
    let mut keys = vec![ControlKey::Tab];
    push_modifiers(&mut keys, false, false, true, false);
    assert_eq!(keys, vec![ControlKey::Tab, ControlKey::Shift]);
}

#[test]
fn trackpad_events_are_scrolls() {
    assert!(check_scroll_on_mac(MOUSE_TYPE_TRACKPAD, 0, 0));
    assert!(check_scroll_on_mac((5 << 3) | MOUSE_TYPE_TRACKPAD, 0, 0));
    assert!(!check_scroll_on_mac(mask(MOUSE_BUTTON_LEFT, MOUSE_TYPE_DOWN), 1, 1));
    assert!(!check_scroll_on_mac(mask(MOUSE_BUTTON_LEFT, MOUSE_TYPE_UP), 1, 1));
    assert!(!check_scroll_on_mac(0, 1, 1));
}

#[test]
fn wheel_sentinels_are_wheel_events() {
    let wheel = |btn: i32| (btn << 3) | MOUSE_TYPE_WHEEL;
    assert!(!check_scroll_on_mac(wheel(0xff88), 0, -1));
    assert!(!check_scroll_on_mac(wheel(-0x780000), 0, -1));
    assert!(check_scroll_on_mac(wheel(0x78), 0, -1));
    assert!(check_scroll_on_mac(wheel(0), 0, -1));
    assert!(!check_scroll_on_mac(wheel(0x78), 0, 1));
    assert!(!check_scroll_on_mac(wheel(0x780000), 0, 1));
    assert!(check_scroll_on_mac(wheel(0xff88), 0, 1));
    assert!(check_scroll_on_mac(wheel(0), 0, 1));
    // Other deltas: a wheel never scrolls sideways.
    assert!(check_scroll_on_mac(wheel(0), 1, 0));
    assert!(check_scroll_on_mac(wheel(0), -3, 5));
    assert!(!check_scroll_on_mac(wheel(0), 0, 0));
    assert!(!check_scroll_on_mac(wheel(0), 0, 5));
}

#[test]
fn mac_rule_rewrites_trackpad_scrolls() {
    let wheel = (0x10 << 3) | MOUSE_TYPE_WHEEL;
    let e = send_mouse(wheel, 2, -1, false, false, true, false, true);
    assert_eq!((e.mask, e.x, e.y), (MOUSE_TYPE_TRACKPAD, 6, -3));
    assert_eq!(e.modifiers, vec![ControlKey::Shift]);
    // Without the rule the event goes out as it came.
    let e = send_mouse(wheel, 2, -1, false, false, false, false, false);
    assert_eq!((e.mask, e.x, e.y), (wheel, 2, -1));
    // A wheel sentinel stays a wheel event under the rule.
    let sentinel = (0xff88 << 3) | MOUSE_TYPE_WHEEL;
    let e = send_mouse(sentinel, 0, -1, false, false, false, false, true);
    assert_eq!((e.mask, e.x, e.y), (sentinel, 0, -1));
    let e = send_mouse(9, 100, 200, false, false, false, false, true);
    assert_eq!((e.mask, e.x, e.y), (9, 100, 200));
}

#[test]
fn pointer_events_get_modifiers_appended() {
    let evt = PointerDeviceEvent { touch: Some(TouchEvent::PanStart { x: 1, y: 2 }), modifiers: vec![ControlKey::Meta] };
    let r = send_pointer_device_event(evt, true, false, true, false);
    assert_eq!(r.touch, Some(TouchEvent::PanStart { x: 1, y: 2 }));
    assert_eq!(r.modifiers, vec![ControlKey::Meta, ControlKey::Alt, ControlKey::Shift]);
    let evt = PointerDeviceEvent { touch: None, modifiers: vec![] };
    assert!(send_pointer_device_event(evt, false, false, false, false).modifiers.is_empty());
}

#[test]
fn activation_with_left_click() {
    let steps = activate_os(true);
    assert_eq!(steps.len(), 8);
    assert_eq!(mouse(&steps[0]), (10, 0, 0));
    assert_eq!(sleep(&steps[1]), 50);
    assert_eq!(mouse(&steps[2]), (0, 0, 0));
    assert_eq!(sleep(&steps[3]), 50);
    assert_eq!(mouse(&steps[4]), (0, 3, 3));
    assert_eq!(sleep(&steps[5]), 50);
    assert_eq!(mouse(&steps[6]), (9, 0, 0));
    assert_eq!(mouse(&steps[7]), (10, 0, 0));
}

#[test]
fn activation_with_right_click() {
    let steps = activate_os(false);
    assert_eq!(steps.len(), 8);
    assert_eq!(mouse(&steps[0]), (10, 0, 0));
    assert_eq!(mouse(&steps[6]), (17, 0, 0));
    assert_eq!(mouse(&steps[7]), (18, 0, 0));
}

#[test]
fn os_password_is_typed_after_activation() {
    let steps = input_os_password("secret".to_owned(), true);
    assert_eq!(steps.len(), 11);
    assert_eq!(mouse(&steps[6]), (9, 0, 0));
    assert_eq!(sleep(&steps[8]), 1200);
    match &steps[9] {
        InputStep::Key(e) => {
            assert!(e.press && !e.down && e.modifiers.is_empty());
            assert!(matches!(&e.data, KeyData::Text(t) if t == "secret"));
        }
        other => panic!("unexpected {:?}", other),
    }
    match &steps[10] {
        InputStep::Key(e) => {
            assert!(e.press && !e.down && e.modifiers.is_empty());
            assert!(matches!(e.data, KeyData::ControlKey(ControlKey::Return)));
        }
        other => panic!("unexpected {:?}", other),
    }
}

#[test]
fn os_password_without_activation() {
    let steps = input_os_password("pw".to_owned(), false);
    assert_eq!(steps.len(), 2);
    assert!(matches!(&steps[0], InputStep::Key(e) if matches!(&e.data, KeyData::Text(t) if t == "pw")));
    assert!(matches!(&steps[1], InputStep::Key(e) if matches!(e.data, KeyData::ControlKey(ControlKey::Return))));
}

#[test]
fn empty_os_password_dismisses_with_a_right_click() {
    let steps = input_os_password(String::new(), true);
    assert_eq!(steps.len(), 9);
    assert_eq!(mouse(&steps[6]), (17, 0, 0));
    assert_eq!(mouse(&steps[7]), (18, 0, 0));
    assert_eq!(sleep(&steps[8]), 1200);
    assert!(input_os_password(String::new(), false).is_empty());
}

#[test]
fn key_codes_compare() {
    assert_eq!(Key::Chr('a' as u32), Key::Chr(97));
    assert_ne!(Key::Chr(97), Key::_Raw(97));
    assert_eq!(Key::ControlKey(ControlKey::F1), Key::ControlKey(ControlKey::F1));
}
