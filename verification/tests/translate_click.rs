use evdev::{EventSummary, EventType, InputEvent, KeyCode};
use joycon2click::clicker::{
    Clicker, CreationFailure, KeyEvent, KEY_LEFT, KEY_RIGHT, PRESSED, RELEASED,
};
use joycon2click::translate::{
    ButtonAction, Click, InputReport, KeyMapping, BTN_DPAD_LEFT, BTN_DPAD_RIGHT, BTN_EAST, BTN_TL,
    BTN_TL2, BTN_TR, BTN_TR2, BTN_WEST, EV_KEY, KEY_DOWN,
};

fn key(code: u16, value: i32) -> InputReport {
    InputReport { event_type: EV_KEY, code, value }
}

const LEFT_BUTTONS: [u16; 2] = [BTN_DPAD_LEFT, BTN_WEST];
const RIGHT_BUTTONS: [u16; 6] = [BTN_TR, BTN_TL, BTN_TR2, BTN_TL2, BTN_DPAD_RIGHT, BTN_EAST];

#[test]
fn codes_agree_with_the_outside_crate() {
    assert_eq!(EV_KEY, EventType::KEY.0);
    assert_eq!(KEY_LEFT, KeyCode::KEY_LEFT.code());
    assert_eq!(KEY_RIGHT, KeyCode::KEY_RIGHT.code());
    assert_eq!(BTN_DPAD_LEFT, KeyCode::BTN_DPAD_LEFT.code());
    assert_eq!(BTN_DPAD_RIGHT, KeyCode::BTN_DPAD_RIGHT.code());
    assert_eq!(BTN_WEST, KeyCode::BTN_WEST.code());
    assert_eq!(BTN_EAST, KeyCode::BTN_EAST.code());
    assert_eq!(BTN_TL, KeyCode::BTN_TL.code());
    assert_eq!(BTN_TR, KeyCode::BTN_TR.code());
    assert_eq!(BTN_TL2, KeyCode::BTN_TL2.code());
    assert_eq!(BTN_TR2, KeyCode::BTN_TR2.code());
    assert_eq!(KEY_DOWN, 1);
    assert_eq!(PRESSED, 1);
    assert_eq!(RELEASED, 0);
}

#[test]
fn a_key_going_down_is_what_the_outside_crate_calls_one() {
    for event_type in 0..=0x20u16 {
        for value in [-1, 0, 1, 2] {
            let report = InputReport { event_type, code: BTN_WEST, value };
            let summary = InputEvent::new(event_type, BTN_WEST, value).destructure();
            let theirs = matches!(summary, EventSummary::Key(_, _, 1));
            assert_eq!(KeyMapping::joycon().click(&report).is_some(), theirs);
        }
    }
}

#[test]
fn the_mapping_of_the_controllers() {
    let mapping = KeyMapping::joycon();
    assert_eq!(mapping.left, LEFT_BUTTONS.to_vec());
    assert_eq!(mapping.right, RIGHT_BUTTONS.to_vec());
    for code in LEFT_BUTTONS {
        assert_eq!(mapping.action(code), ButtonAction::PressLeft);
    }
    for code in RIGHT_BUTTONS {
        assert_eq!(mapping.action(code), ButtonAction::PressRight);
    }
    for code in [0, 1, KEY_LEFT, KEY_RIGHT, 0x130, 0x133, 0x135, 0x13a, 0x220, 0x221, 0x224, u16::MAX] {
        assert_eq!(mapping.action(code), ButtonAction::Ignore);
    }
}

#[test]
fn a_button_on_both_sides_clicks_left() {
    let mapping = KeyMapping { left: vec![5, 6], right: vec![6, 7] };
    assert_eq!(mapping.action(5), ButtonAction::PressLeft);
    assert_eq!(mapping.action(6), ButtonAction::PressLeft);
    assert_eq!(mapping.action(7), ButtonAction::PressRight);
    assert_eq!(mapping.action(8), ButtonAction::Ignore);
}

#[test]
fn an_empty_mapping_ignores_everything() {
    let mapping = KeyMapping { left: vec![], right: vec![] };
    assert_eq!(mapping.click(&key(BTN_WEST, 1)), None);
    assert_eq!(mapping.clicks(&vec![key(BTN_WEST, 1), key(BTN_EAST, 1)]), vec![]);
}

#[test]
fn releases_and_repeats_click_nothing() {
    let mapping = KeyMapping::joycon();
    for code in LEFT_BUTTONS.iter().chain(RIGHT_BUTTONS.iter()) {
        for value in [0, 2, 3, -1, i32::MAX, i32::MIN] {
            assert_eq!(mapping.click(&key(*code, value)), None);
        }
    }
}

#[test]
fn reports_of_other_kinds_click_nothing() {
    let mapping = KeyMapping::joycon();
    // A sync marker, a relative and an absolute axis, each with the code of
    // a button and the value of a press.
    for event_type in [0u16, 2, 3, 4, 0x11, 0x15, u16::MAX] {
        for code in LEFT_BUTTONS.iter().chain(RIGHT_BUTTONS.iter()) {
            assert_eq!(mapping.click(&InputReport { event_type, code: *code, value: 1 }), None);
        }
    }
}

#[test]
fn each_left_button_clicks_left_once() {
    let mapping = KeyMapping::joycon();
    let clicker = Clicker::new(7);
    for code in LEFT_BUTTONS {
        assert_eq!(mapping.click(&key(code, 1)), Some(Click::Left));
        let clicks = mapping.clicks(&vec![key(code, 1)]);
        assert_eq!(clicks, vec![Click::Left]);
        assert_eq!(
            clicker.press(clicks[0]),
            [KeyEvent { code: 105, value: 1 }, KeyEvent { code: 105, value: 0 }]
        );
    }
}

#[test]
fn a_right_button_clicks_right_down_then_up() {
    let mapping = KeyMapping::joycon();
    let clicker = Clicker::new(7);
    let clicks = mapping.clicks(&vec![key(BTN_EAST, 1)]);
    assert_eq!(clicks, vec![Click::Right]);
    let events: Vec<KeyEvent> = clicks.iter().flat_map(|c| clicker.press(*c)).collect();
    assert_eq!(events, vec![KeyEvent { code: 106, value: 1 }, KeyEvent { code: 106, value: 0 }]);
}

#[test]
fn a_batch_keeps_its_order_and_drops_the_rest() {
    let mapping = KeyMapping::joycon();
    let batch = vec![
        key(BTN_WEST, 1),
        InputReport { event_type: 0, code: 0, value: 0 },
        key(BTN_WEST, 0),
        key(BTN_TR, 1),
        key(0x130, 1),
        key(BTN_TR, 2),
        InputReport { event_type: 3, code: 0, value: 1 },
        key(BTN_DPAD_RIGHT, 1),
        key(BTN_DPAD_LEFT, 1),
        key(BTN_TR, 0),
    ];
    assert_eq!(
        mapping.clicks(&batch),
        vec![Click::Left, Click::Right, Click::Right, Click::Left]
    );
    assert_eq!(mapping.clicks(&vec![]), vec![]);
}

#[test]
fn presses_are_pairs() {
    let clicker = Clicker::new(3);
    assert_eq!(
        clicker.press_left(),
        [KeyEvent { code: KEY_LEFT, value: 1 }, KeyEvent { code: KEY_LEFT, value: 0 }]
    );
    assert_eq!(
        clicker.press_right(),
        [KeyEvent { code: KEY_RIGHT, value: 1 }, KeyEvent { code: KEY_RIGHT, value: 0 }]
    );
    assert_eq!(clicker.press(Click::Left), clicker.press_left());
    assert_eq!(clicker.press(Click::Right), clicker.press_right());
}

#[test]
fn the_keyboard_is_what_it_was_created_as() {
    assert_eq!(Clicker::new(11).get_device_fd(), 11);
    assert_eq!(Clicker::new(-1).get_device_fd(), -1);
    assert_eq!(Clicker::name(), "Joycon2click virtual keyboard");
    assert_eq!(Clicker::keys(), [105, 106]);
}

#[test]
fn a_permission_error_comes_with_a_hint() {
    assert_eq!(
        Clicker::remediation(CreationFailure::PermissionDenied),
        Some("Permission error on /dev/uinput. Check the documentation for various workarounds.")
    );
    assert_eq!(Clicker::remediation(CreationFailure::Other), None);
}

#[test]
fn a_key_going_down_is_a_key_with_value_one() {
    assert!(key(BTN_WEST, 1).key_down());
    assert!(key(0, 1).key_down());
    assert!(!key(BTN_WEST, 0).key_down());
    assert!(!key(BTN_WEST, 2).key_down());
    assert!(!InputReport { event_type: 0, code: BTN_WEST, value: 1 }.key_down());
    assert!(!InputReport { event_type: 3, code: BTN_WEST, value: 1 }.key_down());
}

#[test]
fn a_click_of_any_key_is_down_then_up() {
    let clicker = Clicker::new(3);
    assert_eq!(
        clicker.press_key(30),
        [KeyEvent { code: 30, value: 1 }, KeyEvent { code: 30, value: 0 }]
    );
    assert_eq!(clicker.press_key(KEY_LEFT), clicker.press_left());
}

#[test]
fn only_a_mapped_button_going_down_is_worth_events() {
    let mapping = KeyMapping::joycon();
    let clicker = Clicker::new(3);
    assert_eq!(
        clicker.events_for(&mapping, &key(BTN_WEST, 1)),
        vec![KeyEvent { code: 105, value: 1 }, KeyEvent { code: 105, value: 0 }]
    );
    assert_eq!(
        clicker.events_for(&mapping, &key(BTN_TR2, 1)),
        vec![KeyEvent { code: 106, value: 1 }, KeyEvent { code: 106, value: 0 }]
    );
    // A release, a repeat, a button that is not mapped, an axis, a marker.
    for report in [
        key(BTN_WEST, 0),
        key(BTN_WEST, 2),
        key(0x130, 1),
        InputReport { event_type: 3, code: BTN_WEST, value: 1 },
        InputReport { event_type: 0, code: 0, value: 0 },
    ] {
        assert_eq!(clicker.events_for(&mapping, &report), vec![]);
    }
}
