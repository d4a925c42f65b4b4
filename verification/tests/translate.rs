use rdev::translate::is_mouse_message;
use rdev::translate::translate;
use rdev::translate::RawEvent;
use rdev::Button;
use rdev::EventType;
use rdev::Key;

fn raw(message: u32) -> RawEvent {
    RawEvent {
        message,
        key_code: 0,
        scan_code: 0,
        x: 0,
        y: 0,
        wheel_delta: 0,
        aux_button: 0,
    }
}

#[test]
fn key_messages_translate() {
    let mut r = raw(256);
    r.key_code = 65;
    assert_eq!(translate(&r), Some(EventType::KeyPress(Key::KeyA)));
    r.message = 257;
    assert_eq!(translate(&r), Some(EventType::KeyRelease(Key::KeyA)));
    r.message = 260;
    assert_eq!(translate(&r), Some(EventType::KeyPress(Key::KeyA)));
    r.message = 261;
    assert_eq!(translate(&r), Some(EventType::KeyRelease(Key::KeyA)));
}

#[test]
fn unknown_key_code_translates_to_unknown_key() {
    let mut r = raw(256);
    r.key_code = 7;
    assert_eq!(translate(&r), Some(EventType::KeyPress(Key::Unknown(7))));
}

#[test]
fn button_messages_translate() {
    assert_eq!(translate(&raw(513)), Some(EventType::ButtonPress(Button::Left)));
    assert_eq!(translate(&raw(514)), Some(EventType::ButtonRelease(Button::Left)));
    assert_eq!(translate(&raw(516)), Some(EventType::ButtonPress(Button::Right)));
    assert_eq!(translate(&raw(517)), Some(EventType::ButtonRelease(Button::Right)));
    assert_eq!(translate(&raw(519)), Some(EventType::ButtonPress(Button::Middle)));
    assert_eq!(translate(&raw(520)), Some(EventType::ButtonRelease(Button::Middle)));
}

#[test]
fn extra_buttons_carry_their_number() {
    let mut r = raw(523);
    r.aux_button = 2;
    assert_eq!(translate(&r), Some(EventType::ButtonPress(Button::Unknown(2))));
    r.message = 524;
    assert_eq!(translate(&r), Some(EventType::ButtonRelease(Button::Unknown(2))));
}

#[test]
fn mouse_move_translates() {
    let mut r = raw(512);
    r.x = -4;
    r.y = 1080;
    assert_eq!(translate(&r), Some(EventType::MouseMove { x: -4, y: 1080 }));
}

#[test]
fn wheel_messages_translate() {
    let mut r = raw(522);
    r.wheel_delta = -120;
    assert_eq!(translate(&r), Some(EventType::Wheel { delta_x: 0, delta_y: -120 }));
    r.message = 526;
    r.wheel_delta = 240;
    assert_eq!(translate(&r), Some(EventType::Wheel { delta_x: 240, delta_y: 0 }));
}

#[test]
fn bookkeeping_messages_translate_to_none() {
    assert_eq!(translate(&raw(0)), None);
    assert_eq!(translate(&raw(258)), None);
    assert_eq!(translate(&raw(15)), None);
    assert_eq!(translate(&raw(527)), None);
}

#[test]
fn mouse_message_range() {
    assert!(!is_mouse_message(256));
    assert!(!is_mouse_message(511));
    assert!(is_mouse_message(512));
    assert!(is_mouse_message(522));
    assert!(is_mouse_message(526));
    assert!(!is_mouse_message(527));
}
