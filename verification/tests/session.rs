use rdev::session::Session;
use rdev::translate::RawEvent;
use rdev::Button;
use rdev::Event;
use rdev::EventType;
use rdev::HookError;
use rdev::Key;
use rdev::ListenError;

fn key_raw(message: u32, key_code: u32, scan_code: u32) -> RawEvent {
    RawEvent {
        message,
        key_code,
        scan_code,
        x: 0,
        y: 0,
        wheel_delta: 0,
        aux_button: 0,
    }
}

fn mouse_raw(message: u32) -> RawEvent {
    RawEvent {
        message,
        key_code: 0,
        scan_code: 0,
        x: 10,
        y: 20,
        wheel_delta: 0,
        aux_button: 0,
    }
}

const HC_ACTION: i32 = 0;

fn full_session() -> Session {
    let mut s = Session::new(false);
    s.set_callback();
    assert!(s.on_keyboard_hook_result(Ok(1)).is_ok());
    let (out, rollback) = s.on_mouse_hook_result(Ok(2));
    assert!(out.is_ok());
    assert_eq!(rollback, None);
    s
}

#[test]
fn listen_error_from_hook_error() {
    assert_eq!(ListenError::from(HookError::Mouse(3)), ListenError::MouseHookError(3));
    assert_eq!(ListenError::from(HookError::Key(4)), ListenError::KeyHookError(4));
}

#[test]
fn keyboard_hook_failure_reports_code() {
    let mut s = Session::new(false);
    s.set_callback();
    let out = s.on_keyboard_hook_result(Err(1404));
    assert_eq!(out, Err(ListenError::KeyHookError(1404)));
    assert_eq!(s.keyboard_hook, None);
    assert_eq!(s.mouse_hook, None);
}

#[test]
fn mouse_hook_failure_rolls_back_keyboard_hook() {
    let mut s = Session::new(false);
    s.set_callback();
    assert!(s.on_keyboard_hook_result(Ok(7)).is_ok());
    assert_eq!(s.keyboard_hook, Some(7));
    let (out, rollback) = s.on_mouse_hook_result(Err(5));
    assert_eq!(out, Err(ListenError::MouseHookError(5)));
    assert_eq!(rollback, Some(7));
    assert_eq!(s.keyboard_hook, None);
    assert_eq!(s.mouse_hook, None);
    // After the rollback no further keyboard event is delivered.
    let delivered = s.dispatch_raw(HC_ACTION, &key_raw(256, 65, 30), 100);
    assert!(delivered.is_none());
}

#[test]
fn keyboard_only_suppresses_mouse_events() {
    let mut s = Session::new(true);
    s.set_callback();
    assert!(s.on_keyboard_hook_result(Ok(1)).is_ok());
    assert!(!s.needs_mouse_hook());
    assert_eq!(s.mouse_hook, None);
    // Mouse-originated raw events: zero deliveries.
    assert!(s.dispatch_raw(HC_ACTION, &mouse_raw(513), 50).is_none());
    assert!(s.dispatch_raw(HC_ACTION, &mouse_raw(512), 60).is_none());
    assert!(s.dispatch_raw(HC_ACTION, &mouse_raw(522), 70).is_none());
    // A keyboard-originated one: exactly one delivery.
    let delivered = s.dispatch_raw(HC_ACTION, &key_raw(256, 65, 30), 80);
    assert!(delivered.is_some());
    assert_eq!(delivered.unwrap().event_type, EventType::KeyPress(Key::KeyA));
}

#[test]
fn delivered_event_preserves_raw_codes() {
    let mut s = full_session();
    let delivered = s.dispatch_raw(HC_ACTION, &key_raw(256, 300, 999), 10);
    let event: Event = delivered.unwrap();
    assert_eq!(event.platform_code, 300);
    assert_eq!(event.scan_code, 999);
    assert_eq!(event.event_type, EventType::KeyPress(Key::Unknown(300)));
    assert_eq!(event.time, 10);
    assert_eq!(event.name, None);
}

#[test]
fn delivered_times_never_decrease() {
    let mut s = full_session();
    let e1 = s.dispatch_raw(HC_ACTION, &key_raw(256, 65, 30), 100).unwrap();
    assert_eq!(e1.time, 100);
    // The clock stepping backwards does not drag delivered timestamps back.
    let e2 = s.dispatch_raw(HC_ACTION, &key_raw(257, 65, 30), 40).unwrap();
    assert_eq!(e2.time, 100);
    let e3 = s.dispatch_raw(HC_ACTION, &mouse_raw(513), 250).unwrap();
    assert_eq!(e3.time, 250);
    assert!(e1.time <= e2.time && e2.time <= e3.time);
}

#[test]
fn no_callback_means_no_delivery() {
    let mut s = Session::new(false);
    assert!(s.on_keyboard_hook_result(Ok(1)).is_ok());
    let (out, _) = s.on_mouse_hook_result(Ok(2));
    assert!(out.is_ok());
    assert!(s.dispatch_raw(HC_ACTION, &key_raw(256, 65, 30), 5).is_none());
}

#[test]
fn non_action_codes_are_forwarded_untranslated() {
    let mut s = full_session();
    assert!(s.dispatch_raw(3, &key_raw(256, 65, 30), 5).is_none());
    assert!(s.dispatch_raw(-1, &key_raw(256, 65, 30), 5).is_none());
}

#[test]
fn bookkeeping_messages_deliver_nothing() {
    let mut s = full_session();
    assert!(s.dispatch_raw(HC_ACTION, &key_raw(258, 65, 30), 5).is_none());
}

#[test]
fn extra_button_events_deliver() {
    let mut s = full_session();
    let mut r = mouse_raw(523);
    r.aux_button = 1;
    let delivered = s.dispatch_raw(HC_ACTION, &r, 5).unwrap();
    assert_eq!(delivered.event_type, EventType::ButtonPress(Button::Unknown(1)));
}

#[test]
fn end_to_end_press_then_release() {
    let mut s = full_session();
    let mut observed: Vec<Event> = Vec::new();
    // The simulated injection: a press of A, then its release, as the
    // operating system would raise them on the hook thread.
    let steps = [key_raw(256, 65, 30), key_raw(257, 65, 30)];
    let mut now: u64 = 1000;
    for raw in steps.iter() {
        if let Some(event) = s.dispatch_raw(HC_ACTION, raw, now) {
            observed.push(event);
        }
        now += 1;
    }
    assert_eq!(observed.len(), 2);
    assert_eq!(observed[0].event_type, EventType::KeyPress(Key::KeyA));
    assert_eq!(observed[1].event_type, EventType::KeyRelease(Key::KeyA));
    assert!(observed[0].time <= observed[1].time);
}
