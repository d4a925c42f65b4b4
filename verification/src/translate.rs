//! Raw-to-portable event translation: turns a decoded raw hook
//! notification into the portable [`EventType`] it denotes, if any.

use vstd::prelude::*;

use crate::event::Button;
use crate::event::EventType;
use crate::keycodes::key_from_code;
use crate::keycodes::spec_key_from_code;

verus! {

/// Hook action code that marks a notification as a processable action.
pub const HC_ACTION: i32 = 0;

pub const WM_KEYDOWN: u32 = 256;
pub const WM_KEYUP: u32 = 257;
pub const WM_SYSKEYDOWN: u32 = 260;
pub const WM_SYSKEYUP: u32 = 261;
pub const WM_MOUSEMOVE: u32 = 512;
pub const WM_LBUTTONDOWN: u32 = 513;
pub const WM_LBUTTONUP: u32 = 514;
pub const WM_RBUTTONDOWN: u32 = 516;
pub const WM_RBUTTONUP: u32 = 517;
pub const WM_MBUTTONDOWN: u32 = 519;
pub const WM_MBUTTONUP: u32 = 520;
pub const WM_MOUSEWHEEL: u32 = 522;
pub const WM_XBUTTONDOWN: u32 = 523;
pub const WM_XBUTTONUP: u32 = 524;
pub const WM_MOUSEHWHEEL: u32 = 526;

/// First and last message numbers of the native mouse-message range.
pub const WM_MOUSE_FIRST: u32 = 512;
pub const WM_MOUSE_LAST: u32 = 526;

/// One raw hook notification, decoded into plain values. The platform
/// layer reads these fields out of the native hook payload before handing
/// the notification to the bridge; nothing is interpreted yet.
#[derive(Clone, Copy, Debug, PartialEq, Eq, Structural)]
pub struct RawEvent {
    /// The native window-message number that names the action.
    pub message: u32,
    /// The native virtual-key code, for keyboard messages.
    pub key_code: u32,
    /// The hardware scan code, for keyboard messages.
    pub scan_code: u32,
    /// Pointer x position, in native screen coordinates.
    pub x: i32,
    /// Pointer y position, in native screen coordinates.
    pub y: i32,
    /// Signed wheel rotation, in native wheel-delta units.
    pub wheel_delta: i32,
    /// Extra-button number, for messages about buttons beyond the basic three.
    pub aux_button: u8,
}

/// Whether a message number lies in the native mouse-message range, and so
/// is delivered through the mouse hook rather than the keyboard hook.
pub open spec fn spec_is_mouse_message(message: u32) -> bool {
    WM_MOUSE_FIRST <= message && message <= WM_MOUSE_LAST
}

/// The portable event kind that a raw notification denotes: `None` when
/// the message is bookkeeping rather than a reportable input action.
pub open spec fn spec_translate(raw: RawEvent) -> Option<EventType> {
    if raw.message == WM_KEYDOWN || raw.message == WM_SYSKEYDOWN {
        Some(EventType::KeyPress(spec_key_from_code(raw.key_code)))
    } else if raw.message == WM_KEYUP || raw.message == WM_SYSKEYUP {
        Some(EventType::KeyRelease(spec_key_from_code(raw.key_code)))
    } else if raw.message == WM_LBUTTONDOWN {
        Some(EventType::ButtonPress(Button::Left))
    } else if raw.message == WM_LBUTTONUP {
        Some(EventType::ButtonRelease(Button::Left))
    } else if raw.message == WM_RBUTTONDOWN {
        Some(EventType::ButtonPress(Button::Right))
    } else if raw.message == WM_RBUTTONUP {
        Some(EventType::ButtonRelease(Button::Right))
    } else if raw.message == WM_MBUTTONDOWN {
        Some(EventType::ButtonPress(Button::Middle))
    } else if raw.message == WM_MBUTTONUP {
        Some(EventType::ButtonRelease(Button::Middle))
    } else if raw.message == WM_XBUTTONDOWN {
        Some(EventType::ButtonPress(Button::Unknown(raw.aux_button)))
    } else if raw.message == WM_XBUTTONUP {
        Some(EventType::ButtonRelease(Button::Unknown(raw.aux_button)))
    } else if raw.message == WM_MOUSEMOVE {
        Some(EventType::MouseMove { x: raw.x, y: raw.y })
    } else if raw.message == WM_MOUSEWHEEL {
        Some(EventType::Wheel { delta_x: 0, delta_y: raw.wheel_delta })
    } else if raw.message == WM_MOUSEHWHEEL {
        Some(EventType::Wheel { delta_x: raw.wheel_delta, delta_y: 0 })
    } else {
        None
    }
}

/// Whether a message number lies in the native mouse-message range.
pub fn is_mouse_message(message: u32) -> (r: bool)
    ensures
        r == spec_is_mouse_message(message),
{
    WM_MOUSE_FIRST <= message && message <= WM_MOUSE_LAST
}

/// Translates a decoded raw notification into the portable event kind it
/// denotes. Total: a message that reports no input action yields `None`,
/// and an unrecognized key or button falls back to its `Unknown` variant.
pub fn translate(raw: &RawEvent) -> (t: Option<EventType>)
    ensures
        t == spec_translate(*raw),
{
    if raw.message == WM_KEYDOWN || raw.message == WM_SYSKEYDOWN {
        Some(EventType::KeyPress(key_from_code(raw.key_code)))
    } else if raw.message == WM_KEYUP || raw.message == WM_SYSKEYUP {
        Some(EventType::KeyRelease(key_from_code(raw.key_code)))
    } else if raw.message == WM_LBUTTONDOWN {
        Some(EventType::ButtonPress(Button::Left))
    } else if raw.message == WM_LBUTTONUP {
        Some(EventType::ButtonRelease(Button::Left))
    } else if raw.message == WM_RBUTTONDOWN {
        Some(EventType::ButtonPress(Button::Right))
    } else if raw.message == WM_RBUTTONUP {
        Some(EventType::ButtonRelease(Button::Right))
    } else if raw.message == WM_MBUTTONDOWN {
        Some(EventType::ButtonPress(Button::Middle))
    } else if raw.message == WM_MBUTTONUP {
        Some(EventType::ButtonRelease(Button::Middle))
    } else if raw.message == WM_XBUTTONDOWN {
        Some(EventType::ButtonPress(Button::Unknown(raw.aux_button)))
    } else if raw.message == WM_XBUTTONUP {
        Some(EventType::ButtonRelease(Button::Unknown(raw.aux_button)))
    } else if raw.message == WM_MOUSEMOVE {
        Some(EventType::MouseMove { x: raw.x, y: raw.y })
    } else if raw.message == WM_MOUSEWHEEL {
        Some(EventType::Wheel { delta_x: 0, delta_y: raw.wheel_delta })
    } else if raw.message == WM_MOUSEHWHEEL {
        Some(EventType::Wheel { delta_x: raw.wheel_delta, delta_y: 0 })
    } else {
        None
    }
}

/// Every mouse action the translator recognizes comes from the mouse
/// range, and every keyboard action from outside it: the two hooks never
/// report each other's events.
pub proof fn lemma_translation_respects_source(raw: RawEvent)
    ensures
        spec_translate(raw) matches Some(t) && (t is ButtonPress || t is ButtonRelease
            || t is MouseMove || t is Wheel) ==> spec_is_mouse_message(raw.message),
        spec_translate(raw) matches Some(t) && (t is KeyPress || t is KeyRelease)
            ==> !spec_is_mouse_message(raw.message),
{
}

} // verus!
