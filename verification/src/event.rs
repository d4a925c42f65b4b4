//! Portable event data model: keys, buttons, event kinds, events, and the
//! error types reported when hook installation fails.

use vstd::prelude::*;

verus! {

/// A key portable across the supported platforms. Native codes with no
/// portable counterpart are carried verbatim in `Unknown`, so translation
/// never loses the original code.
#[derive(Clone, Copy, Debug, PartialEq, Eq, Structural)]
pub enum Key {
    Alt,
    AltGr,
    Backspace,
    CapsLock,
    ControlLeft,
    ControlRight,
    Delete,
    DownArrow,
    End,
    Escape,
    F1,
    F2,
    F3,
    F4,
    F5,
    F6,
    F7,
    F8,
    F9,
    F10,
    F11,
    F12,
    Home,
    LeftArrow,
    MetaLeft,
    MetaRight,
    PageDown,
    PageUp,
    Return,
    RightArrow,
    ShiftLeft,
    ShiftRight,
    Space,
    Tab,
    UpArrow,
    PrintScreen,
    ScrollLock,
    Pause,
    NumLock,
    BackQuote,
    Num0,
    Num1,
    Num2,
    Num3,
    Num4,
    Num5,
    Num6,
    Num7,
    Num8,
    Num9,
    Minus,
    Equal,
    KeyQ,
    KeyW,
    KeyE,
    KeyR,
    KeyT,
    KeyY,
    KeyU,
    KeyI,
    KeyO,
    KeyP,
    LeftBracket,
    RightBracket,
    KeyA,
    KeyS,
    KeyD,
    KeyF,
    KeyG,
    KeyH,
    KeyJ,
    KeyK,
    KeyL,
    SemiColon,
    Quote,
    BackSlash,
    IntlBackslash,
    KeyZ,
    KeyX,
    KeyC,
    KeyV,
    KeyB,
    KeyN,
    KeyM,
    Comma,
    Dot,
    Slash,
    Insert,
    KpMinus,
    KpPlus,
    KpMultiply,
    KpDivide,
    Kp0,
    Kp1,
    Kp2,
    Kp3,
    Kp4,
    Kp5,
    Kp6,
    Kp7,
    Kp8,
    Kp9,
    KpDelete,
    /// A native key code outside the portable set, preserved verbatim.
    Unknown(u32),
}

/// A mouse button. Extra buttons are carried verbatim in `Unknown`.
#[derive(Clone, Copy, Debug, PartialEq, Eq, Structural)]
pub enum Button {
    Left,
    Right,
    Middle,
    /// A native button number outside the portable set, preserved verbatim.
    Unknown(u8),
}

/// The kind of an observed input event. Exactly one variant per event.
#[derive(Clone, Copy, Debug, PartialEq, Eq, Structural)]
pub enum EventType {
    KeyPress(Key),
    KeyRelease(Key),
    ButtonPress(Button),
    ButtonRelease(Button),
    /// Pointer motion, in native screen coordinates.
    MouseMove { x: i32, y: i32 },
    /// Wheel rotation, in native wheel-delta units.
    Wheel { delta_x: i32, delta_y: i32 },
}

/// One observed input event, handed to the listener callback by value.
///
/// `platform_code` and `scan_code` are preserved verbatim from the raw
/// notification, so no information is lost even when `event_type` cannot
/// represent a platform-specific key. `time` is the capture timestamp in
/// milliseconds; within one session delivered timestamps never decrease.
/// `name` is reserved for a resolved textual representation and may be
/// absent.
#[derive(Clone, Debug)]
pub struct Event {
    pub event_type: EventType,
    pub time: u64,
    pub name: Option<String>,
    pub platform_code: u32,
    pub scan_code: u32,
}

/// A hook-installation failure, carrying the OS-reported error code.
#[derive(Clone, Copy, Debug, PartialEq, Eq, Structural)]
pub enum HookError {
    /// The mouse hook could not be installed.
    Mouse(u32),
    /// The keyboard hook could not be installed.
    Key(u32),
}

/// The failure type surfaced by the listener entry point.
#[derive(Clone, Copy, Debug, PartialEq, Eq, Structural)]
pub enum ListenError {
    MouseHookError(u32),
    KeyHookError(u32),
}

impl From<HookError> for ListenError {
    fn from(error: HookError) -> (r: Self)
        ensures
            r == spec_listen_error_of(error),
    {
        match error {
            HookError::Mouse(code) => ListenError::MouseHookError(code),
            HookError::Key(code) => ListenError::KeyHookError(code),
        }
    }
}

impl vstd::std_specs::convert::FromSpecImpl<HookError> for ListenError {
    open spec fn obeys_from_spec() -> bool {
        true
    }

    open spec fn from_spec(error: HookError) -> Self {
        spec_listen_error_of(error)
    }
}

/// The listener error that reports a given installation failure.
pub open spec fn spec_listen_error_of(error: HookError) -> ListenError {
    match error {
        HookError::Mouse(code) => ListenError::MouseHookError(code),
        HookError::Key(code) => ListenError::KeyHookError(code),
    }
}

} // verus!
