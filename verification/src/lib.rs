//! Portable global-input listening core.
//!
//! The library models the listener path of a cross-platform input hook:
//! translating native key and button codes into a portable representation,
//! installing the keyboard hook (and, unless configured keyboard-only, the
//! mouse hook) with rollback on partial failure, and the callback bridge
//! that turns raw hook notifications into portable events while always
//! forwarding to the rest of the hook chain.

pub mod event;
pub mod keycodes;
pub mod session;
pub mod translate;

pub use event::Button;
pub use event::Event;
pub use event::EventType;
pub use event::HookError;
pub use event::Key;
pub use event::ListenError;
