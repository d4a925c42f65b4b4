//! The listener session: hook installation with rollback on partial
//! failure, and the callback bridge that turns raw hook notifications into
//! portable events while always forwarding to the rest of the hook chain.
//!
//! A `Session` holds the listener's process-wide state as plain values:
//! which hooks are installed, whether a callback is stored, and the
//! timestamp of the last delivered event. The platform layer performs the
//! native calls (hook registration, chain forwarding, the message loop) and
//! drives the session with their results; every decision lives here.

use vstd::prelude::*;

use crate::event::Event;
use crate::event::ListenError;
use crate::translate::translate;
use crate::translate::spec_is_mouse_message;
use crate::translate::spec_translate;
use crate::translate::RawEvent;
use crate::translate::HC_ACTION;

verus! {

/// Process-wide listener state, modeled as plain values. The hook fields
/// hold the opaque native handles; the ghost counters record how often the
/// bridge has forwarded to the hook chain and delivered to the callback.
pub struct Session {
    /// Configuration: when true, the mouse hook is never installed and no
    /// mouse event is delivered.
    pub keyboard_only: bool,
    /// Whether a listener callback is currently stored.
    pub callback_set: bool,
    /// The native keyboard-hook handle, while installed.
    pub keyboard_hook: Option<u64>,
    /// The native mouse-hook handle, while installed.
    pub mouse_hook: Option<u64>,
    /// The timestamp of the last delivered event, in milliseconds.
    pub last_time: u64,
    /// How many raw notifications the bridge has forwarded to the chain.
    pub forwarded: Ghost<nat>,
    /// How many events the bridge has delivered to the callback.
    pub delivered: Ghost<nat>,
}

impl Session {
    /// Session well-formedness: keyboard-only configuration keeps the
    /// mouse hook uninstalled. Every operation preserves this.
    pub open spec fn wf(self) -> bool {
        self.keyboard_only ==> self.mouse_hook is None
    }

    /// A fresh session: nothing installed, nothing stored, no deliveries.
    pub fn new(keyboard_only: bool) -> (s: Session)
        ensures
            s == spec_new_session(keyboard_only),
            s.wf(),
    {
        Session {
            keyboard_only,
            callback_set: false,
            keyboard_hook: None,
            mouse_hook: None,
            last_time: 0,
            forwarded: Ghost(0),
            delivered: Ghost(0),
        }
    }

    /// Stores the listener callback, replacing any previous one.
    pub fn set_callback(&mut self)
        ensures
            *final(self) == (Session { callback_set: true, ..*old(self) }),
    {
        self.callback_set = true;
    }

    /// Whether installation must also register the mouse hook.
    pub fn needs_mouse_hook(&self) -> (r: bool)
        ensures
            r == !self.keyboard_only,
    {
        !self.keyboard_only
    }

    /// Records the outcome of registering the keyboard hook. On success
    /// the handle is kept; on failure the OS error code is surfaced as the
    /// keyboard-hook listen error and nothing is left installed.
    pub fn on_keyboard_hook_result(&mut self, result: Result<u64, u32>) -> (out: Result<
        (),
        ListenError,
    >)
        requires
            old(self).keyboard_hook is None,
        ensures
            result matches Ok(handle) ==> out is Ok && *final(self) == (Session {
                keyboard_hook: Some(handle),
                ..*old(self)
            }),
            result matches Err(code) ==> out == Result::<(), ListenError>::Err(
                ListenError::KeyHookError(code),
            ) && *final(self) == *old(self),
            old(self).wf() ==> final(self).wf(),
    {
        match result {
            Ok(handle) => {
                self.keyboard_hook = Some(handle);
                Ok(())
            },
            Err(code) => Err(ListenError::KeyHookError(code)),
        }
    }

    /// Records the outcome of registering the mouse hook. On success the
    /// handle is kept. On failure the OS error code is surfaced as the
    /// mouse-hook listen error, the already-installed keyboard hook is
    /// dropped from the session, and its handle is returned so the caller
    /// can unregister it before reporting the error: a failed installation
    /// leaks no hook.
    pub fn on_mouse_hook_result(&mut self, result: Result<u64, u32>) -> (out: (
        Result<(), ListenError>,
        Option<u64>,
    ))
        requires
            old(self).mouse_hook is None,
            !old(self).keyboard_only,
        ensures
            result matches Ok(handle) ==> out.0 is Ok && out.1 is None && *final(self)
                == (Session { mouse_hook: Some(handle), ..*old(self) }),
            result matches Err(code) ==> out.0 == Result::<(), ListenError>::Err(
                ListenError::MouseHookError(code),
            ) && out.1 == old(self).keyboard_hook && *final(self) == (Session {
                keyboard_hook: None,
                ..*old(self)
            }),
            final(self).wf(),
    {
        match result {
            Ok(handle) => {
                self.mouse_hook = Some(handle);
                (Ok(()), None)
            },
            Err(code) => {
                let rollback = self.keyboard_hook;
                self.keyboard_hook = None;
                (Err(ListenError::MouseHookError(code)), rollback)
            },
        }
    }
}

impl Session {
    /// The callback bridge: handles one raw notification already known to
    /// have reached an installed hook. Translation and delivery happen
    /// only for a processable action, and only while a callback is
    /// stored; the returned event, if any, is what the caller must hand
    /// to the stored callback. Whatever happens, the notification is
    /// forwarded to the rest of the hook chain exactly once — the
    /// caller's side of that order is the forward it performs on return.
    pub fn bridge_event(&mut self, action: i32, raw: &RawEvent, now: u64) -> (delivered: Option<
        Event,
    >)
        ensures
            *final(self) == spec_bridge_state(*old(self), action, *raw, now),
            delivered == spec_bridge_result(*old(self), action, *raw, now),
    {
        proof {
            self.forwarded@ = self.forwarded@ + 1;
        }
        if action == HC_ACTION {
            if let Some(event_type) = translate(raw) {
                if self.callback_set {
                    let time = if now < self.last_time {
                        self.last_time
                    } else {
                        now
                    };
                    self.last_time = time;
                    proof {
                        self.delivered@ = self.delivered@ + 1;
                    }
                    return Some(
                        Event {
                            event_type,
                            time,
                            name: None,
                            platform_code: raw.key_code,
                            scan_code: raw.scan_code,
                        },
                    );
                }
            }
        }
        None
    }

    /// Models the operating system's dispatch of one raw event: the event
    /// reaches the bridge only through an installed hook of its kind, so
    /// with no matching hook the session is untouched and nothing is
    /// delivered. This is the entry point for driving a session without
    /// the operating system.
    pub fn dispatch_raw(&mut self, action: i32, raw: &RawEvent, now: u64) -> (delivered: Option<
        Event,
    >)
        ensures
            *final(self) == spec_dispatch_state(*old(self), action, *raw, now),
            delivered == spec_dispatch_result(*old(self), action, *raw, now),
    {
        let open = if crate::translate::is_mouse_message(raw.message) {
            self.mouse_hook.is_some()
        } else {
            self.keyboard_hook.is_some()
        };
        if open {
            self.bridge_event(action, raw, now)
        } else {
            None
        }
    }
}

/// Whether the bridge delivers an event to the callback for a raw
/// notification: the action must be processable, the notification must
/// translate to a reportable event, and a callback must be stored.
pub open spec fn spec_bridge_delivers(s: Session, action: i32, raw: RawEvent) -> bool {
    action == HC_ACTION && spec_translate(raw) is Some && s.callback_set
}

/// The capture timestamp the bridge stamps on a delivery: the current
/// time, held back to the last delivered timestamp so that timestamps
/// never decrease within a session.
pub open spec fn spec_next_time(s: Session, now: u64) -> u64 {
    if now < s.last_time {
        s.last_time
    } else {
        now
    }
}

/// The event a delivering bridge call hands to the callback: the
/// translated event kind, the stamped time, no resolved name, and the raw
/// platform and scan codes preserved verbatim.
pub open spec fn spec_bridge_event(s: Session, raw: RawEvent, now: u64) -> Event {
    Event {
        event_type: spec_translate(raw)->Some_0,
        time: spec_next_time(s, now),
        name: None,
        platform_code: raw.key_code,
        scan_code: raw.scan_code,
    }
}

/// What one bridge call delivers.
pub open spec fn spec_bridge_result(s: Session, action: i32, raw: RawEvent, now: u64) -> Option<
    Event,
> {
    if spec_bridge_delivers(s, action, raw) {
        Some(spec_bridge_event(s, raw, now))
    } else {
        None
    }
}

/// The session after one bridge call: the forward counter always grows by
/// exactly one, and a delivery advances the last-delivered timestamp.
pub open spec fn spec_bridge_state(s: Session, action: i32, raw: RawEvent, now: u64) -> Session {
    if spec_bridge_delivers(s, action, raw) {
        Session {
            last_time: spec_next_time(s, now),
            forwarded: Ghost((s.forwarded@ + 1) as nat),
            delivered: Ghost((s.delivered@ + 1) as nat),
            ..s
        }
    } else {
        Session { forwarded: Ghost((s.forwarded@ + 1) as nat), ..s }
    }
}

/// Whether a raw event finds an installed hook of its kind to arrive
/// through: mouse-range messages need the mouse hook, all others the
/// keyboard hook.
pub open spec fn spec_hook_open(s: Session, raw: RawEvent) -> bool {
    if spec_is_mouse_message(raw.message) {
        s.mouse_hook is Some
    } else {
        s.keyboard_hook is Some
    }
}

/// What one dispatched raw event delivers.
pub open spec fn spec_dispatch_result(s: Session, action: i32, raw: RawEvent, now: u64) -> Option<
    Event,
> {
    if spec_hook_open(s, raw) {
        spec_bridge_result(s, action, raw, now)
    } else {
        None
    }
}

/// The session after one dispatched raw event.
pub open spec fn spec_dispatch_state(s: Session, action: i32, raw: RawEvent, now: u64) -> Session {
    if spec_hook_open(s, raw) {
        spec_bridge_state(s, action, raw, now)
    } else {
        s
    }
}

/// One raw event as the operating system raises it: the hook action code,
/// the decoded notification, and the wall-clock time of the moment.
pub struct RawStep {
    pub action: i32,
    pub raw: RawEvent,
    pub now: u64,
}

/// The session state reached after the first `i` steps of a raw-event
/// trace have been dispatched.
pub open spec fn spec_state_at(s: Session, steps: Seq<RawStep>, i: int) -> Session
    decreases i,
{
    if i <= 0 {
        s
    } else {
        let prev = spec_state_at(s, steps, i - 1);
        spec_dispatch_state(prev, steps[i - 1].action, steps[i - 1].raw, steps[i - 1].now)
    }
}

/// What step `i` of a raw-event trace delivers.
pub open spec fn spec_result_at(s: Session, steps: Seq<RawStep>, i: int) -> Option<Event> {
    spec_dispatch_result(spec_state_at(s, steps, i), steps[i].action, steps[i].raw, steps[i].now)
}

/// The bridge never swallows and never repeats a forward: every raw
/// notification that reaches it is forwarded to the rest of the hook
/// chain exactly once, whether or not it was translated and whether or
/// not the callback was invoked.
pub proof fn lemma_forward_exactly_once(s: Session, action: i32, raw: RawEvent, now: u64)
    ensures
        spec_bridge_state(s, action, raw, now).forwarded@ == s.forwarded@ + 1,
{
}

/// With keyboard-only configured, a mouse-originated raw event is never
/// delivered, while a keyboard-originated one that translates still is,
/// exactly as on a session with both hooks.
pub proof fn lemma_keyboard_only_suppresses_mouse(s: Session, action: i32, raw: RawEvent, now: u64)
    requires
        s.wf(),
        s.keyboard_only,
    ensures
        spec_is_mouse_message(raw.message) ==> spec_dispatch_result(s, action, raw, now) is None,
        !spec_is_mouse_message(raw.message) && s.keyboard_hook is Some && spec_bridge_delivers(
            s,
            action,
            raw,
        ) ==> spec_dispatch_result(s, action, raw, now) == Some(spec_bridge_event(s, raw, now)),
{
}

/// Dispatching preserves well-formedness and never changes the
/// configuration or the installed hooks.
pub proof fn lemma_dispatch_preserves_shape(s: Session, action: i32, raw: RawEvent, now: u64)
    ensures
        s.wf() ==> spec_dispatch_state(s, action, raw, now).wf(),
        spec_dispatch_state(s, action, raw, now).keyboard_only == s.keyboard_only,
        spec_dispatch_state(s, action, raw, now).keyboard_hook == s.keyboard_hook,
        spec_dispatch_state(s, action, raw, now).mouse_hook == s.mouse_hook,
{
}

/// Along any raw-event trace of a keyboard-only session, every
/// mouse-originated raw event produces zero deliveries.
pub proof fn lemma_keyboard_only_suppresses_mouse_trace(
    s: Session,
    steps: Seq<RawStep>,
    i: int,
)
    requires
        s.wf(),
        s.keyboard_only,
        0 <= i,
        spec_is_mouse_message(steps[i].raw.message),
    ensures
        spec_result_at(s, steps, i) is None,
{
    lemma_state_at_preserves_shape(s, steps, i);
    lemma_keyboard_only_suppresses_mouse(
        spec_state_at(s, steps, i),
        steps[i].action,
        steps[i].raw,
        steps[i].now,
    );
}

/// The state reached along any raw-event trace keeps the session's
/// well-formedness, configuration and installed hooks.
pub proof fn lemma_state_at_preserves_shape(s: Session, steps: Seq<RawStep>, i: int)
    requires
        s.wf(),
    ensures
        spec_state_at(s, steps, i).wf(),
        spec_state_at(s, steps, i).keyboard_only == s.keyboard_only,
        spec_state_at(s, steps, i).keyboard_hook == s.keyboard_hook,
        spec_state_at(s, steps, i).mouse_hook == s.mouse_hook,
    decreases i,
{
    if i > 0 {
        lemma_state_at_preserves_shape(s, steps, i - 1);
        lemma_dispatch_preserves_shape(
            spec_state_at(s, steps, i - 1),
            steps[i - 1].action,
            steps[i - 1].raw,
            steps[i - 1].now,
        );
    }
}

/// Delivery loses no raw information: every delivered event carries the
/// raw platform and scan codes of its notification verbatim.
pub proof fn lemma_delivery_preserves_raw_codes(s: Session, action: i32, raw: RawEvent, now: u64)
    ensures
        spec_bridge_result(s, action, raw, now) matches Some(e) ==> e.platform_code == raw.key_code
            && e.scan_code == raw.scan_code,
{
}

/// One dispatched raw event never moves the last-delivered timestamp
/// backwards, and what it delivers is stamped with the new timestamp.
pub proof fn lemma_dispatch_time_step(s: Session, action: i32, raw: RawEvent, now: u64)
    ensures
        s.last_time <= spec_dispatch_state(s, action, raw, now).last_time,
        spec_dispatch_result(s, action, raw, now) matches Some(e) ==> e.time
            == spec_dispatch_state(s, action, raw, now).last_time,
{
}

/// Along any raw-event trace, the last-delivered timestamp never
/// decreases.
pub proof fn lemma_trace_time_nondecreasing(s: Session, steps: Seq<RawStep>, i: int, j: int)
    requires
        0 <= i <= j,
    ensures
        spec_state_at(s, steps, i).last_time <= spec_state_at(s, steps, j).last_time,
    decreases j - i,
{
    if i < j {
        lemma_trace_time_nondecreasing(s, steps, i, j - 1);
        lemma_dispatch_time_step(
            spec_state_at(s, steps, j - 1),
            steps[j - 1].action,
            steps[j - 1].raw,
            steps[j - 1].now,
        );
    }
}

/// Delivered timestamps are monotonically non-decreasing across the
/// deliveries of one session: along any raw-event trace, an earlier
/// delivery never carries a later timestamp than a later one.
pub proof fn lemma_delivery_times_monotone(s: Session, steps: Seq<RawStep>, i: int, j: int)
    requires
        0 <= i < j,
        spec_result_at(s, steps, i) is Some,
        spec_result_at(s, steps, j) is Some,
    ensures
        spec_result_at(s, steps, i)->Some_0.time <= spec_result_at(s, steps, j)->Some_0.time,
{
    lemma_dispatch_time_step(
        spec_state_at(s, steps, i),
        steps[i].action,
        steps[i].raw,
        steps[i].now,
    );
    lemma_trace_time_nondecreasing(s, steps, i + 1, j);
    lemma_dispatch_time_step(
        spec_state_at(s, steps, j),
        steps[j].action,
        steps[j].raw,
        steps[j].now,
    );
}

/// The state of a freshly created session.
pub open spec fn spec_new_session(keyboard_only: bool) -> Session {
    Session {
        keyboard_only,
        callback_set: false,
        keyboard_hook: None,
        mouse_hook: None,
        last_time: 0,
        forwarded: Ghost(0),
        delivered: Ghost(0),
    }
}

} // verus!
