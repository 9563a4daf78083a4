//! The lightweight mode of the desktop client: whether it is on, the
//! one-shot exit guard, and the longer intervals it imposes.

use vstd::prelude::*;

verus! {

/// Shortest background-check interval in lightweight mode, in ms (5 min).
pub const LIGHTWEIGHT_BACKGROUND_MIN_MS: u64 = 300000;
/// Shortest quality-check interval in lightweight mode, in ms (30 min).
pub const LIGHTWEIGHT_QUALITY_MIN_MS: u64 = 1800000;

/// The in-memory state of the lightweight mode (never saved).
pub struct LightweightState {
    /// Lightweight mode is on (no web view, longer intervals).
    pub active: bool,
    /// The coming exit request was caused by the lightweight close: it is
    /// to be intercepted once.
    pub expect_exit: bool,
}

/// The state after arming the exit guard.
pub open spec fn armed(s: LightweightState) -> LightweightState {
    LightweightState { expect_exit: true, ..s }
}

/// What taking the exit guard returns, and the state after it.
pub open spec fn taken(s: LightweightState) -> (bool, LightweightState) {
    (s.expect_exit, LightweightState { expect_exit: false, ..s })
}

impl LightweightState {
    /// Lightweight mode off, no exit expected.
    pub fn new() -> (r: Self)
        ensures
            !r.active,
            !r.expect_exit,
    {
        LightweightState { active: false, expect_exit: false }
    }

    pub fn is_lightweight_active(&self) -> (r: bool)
        ensures
            r == self.active,
    {
        self.active
    }

    pub fn set_lightweight_active(&mut self, active: bool)
        ensures
            final(self).active == active,
            final(self).expect_exit == old(self).expect_exit,
    {
        self.active = active;
    }

    /// Expects one exit request from the lightweight close.
    pub fn arm_lightweight_exit_guard(&mut self)
        ensures
            *final(self) == armed(*old(self)),
    {
        self.expect_exit = true;
    }

    /// Takes the expectation: returns whether it was set, and clears it
    /// (it serves one exit request only).
    pub fn take_lightweight_exit_guard(&mut self) -> (was_armed: bool)
        ensures
            (was_armed, *final(self)) == taken(*old(self)),
    {
        let was_armed = self.expect_exit;
        self.expect_exit = false;
        was_armed
    }
}

/// Whether to intercept an exit request: only the one the lightweight close
/// caused, and never while the application is really quitting.
pub fn should_prevent_exit(expecting: bool, is_quitting: bool) -> (r: bool)
    ensures
        r == (expecting && !is_quitting),
{
    expecting && !is_quitting
}

/// The background-check interval: at least 5 minutes in lightweight mode,
/// unchanged otherwise.
pub fn effective_background_interval_ms(base_ms: u64, lightweight: bool) -> (r: u64)
    ensures
        r == (if lightweight && base_ms < LIGHTWEIGHT_BACKGROUND_MIN_MS {
            LIGHTWEIGHT_BACKGROUND_MIN_MS
        } else {
            base_ms
        }),
{
    if lightweight && base_ms < LIGHTWEIGHT_BACKGROUND_MIN_MS {
        LIGHTWEIGHT_BACKGROUND_MIN_MS
    } else {
        base_ms
    }
}

/// The quality-check interval: at least 30 minutes in lightweight mode,
/// unchanged otherwise.
pub fn effective_quality_interval_ms(base_ms: u64, lightweight: bool) -> (r: u64)
    ensures
        r == (if lightweight && base_ms < LIGHTWEIGHT_QUALITY_MIN_MS {
            LIGHTWEIGHT_QUALITY_MIN_MS
        } else {
            base_ms
        }),
{
    if lightweight && base_ms < LIGHTWEIGHT_QUALITY_MIN_MS {
        LIGHTWEIGHT_QUALITY_MIN_MS
    } else {
        base_ms
    }
}

/// The exit guard serves once: after arming it, the first take finds it
/// set and the second finds it clear.
pub proof fn law_exit_guard_is_one_shot(s: LightweightState)
    ensures
        taken(armed(s)).0,
        !taken(taken(armed(s)).1).0,
        taken(taken(armed(s)).1).1.active == s.active,
{
}

} // verus!
