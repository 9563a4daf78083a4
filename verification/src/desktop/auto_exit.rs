//! The automatic exit after a successful login: a countdown that the cancel
//! shortcut or the window can stop. Times are milliseconds of a monotonic
//! clock that the caller reads.

use vstd::prelude::*;
use crate::text::to_owned_string;

verus! {

/// How long the countdown runs, in ms.
pub const AUTO_EXIT_DELAY_MS: u64 = 10000;
/// The shortcut that cancels the countdown.
pub const CANCEL_EXIT_SHORTCUT: &'static str = "CommandOrControl+Shift+C";

/// The countdown: when the exit is due, if one is running, and whether the
/// last one was cancelled.
pub struct AutoExitState {
    pub deadline_ms: Option<u64>,
    pub cancelled: bool,
}

/// The deadline of a countdown started at `now`.
pub open spec fn deadline_after(now_ms: u64) -> u64 {
    if now_ms + AUTO_EXIT_DELAY_MS > u64::MAX {
        u64::MAX
    } else {
        (now_ms + AUTO_EXIT_DELAY_MS) as u64
    }
}

/// Starting a countdown: nothing changes while one runs; otherwise it runs
/// until `now` plus the delay, not cancelled.
pub open spec fn started(s: AutoExitState, now_ms: u64) -> (bool, AutoExitState) {
    match s.deadline_ms {
        Some(_) => (false, s),
        None => (true, AutoExitState { deadline_ms: Some(deadline_after(now_ms)), cancelled: false }),
    }
}

/// Cancelling: nothing to do when no countdown runs; otherwise it stops and
/// is marked cancelled.
pub open spec fn cancelled(s: AutoExitState) -> (bool, AutoExitState) {
    match s.deadline_ms {
        None => (false, s),
        Some(_) => (true, AutoExitState { deadline_ms: None, cancelled: true }),
    }
}

/// The exit is due once a running countdown has reached its deadline.
pub open spec fn exit_due_at(s: AutoExitState, now_ms: u64) -> bool {
    match s.deadline_ms {
        Some(d) => now_ms >= d,
        None => false,
    }
}

impl AutoExitState {
    /// No countdown.
    pub fn new() -> (r: Self)
        ensures
            r.deadline_ms is None,
            !r.cancelled,
    {
        AutoExitState { deadline_ms: None, cancelled: false }
    }

    /// Starts the countdown at `now_ms` unless one is running; returns
    /// whether it started (the caller then announces it).
    pub fn start(&mut self, now_ms: u64) -> (was_started: bool)
        ensures
            (was_started, *final(self)) == started(*old(self), now_ms),
    {
        if self.deadline_ms.is_some() {
            return false;
        }
        let deadline = if now_ms > u64::MAX - AUTO_EXIT_DELAY_MS {
            u64::MAX
        } else {
            now_ms + AUTO_EXIT_DELAY_MS
        };
        self.cancelled = false;
        self.deadline_ms = Some(deadline);
        true
    }

    /// Cancels a running countdown; returns whether one ran.
    pub fn cancel(&mut self) -> (was_running: bool)
        ensures
            (was_running, *final(self)) == cancelled(*old(self)),
    {
        if self.deadline_ms.is_none() {
            return false;
        }
        self.deadline_ms = None;
        self.cancelled = true;
        true
    }

    /// Whether the exit is due at `now_ms` (a countdown that was cancelled
    /// or restarted in the meantime is judged by its own deadline).
    pub fn exit_due(&self, now_ms: u64) -> (r: bool)
        ensures
            r == exit_due_at(*self, now_ms),
    {
        match self.deadline_ms {
            Some(d) => now_ms >= d,
            None => false,
        }
    }

    /// How long to wait before looking again: until the deadline (0 once
    /// it passed), or the whole delay when no countdown runs.
    pub fn remaining_ms(&self, now_ms: u64) -> (r: u64)
        ensures
            r == match self.deadline_ms {
                Some(d) => if d > now_ms {
                    (d - now_ms) as u64
                } else {
                    0u64
                },
                None => AUTO_EXIT_DELAY_MS,
            },
    {
        match self.deadline_ms {
            Some(d) => if d > now_ms {
                d - now_ms
            } else {
                0
            },
            None => AUTO_EXIT_DELAY_MS,
        }
    }
}

/// What a cancel request answers: that there was nothing to cancel, or that
/// the exit was cancelled.
pub fn cancel_message(was_running: bool) -> (r: String)
    ensures
        r@ == (if was_running {
            "自动退出已取消"@
        } else {
            "无需取消"@
        }),
{
    if was_running {
        to_owned_string("自动退出已取消")
    } else {
        to_owned_string("无需取消")
    }
}

/// The notice that announces the countdown.
pub fn countdown_notice() -> (r: (String, String))
    ensures
        r.0@ == "即将自动退出"@,
        r.1@ == "10秒后自动退出，按 Ctrl+Shift+C 可取消"@,
{
    (to_owned_string("即将自动退出"), to_owned_string("10秒后自动退出，按 Ctrl+Shift+C 可取消"))
}

/// A countdown started at `now` makes the exit due exactly from `now` plus
/// the delay on (when that does not pass the clock's end).
pub proof fn law_exit_due_after_delay(s: AutoExitState, now_ms: u64, later_ms: u64)
    requires
        s.deadline_ms is None,
        now_ms + AUTO_EXIT_DELAY_MS <= u64::MAX,
    ensures
        exit_due_at(started(s, now_ms).1, later_ms) <==> later_ms >= now_ms + AUTO_EXIT_DELAY_MS,
{
}

/// Starting again while a countdown runs keeps its deadline.
pub proof fn law_restart_keeps_deadline(s: AutoExitState, now_ms: u64)
    requires
        s.deadline_ms is Some,
    ensures
        started(s, now_ms).1 == s,
        !started(s, now_ms).0,
{
}

/// A cancelled countdown never makes the exit due, at any time.
pub proof fn law_cancel_stops_exit(s: AutoExitState, now_ms: u64, later_ms: u64)
    ensures
        !exit_due_at(cancelled(started(s, now_ms).1).1, later_ms),
        cancelled(started(s, now_ms).1).0,
{
}

} // verus!
