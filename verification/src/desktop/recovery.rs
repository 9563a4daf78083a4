//! The limit on automatic web-view reloads: at most three in a five-minute
//! window, after which reloading is judged useless until the window ends.

use vstd::prelude::*;

verus! {

/// Length of the window, in ms.
pub const RECOVERY_WINDOW_MS: u64 = 300000;
/// Reloads allowed in one window.
pub const RECOVERY_MAX_PER_WINDOW: u32 = 3;

/// The recovery decision: `(allowed, window start, count)`. A window that has
/// run out starts afresh at `now` with this reload; within a window a
/// reload is allowed while fewer than three were made.
pub open spec fn spec_recovery_gate(window_start_ms: u64, count: u32, now_ms: u64) -> (bool, u64, u32) {
    if (if now_ms >= window_start_ms {
        now_ms - window_start_ms
    } else {
        0
    }) >= RECOVERY_WINDOW_MS {
        (true, now_ms, 1)
    } else if count < RECOVERY_MAX_PER_WINDOW {
        (true, window_start_ms, (count + 1) as u32)
    } else {
        (false, window_start_ms, count)
    }
}

/// Decides whether a reload may run now (see `spec_recovery_gate`).
pub fn recovery_gate(window_start_ms: u64, count: u32, now_ms: u64) -> (r: (bool, u64, u32))
    ensures
        r == spec_recovery_gate(window_start_ms, count, now_ms),
{
    if now_ms.saturating_sub(window_start_ms) >= RECOVERY_WINDOW_MS {
        (true, now_ms, 1)
    } else if count < RECOVERY_MAX_PER_WINDOW {
        (true, window_start_ms, count + 1)
    } else {
        (false, window_start_ms, count)
    }
}

/// The count never passes three, a refusal changes nothing, and an allowed
/// reload is always counted.
pub proof fn law_recovery_gate_bounds(window_start_ms: u64, count: u32, now_ms: u64)
    requires
        count <= RECOVERY_MAX_PER_WINDOW,
    ensures
        spec_recovery_gate(window_start_ms, count, now_ms).2 <= RECOVERY_MAX_PER_WINDOW,
        !spec_recovery_gate(window_start_ms, count, now_ms).0 ==> spec_recovery_gate(
            window_start_ms,
            count,
            now_ms,
        ) == (false, window_start_ms, count),
        spec_recovery_gate(window_start_ms, count, now_ms).0 ==> spec_recovery_gate(
            window_start_ms,
            count,
            now_ms,
        ).2 >= 1,
{
}

/// Within one window, a fourth reload is refused.
pub proof fn law_fourth_reload_in_window_refused(start: u64, now: u64)
    requires
        start <= now < start + RECOVERY_WINDOW_MS,
    ensures
        !spec_recovery_gate(start, 3, now).0,
{
}

} // verus!
