//! The watch on the web view's heartbeat: the front end reports every few
//! seconds; three checks in a row that find the last report older than
//! 20 s reload the view. A hidden or minimised window pauses the watch.

use vstd::prelude::*;

verus! {

/// Seconds between two checks.
pub const HEARTBEAT_CHECK_INTERVAL_SECS: u64 = 5;
/// A report older than this (ms) is stale.
pub const CRASH_THRESHOLD_MS: u64 = 20000;
/// Stale checks in a row that lead to a reload.
pub const STALE_CHECKS_BEFORE_RELOAD: u32 = 3;

/// One check: the stale count after it, and whether to reload. Without a
/// window nothing changes; a hidden or minimised window clears the count;
/// before the first report nothing changes; a stale report adds one to the
/// count, and the third in a row reloads and clears it; a fresh one clears
/// it.
pub open spec fn spec_heartbeat_step(
    stale: u32,
    window_present: bool,
    monitorable: bool,
    last_ms: u64,
    now_ms: u64,
) -> (u32, bool) {
    if !window_present {
        (stale, false)
    } else if !monitorable {
        (0, false)
    } else if last_ms == 0 {
        (stale, false)
    } else if (if now_ms >= last_ms {
        now_ms - last_ms
    } else {
        0
    }) > CRASH_THRESHOLD_MS {
        if stale + 1 >= STALE_CHECKS_BEFORE_RELOAD {
            (0, true)
        } else {
            ((stale + 1) as u32, false)
        }
    } else {
        (0, false)
    }
}

/// One heartbeat check (see `spec_heartbeat_step`).
pub fn heartbeat_step(stale: u32, window_present: bool, monitorable: bool, last_ms: u64, now_ms: u64) -> (r: (
    u32,
    bool,
))
    ensures
        r == spec_heartbeat_step(stale, window_present, monitorable, last_ms, now_ms),
{
    if !window_present {
        return (stale, false);
    }
    if !monitorable {
        return (0, false);
    }
    if last_ms == 0 {
        return (stale, false);
    }
    let elapsed = if now_ms >= last_ms {
        now_ms - last_ms
    } else {
        0
    };
    if elapsed > CRASH_THRESHOLD_MS {
        if stale >= STALE_CHECKS_BEFORE_RELOAD - 1 {
            (0, true)
        } else {
            (stale + 1, false)
        }
    } else {
        (0, false)
    }
}

/// From a clear count, only the third stale check in a row reloads: the
/// first two only count.
pub proof fn law_reload_after_three_stale_checks(last_ms: u64, t1: u64, t2: u64, t3: u64)
    requires
        last_ms != 0,
        t1 >= last_ms && t1 - last_ms > CRASH_THRESHOLD_MS,
        t2 >= last_ms && t2 - last_ms > CRASH_THRESHOLD_MS,
        t3 >= last_ms && t3 - last_ms > CRASH_THRESHOLD_MS,
    ensures
        spec_heartbeat_step(0, true, true, last_ms, t1) == (1u32, false),
        spec_heartbeat_step(1, true, true, last_ms, t2) == (2u32, false),
        spec_heartbeat_step(2, true, true, last_ms, t3) == (0u32, true),
{
}

/// A fresh report or a hidden window never reloads and clears the count.
pub proof fn law_fresh_or_hidden_never_reloads(stale: u32, last_ms: u64, now_ms: u64)
    requires
        last_ms != 0,
        now_ms < last_ms || now_ms - last_ms <= CRASH_THRESHOLD_MS,
    ensures
        spec_heartbeat_step(stale, true, true, last_ms, now_ms) == (0u32, false),
        spec_heartbeat_step(stale, true, false, last_ms, now_ms) == (0u32, false),
{
}

} // verus!
