//! Back-off of the timed quality test: after every fifth good result in a
//! row the interval doubles, up to 30 minutes; any other result goes back
//! to the base interval at once.

use vstd::prelude::*;
use crate::text::str_eq;

verus! {

/// Good results in a row after which the interval doubles.
pub const BACKOFF_STABLE_STREAK: u32 = 5;
/// Longest back-off interval, in ms (30 minutes).
pub const BACKOFF_MAX_MS: u64 = 1800000;
/// Shortest base interval of the timed test, in ms.
pub const MIN_LATENCY_INTERVAL_MS: u64 = 10000;

/// The grades that count as a good result.
pub open spec fn is_good_level(q: Seq<char>) -> bool {
    q == "excellent"@ || q == "great"@ || q == "good"@
}

/// Whether a grade counts as a good result (`excellent`, `great`, `good`).
pub fn is_good_quality(q: &str) -> (r: bool)
    ensures
        r == is_good_level(q@),
{
    str_eq(q, "excellent") || str_eq(q, "great") || str_eq(q, "good")
}

pub open spec fn spec_next_backoff(current_ms: u64, streak: u32, base_ms: u64) -> u64 {
    if streak > 0 && streak % BACKOFF_STABLE_STREAK == 0 {
        if current_ms < base_ms {
            base_ms
        } else {
            let doubled: int = if current_ms * 2 > u64::MAX {
                u64::MAX as int
            } else {
                current_ms * 2
            };
            let capped: int = if doubled < BACKOFF_MAX_MS {
                doubled
            } else {
                BACKOFF_MAX_MS as int
            };
            (if capped > base_ms {
                capped
            } else {
                base_ms as int
            }) as u64
        }
    } else {
        current_ms
    }
}

/// The interval after a good result that made the streak `streak`: doubled
/// at every multiple of 5 (at most 30 minutes, never below the base; an
/// interval that lies below the base goes back to the base instead),
/// unchanged otherwise.
pub fn next_backoff_interval_ms(current_ms: u64, stable_good_streak: u32, base_ms: u64) -> (r: u64)
    ensures
        r == spec_next_backoff(current_ms, stable_good_streak, base_ms),
{
    if stable_good_streak > 0 && stable_good_streak % BACKOFF_STABLE_STREAK == 0 {
        if current_ms < base_ms {
            return base_ms;
        }
        let doubled: u64 = if current_ms > u64::MAX / 2 {
            u64::MAX
        } else {
            current_ms * 2
        };
        let capped = if doubled < BACKOFF_MAX_MS {
            doubled
        } else {
            BACKOFF_MAX_MS
        };
        if capped > base_ms {
            capped
        } else {
            base_ms
        }
    } else {
        current_ms
    }
}

/// The base interval of the timed test: the configured one, at least 10 s.
pub fn latency_base_interval_ms(configured_ms: u64) -> (r: u64)
    ensures
        r == (if configured_ms > MIN_LATENCY_INTERVAL_MS {
            configured_ms
        } else {
            MIN_LATENCY_INTERVAL_MS
        }),
{
    if configured_ms > MIN_LATENCY_INTERVAL_MS {
        configured_ms
    } else {
        MIN_LATENCY_INTERVAL_MS
    }
}

/// The streak and interval after a test graded `quality`: a good result
/// lengthens the streak (saturating) and may double the interval; any
/// other result clears the streak and restores the base interval.
pub open spec fn spec_backoff_step(quality: Seq<char>, streak: u32, current_ms: u64, base_ms: u64) -> (u32, u64) {
    if is_good_level(quality) {
        let s: u32 = if streak == u32::MAX {
            u32::MAX
        } else {
            (streak + 1) as u32
        };
        (s, spec_next_backoff(current_ms, s, base_ms))
    } else {
        (0u32, base_ms)
    }
}

/// One step of the back-off after a test graded `quality` (see
/// `spec_backoff_step`).
pub fn backoff_step(quality: &str, streak: u32, current_ms: u64, base_ms: u64) -> (r: (u32, u64))
    ensures
        r == spec_backoff_step(quality@, streak, current_ms, base_ms),
{
    if is_good_quality(quality) {
        let s = if streak == u32::MAX {
            u32::MAX
        } else {
            streak + 1
        };
        (s, next_backoff_interval_ms(current_ms, s, base_ms))
    } else {
        (0, base_ms)
    }
}

/// The interval stays between the base and the larger of the base and 30
/// minutes, whatever the results, once it starts there.
pub proof fn law_backoff_stays_in_range(quality: Seq<char>, streak: u32, current_ms: u64, base_ms: u64)
    requires
        base_ms <= current_ms,
        current_ms <= (if base_ms > BACKOFF_MAX_MS {
            base_ms
        } else {
            BACKOFF_MAX_MS
        }),
    ensures
        base_ms <= spec_backoff_step(quality, streak, current_ms, base_ms).1,
        spec_backoff_step(quality, streak, current_ms, base_ms).1 <= (if base_ms > BACKOFF_MAX_MS {
            base_ms
        } else {
            BACKOFF_MAX_MS
        }),
{
}

/// A bad result always restarts from the base interval with no streak.
pub proof fn law_bad_result_resets(quality: Seq<char>, streak: u32, current_ms: u64, base_ms: u64)
    requires
        !is_good_level(quality),
    ensures
        spec_backoff_step(quality, streak, current_ms, base_ms) == (0u32, base_ms),
{
}

} // verus!
