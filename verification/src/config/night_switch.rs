//! When to switch the login operator to the campus itself for the night and
//! when to switch it back.
//!
//! The operators' services go offline at 23:00 on Sunday and Monday nights
//! and at 23:30 on Friday and Saturday nights; logging in then needs the
//! campus operator (the empty suffix) until the next morning. The switched
//! state lives in the configuration itself (a non-empty restore value with
//! an empty current operator), so the decision is idempotent.

use vstd::prelude::*;
use crate::text::str_eq;

verus! {

/// Start of the restore window, 06:30 (inclusive).
pub const RESTORE_START_MINUTES: u32 = 390;

/// End of the restore window, 23:00 (exclusive); it meets the earliest
/// switch time.
pub const RESTORE_END_MINUTES: u32 = 1380;

#[derive(Debug, Clone, Copy, PartialEq, Eq, Structural)]
pub enum NightSwitchAction {
    /// Nothing to do this tick.
    Idle,
    /// Save the current operator as the restore value, clear the operator
    /// and log in again.
    SwitchToCampus,
    /// Put the restore value back as the operator, clear it and log in again.
    Restore,
}

/// The shared night timetable (weekday 0 = Sunday): Sunday to Thursday
/// 23:00, Friday and Saturday 23:30.
pub open spec fn spec_switch_time_for(weekday: u32) -> Option<u32> {
    if weekday <= 4 {
        Some(1380)
    } else if weekday == 5 || weekday == 6 {
        Some(1410)
    } else {
        None
    }
}

/// The nights on which the operators' services go offline, with their
/// times: Sunday and Monday 23:00, Friday and Saturday 23:30.
pub open spec fn spec_operator_switch_time_for(weekday: u32) -> Option<u32> {
    if weekday == 0 || weekday == 1 {
        Some(1380)
    } else if weekday == 5 || weekday == 6 {
        Some(1410)
    } else {
        None
    }
}

/// Operators whose service goes offline at night.
pub open spec fn spec_is_switchable_operator(op: Seq<char>) -> bool {
    op == "@telecom"@ || op == "@unicom"@ || op == "@cmcc"@
}

pub open spec fn in_restore_window(now_minutes: u32) -> bool {
    RESTORE_START_MINUTES <= now_minutes < RESTORE_END_MINUTES
}

pub open spec fn spec_evaluate_night_switch(
    enabled: bool,
    weekday: u32,
    now_minutes: u32,
    current: Seq<char>,
    restore: Seq<char>,
) -> NightSwitchAction {
    if !enabled {
        NightSwitchAction::Idle
    } else if restore.len() > 0 && current.len() == 0 && in_restore_window(now_minutes) {
        NightSwitchAction::Restore
    } else {
        match spec_operator_switch_time_for(weekday) {
            Some(t) => if now_minutes >= t && spec_is_switchable_operator(current) {
                NightSwitchAction::SwitchToCampus
            } else {
                NightSwitchAction::Idle
            },
            None => NightSwitchAction::Idle,
        }
    }
}

/// The shared night timetable (see `spec_switch_time_for`).
pub fn switch_time_for(weekday: u32) -> (r: Option<u32>)
    ensures
        r == spec_switch_time_for(weekday),
{
    if weekday <= 4 {
        Some(1380)
    } else if weekday == 5 || weekday == 6 {
        Some(1410)
    } else {
        None
    }
}

/// The operators' offline nights (see `spec_operator_switch_time_for`).
pub fn operator_switch_time_for(weekday: u32) -> (r: Option<u32>)
    ensures
        r == spec_operator_switch_time_for(weekday),
{
    if weekday == 0 || weekday == 1 {
        Some(1380)
    } else if weekday == 5 || weekday == 6 {
        Some(1410)
    } else {
        None
    }
}

pub fn is_switchable_operator(operator: &str) -> (r: bool)
    ensures
        r == spec_is_switchable_operator(operator@),
{
    str_eq(operator, "@telecom") || str_eq(operator, "@unicom") || str_eq(operator, "@cmcc")
}

/// The night switch decision: nothing when disabled; `Restore` when a
/// restore value is kept, the current operator is the campus and the time
/// lies in [06:30, 23:00); `SwitchToCampus` on an offline night at or after
/// its time (late ticks still fire) while an offline-prone operator is set;
/// nothing otherwise.
pub fn evaluate_night_switch(
    enabled: bool,
    weekday: u32,
    now_minutes: u32,
    current_operator: &str,
    restore_operator: &str,
) -> (r: NightSwitchAction)
    ensures
        r == spec_evaluate_night_switch(
            enabled,
            weekday,
            now_minutes,
            current_operator@,
            restore_operator@,
        ),
{
    if !enabled {
        return NightSwitchAction::Idle;
    }
    if !restore_operator.is_empty() && current_operator.is_empty() && RESTORE_START_MINUTES
        <= now_minutes && now_minutes < RESTORE_END_MINUTES {
        return NightSwitchAction::Restore;
    }
    if let Some(switch_at) = operator_switch_time_for(weekday) {
        if now_minutes >= switch_at && is_switchable_operator(current_operator) {
            return NightSwitchAction::SwitchToCampus;
        }
    }
    NightSwitchAction::Idle
}

/// A switch is never followed by a second switch: once switched (empty
/// operator), the decision is never `SwitchToCampus` again.
pub proof fn law_switched_state_never_switches_again(
    weekday: u32,
    now_minutes: u32,
    restore: Seq<char>,
)
    ensures
        spec_evaluate_night_switch(true, weekday, now_minutes, Seq::empty(), restore)
            != NightSwitchAction::SwitchToCampus,
{
    reveal_strlit("@telecom");
    reveal_strlit("@unicom");
    reveal_strlit("@cmcc");
    assert("@telecom"@.len() > 0 && "@unicom"@.len() > 0 && "@cmcc"@.len() > 0);
    assert(!spec_is_switchable_operator(Seq::empty()));
}

/// Restoring needs a kept restore value: with an empty one the decision is
/// never `Restore`.
pub proof fn law_no_restore_without_saved_operator(
    enabled: bool,
    weekday: u32,
    now_minutes: u32,
    current: Seq<char>,
)
    ensures
        spec_evaluate_night_switch(enabled, weekday, now_minutes, current, Seq::empty())
            != NightSwitchAction::Restore,
{
}

/// The restore window and the switch times never overlap: at a time where
/// a switch may fire, a restore cannot, and the other way round.
pub proof fn law_windows_disjoint(weekday: u32, now_minutes: u32)
    ensures
        in_restore_window(now_minutes) ==> match spec_operator_switch_time_for(weekday) {
            Some(t) => now_minutes < t,
            None => true,
        },
{
}

} // verus!
