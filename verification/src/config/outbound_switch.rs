//! When to move outbound traffic to another adapter for the night and when
//! to move it back. It shares the night timetable with the operator switch;
//! the switched state is carried by the configuration, so no de-duplication
//! marker is needed.

use vstd::prelude::*;
use crate::config::night_switch::{
    switch_time_for, spec_switch_time_for, in_restore_window, RESTORE_START_MINUTES,
    RESTORE_END_MINUTES,
};

verus! {

#[derive(Debug, Clone, Copy, PartialEq, Eq, Structural)]
pub enum NightOutboundAction {
    /// Nothing to do this tick (also: switched and still night).
    Idle,
    /// Move outbound traffic and record the restore snapshot.
    Switch,
    /// Undo the move from the snapshot.
    Restore,
}

pub open spec fn spec_evaluate_night_outbound(
    enabled: bool,
    weekday: u32,
    now_minutes: u32,
    restore_active: bool,
) -> NightOutboundAction {
    if !enabled {
        NightOutboundAction::Idle
    } else if restore_active {
        if in_restore_window(now_minutes) {
            NightOutboundAction::Restore
        } else {
            NightOutboundAction::Idle
        }
    } else {
        match spec_switch_time_for(weekday) {
            Some(t) => if now_minutes >= t {
                NightOutboundAction::Switch
            } else {
                NightOutboundAction::Idle
            },
            None => NightOutboundAction::Idle,
        }
    }
}

/// The outbound decision: nothing when disabled; while switched, `Restore`
/// inside [06:30, 23:00) and nothing otherwise; while not switched,
/// `Switch` at or after the night's switch time.
pub fn evaluate_night_outbound(enabled: bool, weekday: u32, now_minutes: u32, restore_active: bool) -> (r:
    NightOutboundAction)
    ensures
        r == spec_evaluate_night_outbound(enabled, weekday, now_minutes, restore_active),
{
    if !enabled {
        return NightOutboundAction::Idle;
    }
    if restore_active {
        if RESTORE_START_MINUTES <= now_minutes && now_minutes < RESTORE_END_MINUTES {
            return NightOutboundAction::Restore;
        }
        return NightOutboundAction::Idle;
    }
    match switch_time_for(weekday) {
        Some(t) => if now_minutes >= t {
            NightOutboundAction::Switch
        } else {
            NightOutboundAction::Idle
        },
        None => NightOutboundAction::Idle,
    }
}

/// The decision never asks to switch while already switched, nor to
/// restore while not switched.
pub proof fn law_outbound_action_matches_state(
    enabled: bool,
    weekday: u32,
    now_minutes: u32,
    restore_active: bool,
)
    ensures
        restore_active ==> spec_evaluate_night_outbound(enabled, weekday, now_minutes, restore_active)
            != NightOutboundAction::Switch,
        !restore_active ==> spec_evaluate_night_outbound(enabled, weekday, now_minutes, restore_active)
            != NightOutboundAction::Restore,
{
}

} // verus!
