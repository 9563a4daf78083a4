//! Whether a daily scheduled action (login or logout) fires now.

use vstd::prelude::*;

verus! {

pub open spec fn spec_should_fire(now_minutes: u16, target_minutes: u16, last_fired_day: i32, today_day: i32) -> bool {
    target_minutes < 1440 && now_minutes >= target_minutes && last_fired_day != today_day
}

/// A daily action fires once the target minute is reached (late ticks
/// still fire) unless it already fired today; a target of 1440 or more
/// disables it. The day number changing resets the "fired today" mark.
pub fn should_fire_scheduled_action(now_minutes: u16, target_minutes: u16, last_fired_day: i32, today_day: i32) -> (r: bool)
    ensures
        r == spec_should_fire(now_minutes, target_minutes, last_fired_day, today_day),
{
    if target_minutes >= 1440 {
        return false;
    }
    if now_minutes < target_minutes {
        return false;
    }
    last_fired_day != today_day
}

/// An action fires at most once a day: after firing (the day recorded),
/// it does not fire again that day whatever the time.
pub proof fn law_fires_at_most_once_a_day(now1: u16, now2: u16, target: u16, last: i32, today: i32)
    ensures
        spec_should_fire(now1, target, last, today) ==> !spec_should_fire(now2, target, today, today),
{
}

/// Once due on a day it stays due for the rest of that day until it fires.
pub proof fn law_stays_due_later_in_day(now1: u16, now2: u16, target: u16, last: i32, today: i32)
    requires
        now1 <= now2,
    ensures
        spec_should_fire(now1, target, last, today) ==> spec_should_fire(now2, target, last, today),
{
}

} // verus!
