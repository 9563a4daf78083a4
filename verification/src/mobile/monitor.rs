//! The background monitor's decisions. Each check probes the campus network
//! and the portal (outside work done by the caller) and hands the results
//! to `MonitorState::plan_after_probe`, which keeps the online state and
//! the reconnect counters and says whether to log in again; the caller
//! reports the login outcome back with `record_login_outcome`.

use vstd::prelude::*;
use crate::text::to_owned_string;
use crate::mobile::settings::Settings;

verus! {

/// Delay between a Wi-Fi change and the check it triggers, in ms.
pub const WIFI_EVENT_DELAY_MS: u64 = 2500;
/// Wi-Fi events closer than this to the previous one belong to the same
/// burst, in ms.
pub const WIFI_EVENT_DEBOUNCE_MS: u64 = 1000;
/// Failed automatic logins after which the monitor stops trying.
pub const MAX_CONSECUTIVE_FAILURES: u32 = 5;
/// Shortest check interval, in ms.
pub const MIN_CHECK_INTERVAL_MS: u64 = 5000;

/// The monitor's state between checks.
pub struct MonitorState {
    pub running: bool,
    pub check_count: u64,
    /// Failed automatic logins in a row (reset when online).
    pub consecutive_failures: u32,
    /// Automatic reconnects in the current offline spell (reset when online).
    pub reconnect_count: u32,
    pub last_login_attempt_ms: u64,
    pub was_online: bool,
    /// Interval the running loop should use, in ms.
    pub desired_interval_ms: u64,
    /// Interval used on mobile data or with the screen off, in ms.
    pub idle_interval_ms: u64,
    /// No automatic login before this time (epoch ms) after a manual logout.
    pub logout_protected_until_ms: u64,
    /// Time of the Wi-Fi event that started the current burst (epoch ms).
    pub wifi_event_ms: u64,
    /// Online state shown in the persistent notification (0: none yet,
    /// 1: online, 2: offline).
    pub notified_online: u8,
}

/// What one check decided.
pub struct TickPlan {
    /// The online state after this check.
    pub online: bool,
    /// The connection dropped on the campus network: tell the user.
    pub notify_dropout: bool,
    /// Log in again now.
    pub attempt_login: bool,
    /// This attempt reached the reconnect limit: tell the user.
    pub notify_reconnect_cap: bool,
}

/// Whether a Wi-Fi event starts a new burst (and so schedules a check):
/// the first event ever, or one at least `debounce_ms` after the previous.
pub open spec fn spec_burst_start(last_event_ms: u64, now_ms: u64, debounce_ms: u64) -> bool {
    last_event_ms == 0 || (if now_ms >= last_event_ms {
        now_ms - last_event_ms
    } else {
        0
    }) >= debounce_ms
}

/// Whether a Wi-Fi event starts a new burst (see `spec_burst_start`).
pub fn wifi_event_is_burst_start(last_event_ms: u64, now_ms: u64, debounce_ms: u64) -> (r: bool)
    ensures
        r == spec_burst_start(last_event_ms, now_ms, debounce_ms),
{
    last_event_ms == 0 || now_ms.saturating_sub(last_event_ms) >= debounce_ms
}

/// The check interval: the base interval (at least 5 s) on Wi-Fi with the
/// screen on; otherwise the idle interval, never shorter than the base.
pub open spec fn spec_effective_interval(base_ms: u64, idle_ms: u64, screen_on: bool, wifi_connected: bool) -> u64 {
    let base = if base_ms > MIN_CHECK_INTERVAL_MS {
        base_ms
    } else {
        MIN_CHECK_INTERVAL_MS
    };
    if screen_on && wifi_connected {
        base
    } else if idle_ms > base {
        idle_ms
    } else {
        base
    }
}

/// The check interval (see `spec_effective_interval`).
pub fn effective_interval_ms(base_ms: u64, idle_ms: u64, screen_on: bool, wifi_connected: bool) -> (r: u64)
    ensures
        r == spec_effective_interval(base_ms, idle_ms, screen_on, wifi_connected),
{
    let base = if base_ms > MIN_CHECK_INTERVAL_MS {
        base_ms
    } else {
        MIN_CHECK_INTERVAL_MS
    };
    if screen_on && wifi_connected {
        base
    } else if idle_ms > base {
        idle_ms
    } else {
        base
    }
}

/// Whether to log in on this check: offline on the campus network; after a
/// drop always, when offline from the start only with automatic login on;
/// below the reconnect limit; and after the cooldown.
pub open spec fn spec_should_attempt_login(
    online: bool,
    was_online: bool,
    on_campus: bool,
    auto_login_on_preparation: bool,
    reconnect_count: u32,
    max_reconnect: u32,
    millis_since_last_attempt: u64,
    cooldown_secs: u64,
) -> bool {
    &&& !online
    &&& on_campus
    &&& (was_online || auto_login_on_preparation)
    &&& reconnect_count < max_reconnect
    &&& millis_since_last_attempt >= (if cooldown_secs * 1000 > u64::MAX {
        u64::MAX as int
    } else {
        cooldown_secs * 1000
    })
}

/// Whether to log in on this check (see `spec_should_attempt_login`).
pub fn should_attempt_login(
    online: bool,
    was_online: bool,
    on_campus: bool,
    auto_login_on_preparation: bool,
    reconnect_count: u32,
    max_reconnect: u32,
    millis_since_last_attempt: u64,
    cooldown_secs: u64,
) -> (r: bool)
    ensures
        r == spec_should_attempt_login(
            online,
            was_online,
            on_campus,
            auto_login_on_preparation,
            reconnect_count,
            max_reconnect,
            millis_since_last_attempt,
            cooldown_secs,
        ),
{
    if online || !on_campus {
        return false;
    }
    if !was_online && !auto_login_on_preparation {
        return false;
    }
    if reconnect_count >= max_reconnect {
        return false;
    }
    let cooldown_ms: u64 = if cooldown_secs > u64::MAX / 1000 {
        u64::MAX
    } else {
        cooldown_secs * 1000
    };
    millis_since_last_attempt >= cooldown_ms
}

/// Whether the time of day (minutes since midnight) lies outside the
/// checking hours: before `start` (0 disables the limit), or at or after
/// `end` when `end` lies after `start`.
pub open spec fn spec_check_silent(minutes_now: u16, start: u16, end: u16) -> bool {
    start > 0 && (minutes_now < start || (end > start && minutes_now >= end))
}

/// Whether this check is skipped for the time of day (see
/// `spec_check_silent`).
pub fn campus_check_silent(minutes_now: u16, start: u16, end: u16) -> (r: bool)
    ensures
        r == spec_check_silent(minutes_now, start, end),
{
    start > 0 && (minutes_now < start || (end > start && minutes_now >= end))
}

/// Whether the loop runs the probe on this wake-up: the first time, or once
/// the effective interval has passed since the last probe.
pub fn tick_should_probe(last_probe_ms: u64, now_ms: u64, effective_ms: u64) -> (r: bool)
    ensures
        r == (last_probe_ms == 0 || (if now_ms >= last_probe_ms {
            now_ms - last_probe_ms
        } else {
            0
        }) >= effective_ms),
{
    last_probe_ms == 0 || now_ms.saturating_sub(last_probe_ms) >= effective_ms
}

/// The interval the loop switches to, if the wanted one (0: unset) differs
/// from the current one.
pub fn interval_update(current_ms: u64, desired_ms: u64) -> (r: Option<u64>)
    ensures
        r == (if desired_ms != 0 && desired_ms != current_ms {
            Some(desired_ms)
        } else {
            None
        }),
{
    if desired_ms != 0 && desired_ms != current_ms {
        Some(desired_ms)
    } else {
        None
    }
}

/// The state after one check, given the portal's decision (`None`: no
/// decided answer, the online state is kept) and the campus detection.
pub open spec fn is_tick_step(
    old: MonitorState,
    new: MonitorState,
    plan: TickPlan,
    portal_online: Option<bool>,
    on_campus: bool,
    auto_login_on_preparation: bool,
    max_reconnect: u32,
    cooldown_secs: u64,
    has_credentials: bool,
    now_ms: u64,
) -> bool {
    let online = match portal_online {
        Some(o) => o,
        None => old.was_online,
    };
    let since: u64 = if now_ms >= old.last_login_attempt_ms {
        (now_ms - old.last_login_attempt_ms) as u64
    } else {
        0
    };
    let allowed = now_ms >= old.logout_protected_until_ms && old.consecutive_failures
        < MAX_CONSECUTIVE_FAILURES && spec_should_attempt_login(
        online,
        old.was_online,
        on_campus,
        auto_login_on_preparation,
        old.reconnect_count,
        max_reconnect,
        since,
        cooldown_secs,
    );
    let attempt = allowed && has_credentials;
    &&& plan.online == online
    &&& plan.notify_dropout == (old.was_online && !online && on_campus)
    &&& plan.attempt_login == attempt
    &&& new.was_online == online
    &&& new.consecutive_failures == (if online {
        0
    } else {
        old.consecutive_failures
    })
    &&& new.logout_protected_until_ms == (if online {
        0
    } else {
        old.logout_protected_until_ms
    })
    &&& new.reconnect_count == (if online {
        0
    } else if attempt {
        (old.reconnect_count + 1) as u32
    } else {
        old.reconnect_count
    })
    &&& new.last_login_attempt_ms == (if attempt {
        now_ms
    } else {
        old.last_login_attempt_ms
    })
    &&& plan.notify_reconnect_cap == (attempt && new.reconnect_count >= max_reconnect)
    &&& new.running == old.running
    &&& new.check_count == old.check_count
    &&& new.desired_interval_ms == old.desired_interval_ms
    &&& new.idle_interval_ms == old.idle_interval_ms
    &&& new.wifi_event_ms == old.wifi_event_ms
    &&& new.notified_online == old.notified_online
}

/// Whether the monitor loop is running.
pub fn is_running(state: &MonitorState) -> (r: bool)
    ensures
        r == state.running,
{
    state.running
}

impl MonitorState {
    /// A monitor that is not running and has seen nothing.
    pub fn new() -> (r: Self)
        ensures
            !r.running,
            r.check_count == 0,
            r.consecutive_failures == 0,
            r.reconnect_count == 0,
            r.last_login_attempt_ms == 0,
            !r.was_online,
            r.desired_interval_ms == 0,
            r.idle_interval_ms == 0,
            r.logout_protected_until_ms == 0,
            r.wifi_event_ms == 0,
            r.notified_online == 0,
    {
        MonitorState {
            running: false,
            check_count: 0,
            consecutive_failures: 0,
            reconnect_count: 0,
            last_login_attempt_ms: 0,
            was_online: false,
            desired_interval_ms: 0,
            idle_interval_ms: 0,
            logout_protected_until_ms: 0,
            wifi_event_ms: 0,
            notified_online: 0,
        }
    }

    /// Records the intervals asked for when the monitor is started; returns
    /// whether the loop still has to be started (it was not running).
    pub fn prepare_start(&mut self, interval_ms: u64, idle_interval_ms: u64) -> (must_start: bool)
        ensures
            final(self).desired_interval_ms == (if interval_ms > MIN_CHECK_INTERVAL_MS {
                interval_ms
            } else {
                MIN_CHECK_INTERVAL_MS
            }),
            final(self).idle_interval_ms == idle_interval_ms,
            must_start == !old(self).running,
            final(self).running == old(self).running,
    {
        self.desired_interval_ms = if interval_ms > MIN_CHECK_INTERVAL_MS {
            interval_ms
        } else {
            MIN_CHECK_INTERVAL_MS
        };
        self.idle_interval_ms = idle_interval_ms;
        !self.running
    }

    /// The loop has started: running, and the notification state forgotten
    /// (the next check refreshes it).
    pub fn mark_started(&mut self)
        ensures
            final(self).running,
            final(self).notified_online == 0,
            *final(self) == (MonitorState {
                running: true,
                notified_online: 0,
                ..*old(self)
            }),
    {
        self.running = true;
        self.notified_online = 0;
    }

    /// The loop is asked to stop.
    pub fn mark_stopped(&mut self)
        ensures
            *final(self) == (MonitorState { running: false, ..*old(self) }),
    {
        self.running = false;
    }

    /// Counts one more check.
    pub fn begin_check(&mut self)
        ensures
            *final(self) == (MonitorState {
                check_count: if old(self).check_count == u64::MAX {
                    0
                } else {
                    (old(self).check_count + 1) as u64
                },
                ..*old(self)
            }),
    {
        self.check_count = if self.check_count == u64::MAX {
            0
        } else {
            self.check_count + 1
        };
    }

    /// A Wi-Fi event at `now_ms`: returns whether it starts a burst, and
    /// then remembers it as the burst's start.
    pub fn note_wifi_event(&mut self, now_ms: u64) -> (schedule: bool)
        ensures
            schedule == spec_burst_start(old(self).wifi_event_ms, now_ms, WIFI_EVENT_DEBOUNCE_MS),
            schedule ==> *final(self) == (MonitorState { wifi_event_ms: now_ms, ..*old(self) }),
            !schedule ==> *final(self) == *old(self),
    {
        let schedule = wifi_event_is_burst_start(self.wifi_event_ms, now_ms, WIFI_EVENT_DEBOUNCE_MS);
        if schedule {
            self.wifi_event_ms = now_ms;
        }
        schedule
    }

    /// Whether the check scheduled for the burst that started at `t` is
    /// still the latest one (a later burst supersedes it).
    pub fn wifi_event_is_current(&self, t: u64) -> (r: bool)
        ensures
            r == (self.wifi_event_ms == t),
    {
        self.wifi_event_ms == t
    }

    /// The decisions of one check once the probes are done. `portal_online`
    /// is the portal's decided answer (`None` when it could not decide or
    /// the probe failed: the previous state is kept, no false offline).
    /// Online resets the reconnect and failure counters and the logout
    /// protection. A login is attempted only outside the logout protection,
    /// below the failure fuse, when `should_attempt_login` agrees and
    /// credentials are saved; an attempt counts one reconnect.
    pub fn plan_after_probe(
        &mut self,
        portal_online: Option<bool>,
        on_campus: bool,
        settings: &Settings,
        now_ms: u64,
    ) -> (plan: TickPlan)
        ensures
            is_tick_step(
                *old(self),
                *final(self),
                plan,
                portal_online,
                on_campus,
                settings.auto_login_on_preparation,
                settings.max_disconnect_reconnect,
                settings.auto_login_cooldown_secs,
                settings.user@.len() > 0 && settings.password@.len() > 0,
                now_ms,
            ),
    {
        let prev_online = self.was_online;
        let online = match portal_online {
            Some(o) => o,
            None => prev_online,
        };
        let since = now_ms.saturating_sub(self.last_login_attempt_ms);
        let protected = now_ms < self.logout_protected_until_ms;
        let capped = self.consecutive_failures >= MAX_CONSECUTIVE_FAILURES;
        let should = !protected && !capped && should_attempt_login(
            online,
            prev_online,
            on_campus,
            settings.auto_login_on_preparation,
            self.reconnect_count,
            settings.max_disconnect_reconnect,
            since,
            settings.auto_login_cooldown_secs,
        );
        let attempt = should && !settings.user.as_str().is_empty() && !settings.password.as_str().is_empty();
        if online {
            self.reconnect_count = 0;
            self.consecutive_failures = 0;
            self.logout_protected_until_ms = 0;
        }
        self.was_online = online;
        let mut cap = false;
        if attempt {
            self.last_login_attempt_ms = now_ms;
            self.reconnect_count = self.reconnect_count + 1;
            cap = self.reconnect_count >= settings.max_disconnect_reconnect;
        }
        TickPlan {
            online,
            notify_dropout: prev_online && !online && on_campus,
            attempt_login: attempt,
            notify_reconnect_cap: cap,
        }
    }

    /// Records how an automatic login ended: `Some(true)` success,
    /// `Some(false)` refused by the portal, `None` not carried out. Every
    /// failure counts towards the fuse.
    pub fn record_login_outcome(&mut self, success: Option<bool>)
        ensures
            *final(self) == (MonitorState {
                consecutive_failures: if success == Some(true) {
                    old(self).consecutive_failures
                } else if old(self).consecutive_failures == u32::MAX {
                    0
                } else {
                    (old(self).consecutive_failures + 1) as u32
                },
                ..*old(self)
            }),
    {
        if success != Some(true) {
            self.consecutive_failures = if self.consecutive_failures == u32::MAX {
                0
            } else {
                self.consecutive_failures + 1
            };
        }
    }

    /// A successful login (manual or at start-up) proves the connection:
    /// online, and no logout protection left.
    pub fn note_logged_in(&mut self)
        ensures
            *final(self) == (MonitorState {
                was_online: true,
                logout_protected_until_ms: 0,
                ..*old(self)
            }),
    {
        self.was_online = true;
        self.logout_protected_until_ms = 0;
    }

    /// Records the online state shown by the persistent notification;
    /// returns whether it changed (and the notification must be rebuilt).
    pub fn update_notified_state(&mut self, online: bool) -> (changed: bool)
        ensures
            final(self).notified_online == (if online {
                1u8
            } else {
                2u8
            }),
            changed == (old(self).notified_online != final(self).notified_online),
            *final(self) == (MonitorState {
                notified_online: final(self).notified_online,
                ..*old(self)
            }),
    {
        let code: u8 = if online {
            1
        } else {
            2
        };
        let changed = self.notified_online != code;
        self.notified_online = code;
        changed
    }
}

/// What one check reports to the front end.
pub struct CheckSummary {
    pub server_available: bool,
    pub login_available: bool,
    pub online: bool,
    pub message: String,
    pub on_campus_network: bool,
    pub campus_message: String,
}

/// The report of one check: "online" when online, else the portal's
/// message; and whether the campus network was detected.
pub fn check_summary(
    portal_reachable: bool,
    portal_login_available: bool,
    online: bool,
    portal_message: &str,
    on_campus: bool,
) -> (r: CheckSummary)
    ensures
        r.server_available == portal_reachable,
        r.login_available == portal_login_available,
        r.online == online,
        r.message@ == (if online {
            "在线"@
        } else {
            portal_message@
        }),
        r.on_campus_network == on_campus,
        r.campus_message@ == (if on_campus {
            "已连接校园网"@
        } else {
            "未连接校园网"@
        }),
{
    CheckSummary {
        server_available: portal_reachable,
        login_available: portal_login_available,
        online,
        message: if online {
            to_owned_string("在线")
        } else {
            to_owned_string(portal_message)
        },
        on_campus_network: on_campus,
        campus_message: if on_campus {
            to_owned_string("已连接校园网")
        } else {
            to_owned_string("未连接校园网")
        },
    }
}

// ---------------------------------------------------------------------------
// Laws
// ---------------------------------------------------------------------------

/// Online, the monitor never logs in, and all its counters start afresh.
pub proof fn law_online_resets_and_never_logs_in(
    old: MonitorState,
    new: MonitorState,
    plan: TickPlan,
    portal_online: Option<bool>,
    on_campus: bool,
    prep: bool,
    max_reconnect: u32,
    cooldown: u64,
    creds: bool,
    now: u64,
)
    requires
        is_tick_step(old, new, plan, portal_online, on_campus, prep, max_reconnect, cooldown, creds, now),
        plan.online,
    ensures
        !plan.attempt_login,
        new.reconnect_count == 0,
        new.consecutive_failures == 0,
        new.logout_protected_until_ms == 0,
{
}

/// A portal that cannot decide never flips the online state.
pub proof fn law_undecided_portal_keeps_state(
    old: MonitorState,
    new: MonitorState,
    plan: TickPlan,
    on_campus: bool,
    prep: bool,
    max_reconnect: u32,
    cooldown: u64,
    creds: bool,
    now: u64,
)
    requires
        is_tick_step(old, new, plan, None, on_campus, prep, max_reconnect, cooldown, creds, now),
    ensures
        plan.online == old.was_online,
        new.was_online == old.was_online,
{
}

/// The reconnect counter never passes the limit: a state within it stays
/// within it.
pub proof fn law_reconnects_stay_within_limit(
    old: MonitorState,
    new: MonitorState,
    plan: TickPlan,
    portal_online: Option<bool>,
    on_campus: bool,
    prep: bool,
    max_reconnect: u32,
    cooldown: u64,
    creds: bool,
    now: u64,
)
    requires
        is_tick_step(old, new, plan, portal_online, on_campus, prep, max_reconnect, cooldown, creds, now),
        old.reconnect_count <= max_reconnect,
    ensures
        new.reconnect_count <= max_reconnect,
{
}

/// No automatic login during the logout protection, after the failure
/// fuse has blown, off the campus network, or before the cooldown.
pub proof fn law_login_guards(
    old: MonitorState,
    new: MonitorState,
    plan: TickPlan,
    portal_online: Option<bool>,
    on_campus: bool,
    prep: bool,
    max_reconnect: u32,
    cooldown: u64,
    creds: bool,
    now: u64,
)
    requires
        is_tick_step(old, new, plan, portal_online, on_campus, prep, max_reconnect, cooldown, creds, now),
        plan.attempt_login,
    ensures
        now >= old.logout_protected_until_ms,
        old.consecutive_failures < MAX_CONSECUTIVE_FAILURES,
        on_campus,
        creds,
        old.reconnect_count < max_reconnect,
        (now >= old.last_login_attempt_ms && now - old.last_login_attempt_ms >= cooldown * 1000)
            || cooldown == 0 || cooldown * 1000 > u64::MAX,
        new.last_login_attempt_ms == now,
{
}

} // verus!
