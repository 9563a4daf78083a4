//! What a successful logout does to the desktop client's network flags, and
//! the protection period that follows a full logout.

use vstd::prelude::*;
use crate::auth::failure_tracker::AuthFailureCounts;
use crate::auth::outcome::{CommandResult, opt_text};
use crate::desktop::auto_exit::{AutoExitState, exit_due_at};

verus! {

/// How long after a full logout the portal is reported offline without
/// being asked, in milliseconds.
pub const LOGOUT_PROTECTION_MS: u64 = 60000;

/// The network flags a logout touches; instants are milliseconds on the
/// client's monotonic clock.
#[derive(Clone, Copy, Debug, PartialEq, Eq)]
pub struct NetworkFlags {
    pub any_adapter_online: bool,
    pub last_a1_online: bool,
    pub last_a2_online: bool,
    pub has_logged_online: bool,
    pub disconnect_reconnect_count: u32,
    pub last_auto_login_attempt_ms: u64,
    pub logout_protected_until_ms: u64,
}

/// What the page check found after the logout, per adapter.
#[derive(Clone, Copy, Debug, PartialEq, Eq)]
pub struct AdapterOnlineStatus {
    pub any_online: bool,
    pub a1_online: bool,
    pub a2_online: bool,
}

/// The status taken when the page check gave none: everything offline.
pub open spec fn status_or_offline(status: Option<AdapterOnlineStatus>) -> AdapterOnlineStatus {
    match status {
        Some(s) => s,
        None => AdapterOnlineStatus { any_online: false, a1_online: false, a2_online: false },
    }
}

/// The flags after a successful logout. Both kinds take the adapters'
/// online state from the page check (the second adapter counts only with
/// two adapters configured); a full logout (no adapter named) also clears
/// the logged-online mark and the reconnect count, records the attempt
/// time and starts the protection period.
pub open spec fn spec_after_logout(
    n: NetworkFlags,
    status: Option<AdapterOnlineStatus>,
    dual_adapter: bool,
    full: bool,
    now_ms: u64,
) -> NetworkFlags {
    let s = status_or_offline(status);
    let base = NetworkFlags {
        any_adapter_online: s.any_online,
        last_a1_online: s.a1_online,
        last_a2_online: dual_adapter && s.a2_online,
        ..n
    };
    if full {
        NetworkFlags {
            has_logged_online: false,
            disconnect_reconnect_count: 0,
            last_auto_login_attempt_ms: now_ms,
            logout_protected_until_ms: (now_ms + LOGOUT_PROTECTION_MS) as u64,
            ..base
        }
    } else {
        base
    }
}

/// The network flags after a successful logout (see `spec_after_logout`);
/// `full` is a logout of every adapter, `status` what the page check found
/// afterwards.
pub fn after_logout_state(
    n: &NetworkFlags,
    status: Option<AdapterOnlineStatus>,
    dual_adapter: bool,
    full: bool,
    now_ms: u64,
) -> (r: NetworkFlags)
    requires
        now_ms <= u64::MAX - LOGOUT_PROTECTION_MS,
    ensures
        r == spec_after_logout(*n, status, dual_adapter, full, now_ms),
{
    let s = match status {
        Some(s) => s,
        None => AdapterOnlineStatus { any_online: false, a1_online: false, a2_online: false },
    };
    let mut r = *n;
    r.any_adapter_online = s.any_online;
    r.last_a1_online = s.a1_online;
    r.last_a2_online = if dual_adapter {
        s.a2_online
    } else {
        false
    };
    if full {
        r.has_logged_online = false;
        r.disconnect_reconnect_count = 0;
        r.last_auto_login_attempt_ms = now_ms;
        r.logout_protected_until_ms = now_ms + LOGOUT_PROTECTION_MS;
    }
    r
}

/// Whether the logout protection period is still running at `now_ms`: the
/// portal status check then answers offline without asking the portal.
pub fn logout_protection_active(n: &NetworkFlags, now_ms: u64) -> (r: bool)
    ensures
        r == (now_ms < n.logout_protected_until_ms),
{
    now_ms < n.logout_protected_until_ms
}

/// For the minute after a full logout the portal counts as offline without
/// being asked, and the client no longer counts itself as logged in, with
/// its reconnect count at zero.
pub proof fn law_full_logout_protects(
    n: NetworkFlags,
    status: Option<AdapterOnlineStatus>,
    dual_adapter: bool,
    now_ms: u64,
    t: u64,
)
    requires
        now_ms <= u64::MAX - LOGOUT_PROTECTION_MS,
        now_ms <= t < now_ms + LOGOUT_PROTECTION_MS,
    ensures
        t < spec_after_logout(n, status, dual_adapter, true, now_ms).logout_protected_until_ms,
        !spec_after_logout(n, status, dual_adapter, true, now_ms).has_logged_online,
        spec_after_logout(n, status, dual_adapter, true, now_ms).disconnect_reconnect_count == 0,
{
}

/// With one adapter configured, no logout leaves the second adapter marked
/// online, and a logout of one adapter leaves the login and protection
/// state as it was.
pub proof fn law_single_adapter_logout(
    n: NetworkFlags,
    status: Option<AdapterOnlineStatus>,
    dual_adapter: bool,
    full: bool,
    now_ms: u64,
)
    ensures
        !dual_adapter ==> !spec_after_logout(n, status, dual_adapter, full, now_ms).last_a2_online,
        !full ==> {
            let r = spec_after_logout(n, status, dual_adapter, full, now_ms);
            &&& r.has_logged_online == n.has_logged_online
            &&& r.disconnect_reconnect_count == n.disconnect_reconnect_count
            &&& r.last_auto_login_attempt_ms == n.last_auto_login_attempt_ms
            &&& r.logout_protected_until_ms == n.logout_protected_until_ms
        },
{
}

/// The answer when a logout is asked for while another is still running.
pub fn logout_admission(lock_taken: bool) -> (r: Option<CommandResult>)
    ensures
        r is None <==> lock_taken,
        r matches Some(c) ==> !c.success && opt_text(c.message) == Some("注销正在进行中，请稍后再试"@)
            && c.code is None,
{
    if lock_taken {
        None
    } else {
        Some(CommandResult::err("注销正在进行中，请稍后再试"))
    }
}

/// The client state a logout changes: the network flags, the automatic
/// exit and the failure counters.
pub struct LogoutClientState {
    pub network: NetworkFlags,
    pub exit: AutoExitState,
    pub failures: AuthFailureCounts,
}

/// The automatic exit after a logout: a successful full logout cancels it
/// and clears its deadline; anything else leaves it.
pub open spec fn exit_after_logout(exit: AutoExitState, success: bool, full: bool) -> AutoExitState {
    if success && full {
        AutoExitState { deadline_ms: None, cancelled: true }
    } else {
        exit
    }
}

/// Applies the result of a logout. A failed one changes nothing. A
/// successful one sets the network flags (see `spec_after_logout`); a full
/// one also cancels the automatic exit, clears its deadline and clears
/// every failure counter.
pub fn apply_logout(
    s: &mut LogoutClientState,
    success: bool,
    status: Option<AdapterOnlineStatus>,
    dual_adapter: bool,
    full: bool,
    now_ms: u64,
)
    requires
        now_ms <= u64::MAX - LOGOUT_PROTECTION_MS,
    ensures
        final(s).network == (if success {
            spec_after_logout(old(s).network, status, dual_adapter, full, now_ms)
        } else {
            old(s).network
        }),
        final(s).exit == exit_after_logout(old(s).exit, success, full),
        success && full ==> {
            &&& final(s).failures.wf()
            &&& final(s).failures.portal_failure_count == 0
            &&& final(s).failures.a1_auth_failure_count == 0
            &&& final(s).failures.a2_auth_failure_count == 0
        },
        !(success && full) ==> final(s).failures == old(s).failures,
{
    if success {
        s.network = after_logout_state(&s.network, status, dual_adapter, full, now_ms);
        if full {
            s.exit = AutoExitState { deadline_ms: None, cancelled: true };
            s.failures.reset_all();
        }
    }
}

/// After a successful full logout the automatic exit never comes due,
/// whatever countdown was running; a failed logout leaves a running
/// countdown as it was.
pub proof fn law_full_logout_stops_exit(exit: AutoExitState, success: bool, full: bool, t: u64)
    ensures
        success && full ==> !exit_due_at(exit_after_logout(exit, success, full), t),
        !success ==> exit_due_at(exit_after_logout(exit, success, full), t) == exit_due_at(exit, t),
{
}

} // verus!
