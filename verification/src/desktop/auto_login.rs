//! The desktop's automatic logins: when a portal that offers a login page
//! triggers one, how a dropped connection is reconnected (three attempts,
//! then a notice, then a reminder every tenth check), and what the start-up
//! login does, step by step.

use vstd::prelude::*;
use crate::text::{concat2, concat3, str_eq, to_owned_string, u64_to_decimal, decimal};
use crate::auth::outcome::{CommandResult, opt_text};
use crate::auth::session::{PortalProbe, CmdView, cmd_view};

verus! {

/// Reconnect attempts after a drop.
pub const MAX_DISCONNECT_RECONNECT: u32 = 3;
/// After the attempts ran out, a reminder every this many checks.
pub const RECONNECT_REMINDER_INTERVAL: u32 = 10;
/// Seconds between two automatic logins.
pub const AUTO_LOGIN_COOLDOWN_SECS: u64 = 30;

/// Whether a check that found the login page should log in: the page is
/// there, the client is offline, automatic login is on, no login has
/// succeeded yet, and the cooldown has passed.
pub fn preparation_login_due(
    login_available: bool,
    online: bool,
    auto_login_on_preparation: bool,
    has_logged_online: bool,
    secs_since_last_attempt: u64,
) -> (r: bool)
    ensures
        r == (login_available && !online && auto_login_on_preparation && !has_logged_online
            && secs_since_last_attempt >= AUTO_LOGIN_COOLDOWN_SECS),
{
    if !login_available || online || !auto_login_on_preparation {
        return false;
    }
    if has_logged_online {
        return false;
    }
    secs_since_last_attempt >= AUTO_LOGIN_COOLDOWN_SECS
}

/// What a check does about a dropped connection.
#[derive(Debug, PartialEq, Eq, Structural)]
pub enum ReconnectAction {
    /// Nothing this time.
    Idle,
    /// Tell the user and log in again (attempt number given).
    Reconnect { attempt: u32 },
    /// The attempts ran out: tell the user to log in by hand.
    NotifyLimit,
    /// Still offline long after the attempts ran out: remind the user.
    Remind,
}

/// Whether a check is a reconnect occasion: the client was online, an
/// adapter is now offline (the primary, found but offline, or the
/// secondary), the portal is reachable with its login page, automatic
/// login is on, and the cooldown has passed.
pub open spec fn reconnect_occasion(
    was_online: bool,
    online: bool,
    primary_found: bool,
    secondary_online: Option<bool>,
    reachable: bool,
    login_available: bool,
    auto_login_on_preparation: bool,
    secs_since_last_attempt: u64,
) -> bool {
    let any_offline = (!online && primary_found) || secondary_online == Some(false);
    was_online && any_offline && reachable && login_available && auto_login_on_preparation
        && secs_since_last_attempt >= AUTO_LOGIN_COOLDOWN_SECS
}

/// The action for the `count`-th occasion since the drop.
pub open spec fn reconnect_action_for(count: u32) -> ReconnectAction {
    if count <= MAX_DISCONNECT_RECONNECT {
        ReconnectAction::Reconnect { attempt: count }
    } else if count == MAX_DISCONNECT_RECONNECT + 1 {
        ReconnectAction::NotifyLimit
    } else if (count - MAX_DISCONNECT_RECONNECT) % (RECONNECT_REMINDER_INTERVAL as int) == 0 {
        ReconnectAction::Remind
    } else {
        ReconnectAction::Idle
    }
}

/// One check's reconnect decision: on an occasion the counter goes up by
/// one (wrapping, as an atomic counter does) and the action follows from
/// it; otherwise nothing changes.
pub fn reconnect_step(
    count: u32,
    was_online: bool,
    online: bool,
    primary_found: bool,
    secondary_online: Option<bool>,
    reachable: bool,
    login_available: bool,
    auto_login_on_preparation: bool,
    secs_since_last_attempt: u64,
) -> (r: (u32, ReconnectAction))
    ensures
        !reconnect_occasion(
            was_online,
            online,
            primary_found,
            secondary_online,
            reachable,
            login_available,
            auto_login_on_preparation,
            secs_since_last_attempt,
        ) ==> r == (count, ReconnectAction::Idle),
        reconnect_occasion(
            was_online,
            online,
            primary_found,
            secondary_online,
            reachable,
            login_available,
            auto_login_on_preparation,
            secs_since_last_attempt,
        ) ==> r.0 == (if count == u32::MAX {
            0
        } else {
            (count + 1) as u32
        }) && r.1 == reconnect_action_for(r.0),
{
    let any_offline = (!online && primary_found) || secondary_online == Some(false);
    if !was_online || !any_offline || !reachable || !login_available || !auto_login_on_preparation {
        return (count, ReconnectAction::Idle);
    }
    if secs_since_last_attempt < AUTO_LOGIN_COOLDOWN_SECS {
        return (count, ReconnectAction::Idle);
    }
    let n = if count == u32::MAX {
        0
    } else {
        count + 1
    };
    let action = if n <= MAX_DISCONNECT_RECONNECT {
        ReconnectAction::Reconnect { attempt: n }
    } else if n == MAX_DISCONNECT_RECONNECT + 1 {
        ReconnectAction::NotifyLimit
    } else if (n - MAX_DISCONNECT_RECONNECT) % RECONNECT_REMINDER_INTERVAL == 0 {
        ReconnectAction::Remind
    } else {
        ReconnectAction::Idle
    };
    (n, action)
}

/// The adapter named in reconnect notices: the primary when it is the one
/// offline, else the secondary.
pub fn offline_adapter_name<'a>(online: bool, adapter1_name: &'a str, adapter2_name: &'a str) -> (r: &'a str)
    ensures
        r@ == (if !online {
            adapter1_name@
        } else {
            adapter2_name@
        }),
{
    if !online {
        adapter1_name
    } else {
        adapter2_name
    }
}

/// The notice of a reconnect attempt: `<adapter> 已离线，正在自动重连 (n/3)`.
pub fn reconnect_notice(adapter: &str, attempt: u32) -> (r: String)
    ensures
        r@ == adapter@ + " 已离线，正在自动重连 ("@ + decimal(attempt as nat) + "/3)"@,
{
    let n = u64_to_decimal(attempt as u64);
    let head = concat3(adapter, " 已离线，正在自动重连 (", n.as_str());
    concat2(head.as_str(), "/3)")
}

/// The account the start-up portal probe sends: `user@operator`, or the
/// bare user when the operator is empty or the placeholder `__default__`.
pub fn startup_user_account(user: &str, operator: &str) -> (r: String)
    ensures
        r@ == (if operator@.len() > 0 && operator@ != "__default__"@ {
            user@ + "@"@ + operator@
        } else {
            user@
        }),
{
    if !operator.is_empty() && !str_eq(operator, "__default__") {
        concat3(user, "@", operator)
    } else {
        to_owned_string(user)
    }
}

/// The message of a start-up login skipped because the primary adapter is
/// already online: its message, followed by `, ` and the secondary's when
/// there is one.
pub fn startup_skip_message(primary: &str, secondary: Option<&str>) -> (r: String)
    ensures
        r@ == primary@ + (match secondary {
            Some(s) => ", "@ + s@,
            None => ""@,
        }),
{
    match secondary {
        Some(s) => concat3(primary, ", ", s),
        None => concat2(primary, ""),
    }
}

/// At most three reconnect attempts follow a drop: the fourth occasion
/// only tells the user, and later ones never log in.
pub proof fn law_reconnects_are_limited(count: u32)
    ensures
        count > MAX_DISCONNECT_RECONNECT ==> !(reconnect_action_for(count) is Reconnect),
        count == MAX_DISCONNECT_RECONNECT + 1 ==> reconnect_action_for(count) == ReconnectAction::NotifyLimit,
{
}

/// How long the start-up login waits before it looks at the network, in ms.
pub const STARTUP_DELAY_MS: u64 = 1500;

/// Where the start-up login stands.
#[derive(Clone, Copy, Debug, PartialEq, Eq)]
pub enum StartupStage {
    Start,
    Waiting,
    Listing,
    Probing,
    Locking,
    LoggingIn,
    Done,
}

/// The start-up login's state: its stage, and the two settings read with
/// the adapters that decide what follows a successful login.
#[derive(Clone, Copy, Debug, PartialEq, Eq)]
pub struct StartupState {
    pub stage: StartupStage,
    pub notify_enabled: bool,
    pub auto_exit_after_login: bool,
}

/// What the start-up login learns from outside.
pub enum StartupEvent {
    /// The configuration was read: whether to log in at start-up.
    Configured { auto_login_on_start: bool },
    /// The start-up delay is over: whether the application is quitting and
    /// whether a login already succeeded.
    Woke { quitting: bool, logged_online: bool },
    /// The adapters were listed (`ok` false: listing failed). `primary_ready`:
    /// the first adapter is present with an address; `secondary_ready`: two
    /// adapters are configured and the second is present with an address.
    /// The two settings come from the configuration read then.
    AdaptersListed {
        ok: bool,
        primary_ready: bool,
        secondary_ready: bool,
        notify_enabled: bool,
        auto_exit_after_login: bool,
    },
    /// The portal probes came back (`None`: a probe failed).
    Probed { primary: Option<PortalProbe>, secondary: Option<PortalProbe> },
    /// The login lock was tried; once taken, whether a login has succeeded
    /// meanwhile.
    LockTried { taken: bool, logged_online: bool },
    /// The login came back (`None`: its task failed).
    LoginFinished(Option<CommandResult>),
}

/// What to do next.
pub enum StartupAction {
    /// Stop without telling anyone.
    Stop,
    /// Wait this long.
    Sleep { ms: u64 },
    /// List the adapters and read the configuration.
    ListAdapters,
    /// Probe the portal through the first adapter (and the second, when
    /// `secondary`).
    ProbePortal { secondary: bool },
    /// Try to take the login lock.
    TakeLock,
    /// Record the attempt time and log in.
    LogIn,
    /// Tell the front end the login was skipped, already online, with this
    /// message.
    ReportSkipped(String),
    /// Tell the front end this result; after a success also mark the
    /// client online, and notify and start the automatic exit when asked.
    Report { result: CommandResult, mark_online: bool, notify: bool, start_auto_exit: bool },
    /// The event does not belong to this stage; nothing happens.
    Ignore,
}

pub enum StartupEventSpec {
    Configured { auto_login_on_start: bool },
    Woke { quitting: bool, logged_online: bool },
    AdaptersListed {
        ok: bool,
        primary_ready: bool,
        secondary_ready: bool,
        notify_enabled: bool,
        auto_exit_after_login: bool,
    },
    Probed { primary: Option<(bool, Seq<char>)>, secondary: Option<(bool, Seq<char>)> },
    LockTried { taken: bool, logged_online: bool },
    LoginFinished(Option<CmdView>),
}

pub enum StartupActionSpec {
    Stop,
    Sleep { ms: u64 },
    ListAdapters,
    ProbePortal { secondary: bool },
    TakeLock,
    LogIn,
    ReportSkipped(Seq<char>),
    Report { result: CmdView, mark_online: bool, notify: bool, start_auto_exit: bool },
    Ignore,
}

pub open spec fn probe_view(p: Option<PortalProbe>) -> Option<(bool, Seq<char>)> {
    match p {
        Some(x) => Some((x.online, x.message@)),
        None => None,
    }
}

pub open spec fn startup_event_view(e: StartupEvent) -> StartupEventSpec {
    match e {
        StartupEvent::Configured { auto_login_on_start } => StartupEventSpec::Configured { auto_login_on_start },
        StartupEvent::Woke { quitting, logged_online } => StartupEventSpec::Woke { quitting, logged_online },
        StartupEvent::AdaptersListed { ok, primary_ready, secondary_ready, notify_enabled, auto_exit_after_login } =>
            StartupEventSpec::AdaptersListed {
            ok,
            primary_ready,
            secondary_ready,
            notify_enabled,
            auto_exit_after_login,
        },
        StartupEvent::Probed { primary, secondary } => StartupEventSpec::Probed {
            primary: probe_view(primary),
            secondary: probe_view(secondary),
        },
        StartupEvent::LockTried { taken, logged_online } => StartupEventSpec::LockTried { taken, logged_online },
        StartupEvent::LoginFinished(Some(c)) => StartupEventSpec::LoginFinished(Some(cmd_view(c))),
        StartupEvent::LoginFinished(None) => StartupEventSpec::LoginFinished(None),
    }
}

pub open spec fn startup_action_view(a: StartupAction) -> StartupActionSpec {
    match a {
        StartupAction::Stop => StartupActionSpec::Stop,
        StartupAction::Sleep { ms } => StartupActionSpec::Sleep { ms },
        StartupAction::ListAdapters => StartupActionSpec::ListAdapters,
        StartupAction::ProbePortal { secondary } => StartupActionSpec::ProbePortal { secondary },
        StartupAction::TakeLock => StartupActionSpec::TakeLock,
        StartupAction::LogIn => StartupActionSpec::LogIn,
        StartupAction::ReportSkipped(m) => StartupActionSpec::ReportSkipped(m@),
        StartupAction::Report { result, mark_online, notify, start_auto_exit } => StartupActionSpec::Report {
            result: cmd_view(result),
            mark_online,
            notify,
            start_auto_exit,
        },
        StartupAction::Ignore => StartupActionSpec::Ignore,
    }
}

pub open spec fn at(s: StartupState, stage: StartupStage) -> StartupState {
    StartupState { stage, ..s }
}

/// The result of a login skipped because one succeeded meanwhile.
pub open spec fn already_logged_in_view() -> CmdView {
    (true, Some("已在线，跳过登录"@), None)
}

pub open spec fn report_for(s: StartupState, c: CmdView) -> StartupActionSpec {
    StartupActionSpec::Report {
        result: c,
        mark_online: c.0,
        notify: c.0 && s.notify_enabled,
        start_auto_exit: c.0 && s.auto_exit_after_login,
    }
}

/// The start-up login, step by step: off in the configuration, nothing;
/// otherwise a short wait, after which a quitting application or a login
/// that already succeeded stops it; the adapters are listed (a failure
/// stops it); with the first adapter ready the portal is probed through it
/// (and through the second with two adapters ready), and a portal showing
/// it online ends the run as "skipped" with its message (and the second's);
/// otherwise the login lock is tried (held elsewhere: stop), a login that
/// succeeded meanwhile is reported as such, and otherwise the login runs
/// and its result is reported, a success marking the client online and
/// bringing the notice and the automatic exit when the settings ask.
pub open spec fn spec_startup_login_step(s: StartupState, e: StartupEventSpec) -> (StartupState, StartupActionSpec) {
    match (s.stage, e) {
        (StartupStage::Start, StartupEventSpec::Configured { auto_login_on_start }) => if auto_login_on_start {
            (at(s, StartupStage::Waiting), StartupActionSpec::Sleep { ms: STARTUP_DELAY_MS })
        } else {
            (at(s, StartupStage::Done), StartupActionSpec::Stop)
        },
        (StartupStage::Waiting, StartupEventSpec::Woke { quitting, logged_online }) => if quitting || logged_online {
            (at(s, StartupStage::Done), StartupActionSpec::Stop)
        } else {
            (at(s, StartupStage::Listing), StartupActionSpec::ListAdapters)
        },
        (
            StartupStage::Listing,
            StartupEventSpec::AdaptersListed {
                ok,
                primary_ready,
                secondary_ready,
                notify_enabled,
                auto_exit_after_login,
            },
        ) => {
            let t = StartupState { stage: s.stage, notify_enabled, auto_exit_after_login };
            if !ok {
                (at(t, StartupStage::Done), StartupActionSpec::Stop)
            } else if primary_ready {
                (at(t, StartupStage::Probing), StartupActionSpec::ProbePortal { secondary: secondary_ready })
            } else {
                (at(t, StartupStage::Locking), StartupActionSpec::TakeLock)
            }
        },
        (StartupStage::Probing, StartupEventSpec::Probed { primary, secondary }) => match primary {
            Some((true, m)) => (
                at(s, StartupStage::Done),
                StartupActionSpec::ReportSkipped(
                    m + match secondary {
                        Some((_, m2)) => ", "@ + m2,
                        None => ""@,
                    },
                ),
            ),
            _ => (at(s, StartupStage::Locking), StartupActionSpec::TakeLock),
        },
        (StartupStage::Locking, StartupEventSpec::LockTried { taken, logged_online }) => if !taken {
            (at(s, StartupStage::Done), StartupActionSpec::Stop)
        } else if logged_online {
            (at(s, StartupStage::Done), report_for(s, already_logged_in_view()))
        } else {
            (at(s, StartupStage::LoggingIn), StartupActionSpec::LogIn)
        },
        (StartupStage::LoggingIn, StartupEventSpec::LoginFinished(r)) => match r {
            Some(c) => (at(s, StartupStage::Done), report_for(s, c)),
            None => (at(s, StartupStage::Done), StartupActionSpec::Stop),
        },
        _ => (s, StartupActionSpec::Ignore),
    }
}

fn report(s: &StartupState, result: CommandResult) -> (r: StartupAction)
    ensures
        startup_action_view(r) == report_for(*s, cmd_view(result)),
{
    let ok = result.success;
    StartupAction::Report {
        result,
        mark_online: ok,
        notify: ok && s.notify_enabled,
        start_auto_exit: ok && s.auto_exit_after_login,
    }
}

/// One step of the start-up login (see `spec_startup_login_step`); the
/// caller sleeps, lists, probes, locks and logs in, and reports back.
pub fn startup_login_step(s: &StartupState, e: StartupEvent) -> (r: (StartupState, StartupAction))
    ensures
        (r.0, startup_action_view(r.1)) == spec_startup_login_step(*s, startup_event_view(e)),
{
    let done = StartupState { stage: StartupStage::Done, ..*s };
    match (s.stage, e) {
        (StartupStage::Start, StartupEvent::Configured { auto_login_on_start }) => {
            if auto_login_on_start {
                (StartupState { stage: StartupStage::Waiting, ..*s }, StartupAction::Sleep { ms: STARTUP_DELAY_MS })
            } else {
                (done, StartupAction::Stop)
            }
        },
        (StartupStage::Waiting, StartupEvent::Woke { quitting, logged_online }) => {
            if quitting || logged_online {
                (done, StartupAction::Stop)
            } else {
                (StartupState { stage: StartupStage::Listing, ..*s }, StartupAction::ListAdapters)
            }
        },
        (
            StartupStage::Listing,
            StartupEvent::AdaptersListed { ok, primary_ready, secondary_ready, notify_enabled, auto_exit_after_login },
        ) => {
            if !ok {
                (StartupState { stage: StartupStage::Done, notify_enabled, auto_exit_after_login }, StartupAction::Stop)
            } else if primary_ready {
                (
                    StartupState { stage: StartupStage::Probing, notify_enabled, auto_exit_after_login },
                    StartupAction::ProbePortal { secondary: secondary_ready },
                )
            } else {
                (
                    StartupState { stage: StartupStage::Locking, notify_enabled, auto_exit_after_login },
                    StartupAction::TakeLock,
                )
            }
        },
        (StartupStage::Probing, StartupEvent::Probed { primary, secondary }) => {
            match primary {
                Some(p) => {
                    if p.online {
                        let m = match &secondary {
                            Some(q) => startup_skip_message(p.message.as_str(), Some(q.message.as_str())),
                            None => startup_skip_message(p.message.as_str(), None),
                        };
                        proof {
                            reveal_strlit("");
                        }
                        (done, StartupAction::ReportSkipped(m))
                    } else {
                        (StartupState { stage: StartupStage::Locking, ..*s }, StartupAction::TakeLock)
                    }
                },
                None => (StartupState { stage: StartupStage::Locking, ..*s }, StartupAction::TakeLock),
            }
        },
        (StartupStage::Locking, StartupEvent::LockTried { taken, logged_online }) => {
            if !taken {
                (done, StartupAction::Stop)
            } else if logged_online {
                let c = CommandResult { success: true, message: Some(to_owned_string("已在线，跳过登录")), code: None };
                (done, report(s, c))
            } else {
                (StartupState { stage: StartupStage::LoggingIn, ..*s }, StartupAction::LogIn)
            }
        },
        (StartupStage::LoggingIn, StartupEvent::LoginFinished(r)) => {
            match r {
                Some(c) => (done, report(s, c)),
                None => (done, StartupAction::Stop),
            }
        },
        _ => (*s, StartupAction::Ignore),
    }
}

/// The start-up login never logs in while quitting or once a login has
/// succeeded, logs in only with the lock taken, and a portal that already
/// shows the adapter online ends it without a login.
pub proof fn law_startup_login_guards(s: StartupState, e: StartupEventSpec)
    ensures
        spec_startup_login_step(s, e).1 is LogIn ==> s.stage == StartupStage::Locking && e
            == (StartupEventSpec::LockTried { taken: true, logged_online: false }),
        s.stage == StartupStage::Waiting ==> (e matches StartupEventSpec::Woke { quitting, logged_online } ==> (
        quitting || logged_online ==> spec_startup_login_step(s, e).1 is Stop)),
        s.stage == StartupStage::Probing ==> (e matches StartupEventSpec::Probed { primary, secondary } ==> (
        primary matches Some((true, _)) ==> spec_startup_login_step(s, e).1 is ReportSkipped)),
        s.stage == StartupStage::Done ==> spec_startup_login_step(s, e) == (s, StartupActionSpec::Ignore),
{
}

/// No reconnect is ever attempted when automatic login is off, when the
/// client was not online before, when no adapter went offline, when the
/// portal is unreachable or shows no login page, or within the cooldown:
/// the check then leaves the counter and does nothing.
pub proof fn law_reconnect_guards(
    was_online: bool,
    online: bool,
    primary_found: bool,
    secondary_online: Option<bool>,
    reachable: bool,
    login_available: bool,
    auto_login_on_preparation: bool,
    secs_since_last_attempt: u64,
)
    ensures
        (!auto_login_on_preparation || !was_online || !reachable || !login_available || secs_since_last_attempt
            < AUTO_LOGIN_COOLDOWN_SECS || (online && secondary_online != Some(false)) || (!primary_found
            && secondary_online != Some(false))) ==> !reconnect_occasion(
            was_online,
            online,
            primary_found,
            secondary_online,
            reachable,
            login_available,
            auto_login_on_preparation,
            secs_since_last_attempt,
        ),
        (auto_login_on_preparation && was_online && reachable && login_available && secs_since_last_attempt
            >= AUTO_LOGIN_COOLDOWN_SECS && ((!online && primary_found) || secondary_online == Some(false)))
            ==> reconnect_occasion(
            was_online,
            online,
            primary_found,
            secondary_online,
            reachable,
            login_available,
            auto_login_on_preparation,
            secs_since_last_attempt,
        ),
{
}

/// The counting of reconnects: the first three occasions after a drop
/// reconnect, numbered 1 to 3; the fourth only tells the user; later ones
/// remind every tenth occasion and otherwise do nothing.
pub proof fn law_reconnect_counting(count: u32)
    ensures
        1 <= count <= 3 ==> reconnect_action_for(count) == (ReconnectAction::Reconnect { attempt: count }),
        count == 4 ==> reconnect_action_for(count) == ReconnectAction::NotifyLimit,
        count > 4 ==> (reconnect_action_for(count) == ReconnectAction::Remind <==> (count - 3) % 10 == 0),
        count > 4 ==> (reconnect_action_for(count) == ReconnectAction::Idle <==> (count - 3) % 10 != 0),
{
}

} // verus!
