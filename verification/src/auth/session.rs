//! The decisions around one adapter's login or logout: the result reported
//! for it, when a failed login is re-checked against the portal page, and
//! when a login that claims "already online" is not believed.

use vstd::prelude::*;
use crate::text::{concat2, concat3, has_substr, contains, str_eq, to_owned_string};
use crate::auth::protocol::LoginOutcome;
use crate::auth::outcome::{CommandResult, opt_text};

verus! {

/// The result reported for an adapter's action (`login_name` is the
/// action's name, e.g. 登录/注销): the outcome with the adapter's name in
/// front of its message, or, when the request failed, the failure.
pub fn adapter_action_result(adapter_name: &str, action_name: &str, result: &Result<LoginOutcome, String>) -> (r:
    CommandResult)
    ensures
        match result {
            Ok(o) => r.success == o.success && opt_text(r.message) == Some(adapter_name@ + " "@ + o.message@)
                && opt_text(r.code) == Some(o.code@),
            Err(e) => !r.success && opt_text(r.message) == Some(
                adapter_name@ + " "@ + action_name@ + "请求失败: "@ + e@,
            ) && opt_text(r.code) == Some("error"@),
        },
{
    match result {
        Ok(o) => CommandResult {
            success: o.success,
            message: Some(concat3(adapter_name, " ", o.message.as_str())),
            code: Some(to_owned_string(o.code.as_str())),
        },
        Err(e) => {
            let head = concat3(adapter_name, " ", action_name);
            CommandResult {
                success: false,
                message: Some(concat3(head.as_str(), "请求失败: ", e.as_str())),
                code: Some(to_owned_string("error")),
            }
        },
    }
}

/// A failed login whose reply could not be read (code `parse_error`, worth
/// retrying) is checked against the portal page: it may have succeeded.
pub fn needs_online_recheck(o: &LoginOutcome) -> (r: bool)
    ensures
        r == (!o.success && o.code@ == "parse_error"@ && o.retryable == Some(true)),
{
    !o.success && str_eq(o.code.as_str(), "parse_error") && match o.retryable {
        Some(b) => b,
        None => false,
    }
}

/// A login that succeeded with "already online" is checked against the
/// portal page: a session left behind on the server answers so without
/// letting traffic through.
pub fn needs_zombie_check(o: &LoginOutcome) -> (r: bool)
    ensures
        r == (o.success && has_substr(o.message@, "已经在线"@)),
{
    o.success && contains(o.message.as_str(), "已经在线")
}

/// The result when the portal page shows the adapter online.
pub fn already_online_result(adapter_name: &str) -> (r: CommandResult)
    ensures
        r.success,
        opt_text(r.message) == Some(adapter_name@ + " 已在线"@),
        opt_text(r.code) == Some("0"@),
{
    CommandResult {
        success: true,
        message: Some(concat2(adapter_name, " 已在线")),
        code: Some(to_owned_string("0")),
    }
}

/// The result when "already online" was not confirmed: an authentication
/// failure (code `1`), so that repeated ones lead to a MAC reset.
pub fn zombie_session_result(adapter_name: &str) -> (r: CommandResult)
    ensures
        !r.success,
        opt_text(r.message) == Some(
            adapter_name@ + " 已在线但网络不通（服务端会话残留），建议自助服务强制下线或获取新IP后重试"@,
        ),
        opt_text(r.code) == Some("1"@),
{
    CommandResult {
        success: false,
        message: Some(
            concat2(adapter_name, " 已在线但网络不通（服务端会话残留），建议自助服务强制下线或获取新IP后重试"),
        ),
        code: Some(to_owned_string("1")),
    }
}

/// An unconfirmed "already online" is counted by the failure tracker as a
/// refused login.
pub proof fn law_unconfirmed_online_counts_as_refusal(r: CommandResult)
    requires
        !r.success,
        opt_text(r.code) == Some("1"@),
    ensures
        crate::auth::failure_tracker::result_counts(Some(r)) == (false, true),
{
}

/// What a portal probe found: whether the adapter is online, and the
/// page's message.
pub struct PortalProbe {
    pub online: bool,
    pub message: String,
}

/// Where logging one adapter in stands.
pub enum AdapterLoginStage {
    /// Nothing done yet.
    Start,
    /// Probing the portal before logging in.
    Prechecking,
    /// Logging in (with its retries and log lines).
    LoggingIn,
    /// The login failed unreadably; probing whether it went through after
    /// all. Holds the result otherwise reported.
    Rechecking(CommandResult),
    /// The login answered "already online"; probing whether traffic really
    /// passes. Holds the result otherwise reported.
    ZombieChecking(CommandResult),
    /// Finished.
    Done,
}

/// What the steps learn from outside.
pub enum AdapterLoginEvent {
    /// The run starts; `has_ip`: the adapter has an address.
    Begin { has_ip: bool },
    /// A portal probe came back (`None`: the probe failed).
    Probed(Option<PortalProbe>),
    /// The login came back, or its request failed.
    Answered(Result<LoginOutcome, String>),
}

/// What to do next.
pub enum AdapterLoginAction {
    /// Probe the portal for this adapter.
    Probe,
    /// Log in (the retry loop), logging the attempt and its history.
    Login,
    /// Stop with this result (`None`: the adapter has no address).
    Finish(Option<CommandResult>),
    /// The event does not belong to this stage; nothing happens.
    Nothing,
}

pub type CmdView = (bool, Option<Seq<char>>, Option<Seq<char>>);

pub open spec fn cmd_view(c: CommandResult) -> CmdView {
    (c.success, opt_text(c.message), opt_text(c.code))
}

pub enum AdapterLoginStageSpec {
    Start,
    Prechecking,
    LoggingIn,
    Rechecking(CmdView),
    ZombieChecking(CmdView),
    Done,
}

pub enum AdapterLoginEventSpec {
    Begin { has_ip: bool },
    Probed(Option<(bool, Seq<char>)>),
    Answered(Result<(Seq<char>, Seq<char>, bool, Option<bool>), Seq<char>>),
}

pub enum AdapterLoginActionSpec {
    Probe,
    Login,
    Finish(Option<CmdView>),
    Nothing,
}

pub open spec fn stage_view(s: AdapterLoginStage) -> AdapterLoginStageSpec {
    match s {
        AdapterLoginStage::Start => AdapterLoginStageSpec::Start,
        AdapterLoginStage::Prechecking => AdapterLoginStageSpec::Prechecking,
        AdapterLoginStage::LoggingIn => AdapterLoginStageSpec::LoggingIn,
        AdapterLoginStage::Rechecking(c) => AdapterLoginStageSpec::Rechecking(cmd_view(c)),
        AdapterLoginStage::ZombieChecking(c) => AdapterLoginStageSpec::ZombieChecking(cmd_view(c)),
        AdapterLoginStage::Done => AdapterLoginStageSpec::Done,
    }
}

pub open spec fn login_event_view(e: AdapterLoginEvent) -> AdapterLoginEventSpec {
    match e {
        AdapterLoginEvent::Begin { has_ip } => AdapterLoginEventSpec::Begin { has_ip },
        AdapterLoginEvent::Probed(Some(p)) => AdapterLoginEventSpec::Probed(Some((p.online, p.message@))),
        AdapterLoginEvent::Probed(None) => AdapterLoginEventSpec::Probed(None),
        AdapterLoginEvent::Answered(Ok(o)) => AdapterLoginEventSpec::Answered(Ok(o@)),
        AdapterLoginEvent::Answered(Err(m)) => AdapterLoginEventSpec::Answered(Err(m@)),
    }
}

pub open spec fn login_action_view(a: AdapterLoginAction) -> AdapterLoginActionSpec {
    match a {
        AdapterLoginAction::Probe => AdapterLoginActionSpec::Probe,
        AdapterLoginAction::Login => AdapterLoginActionSpec::Login,
        AdapterLoginAction::Finish(Some(c)) => AdapterLoginActionSpec::Finish(Some(cmd_view(c))),
        AdapterLoginAction::Finish(None) => AdapterLoginActionSpec::Finish(None),
        AdapterLoginAction::Nothing => AdapterLoginActionSpec::Nothing,
    }
}

/// The result reported for a login answer (see `adapter_action_result`).
pub open spec fn login_answer_view(name: Seq<char>, res: Result<(Seq<char>, Seq<char>, bool, Option<bool>), Seq<char>>) -> CmdView {
    match res {
        Ok(o) => (o.2, Some(name + " "@ + o.1), Some(o.0)),
        Err(m) => (false, Some(name + " "@ + "登录"@ + "请求失败: "@ + m), Some("error"@)),
    }
}

/// Logging one adapter in, step by step: without an address, nothing; a
/// portal that already shows it online ends the run with the page's
/// message; otherwise it logs in. A failure whose reply could not be read
/// is checked against the portal (online: reported as online); an "already
/// online" success is checked too (not confirmed: reported as a refused
/// login, code `1`). Every other answer is reported as it came.
pub open spec fn spec_adapter_login_step(name: Seq<char>, st: AdapterLoginStageSpec, e: AdapterLoginEventSpec) -> (
    AdapterLoginStageSpec,
    AdapterLoginActionSpec,
) {
    match (st, e) {
        (AdapterLoginStageSpec::Start, AdapterLoginEventSpec::Begin { has_ip }) => if has_ip {
            (AdapterLoginStageSpec::Prechecking, AdapterLoginActionSpec::Probe)
        } else {
            (AdapterLoginStageSpec::Done, AdapterLoginActionSpec::Finish(None))
        },
        (AdapterLoginStageSpec::Prechecking, AdapterLoginEventSpec::Probed(p)) => match p {
            Some((true, msg)) => (
                AdapterLoginStageSpec::Done,
                AdapterLoginActionSpec::Finish(Some((true, Some(msg), Some("0"@)))),
            ),
            _ => (AdapterLoginStageSpec::LoggingIn, AdapterLoginActionSpec::Login),
        },
        (AdapterLoginStageSpec::LoggingIn, AdapterLoginEventSpec::Answered(res)) => {
            let c = login_answer_view(name, res);
            match res {
                Ok(o) => if !o.2 && o.0 == "parse_error"@ && o.3 == Some(true) {
                    (AdapterLoginStageSpec::Rechecking(c), AdapterLoginActionSpec::Probe)
                } else if o.2 && has_substr(o.1, "已经在线"@) {
                    (AdapterLoginStageSpec::ZombieChecking(c), AdapterLoginActionSpec::Probe)
                } else {
                    (AdapterLoginStageSpec::Done, AdapterLoginActionSpec::Finish(Some(c)))
                },
                Err(_) => (AdapterLoginStageSpec::Done, AdapterLoginActionSpec::Finish(Some(c))),
            }
        },
        (AdapterLoginStageSpec::Rechecking(c), AdapterLoginEventSpec::Probed(p)) => match p {
            Some((true, _)) => (
                AdapterLoginStageSpec::Done,
                AdapterLoginActionSpec::Finish(Some((true, Some(name + " 已在线"@), Some("0"@)))),
            ),
            _ => (AdapterLoginStageSpec::Done, AdapterLoginActionSpec::Finish(Some(c))),
        },
        (AdapterLoginStageSpec::ZombieChecking(c), AdapterLoginEventSpec::Probed(p)) => match p {
            Some((true, _)) => (AdapterLoginStageSpec::Done, AdapterLoginActionSpec::Finish(Some(c))),
            _ => (
                AdapterLoginStageSpec::Done,
                AdapterLoginActionSpec::Finish(
                    Some(
                        (
                            false,
                            Some(name + " 已在线但网络不通（服务端会话残留），建议自助服务强制下线或获取新IP后重试"@),
                            Some("1"@),
                        ),
                    ),
                ),
            ),
        },
        _ => (st, AdapterLoginActionSpec::Nothing),
    }
}

/// One step of logging an adapter in (see `spec_adapter_login_step`); the
/// caller probes, logs in and reports back.
pub fn adapter_login_step(adapter_name: &str, stage: AdapterLoginStage, event: AdapterLoginEvent) -> (r: (
    AdapterLoginStage,
    AdapterLoginAction,
))
    ensures
        (stage_view(r.0), login_action_view(r.1)) == spec_adapter_login_step(
            adapter_name@,
            stage_view(stage),
            login_event_view(event),
        ),
{
    match (stage, event) {
        (AdapterLoginStage::Start, AdapterLoginEvent::Begin { has_ip }) => {
            if has_ip {
                (AdapterLoginStage::Prechecking, AdapterLoginAction::Probe)
            } else {
                (AdapterLoginStage::Done, AdapterLoginAction::Finish(None))
            }
        },
        (AdapterLoginStage::Prechecking, AdapterLoginEvent::Probed(p)) => match p {
            Some(probe) => {
                if probe.online {
                    (
                        AdapterLoginStage::Done,
                        AdapterLoginAction::Finish(
                            Some(CommandResult { success: true, message: Some(probe.message), code: Some(to_owned_string("0")) }),
                        ),
                    )
                } else {
                    (AdapterLoginStage::LoggingIn, AdapterLoginAction::Login)
                }
            },
            None => (AdapterLoginStage::LoggingIn, AdapterLoginAction::Login),
        },
        (AdapterLoginStage::LoggingIn, AdapterLoginEvent::Answered(res)) => {
            let c = adapter_action_result(adapter_name, "登录", &res);
            proof {
                reveal_strlit("登录");
                assert(adapter_name@ + " "@ + "登录"@ + "请求失败: "@ == (adapter_name@ + " "@ + "登录"@) + "请求失败: "@);
            }
            match res {
                Ok(o) => {
                    if needs_online_recheck(&o) {
                        (AdapterLoginStage::Rechecking(c), AdapterLoginAction::Probe)
                    } else if needs_zombie_check(&o) {
                        (AdapterLoginStage::ZombieChecking(c), AdapterLoginAction::Probe)
                    } else {
                        (AdapterLoginStage::Done, AdapterLoginAction::Finish(Some(c)))
                    }
                },
                Err(_) => (AdapterLoginStage::Done, AdapterLoginAction::Finish(Some(c))),
            }
        },
        (AdapterLoginStage::Rechecking(c), AdapterLoginEvent::Probed(p)) => {
            let online = match &p {
                Some(probe) => probe.online,
                None => false,
            };
            if online {
                (AdapterLoginStage::Done, AdapterLoginAction::Finish(Some(already_online_result(adapter_name))))
            } else {
                (AdapterLoginStage::Done, AdapterLoginAction::Finish(Some(c)))
            }
        },
        (AdapterLoginStage::ZombieChecking(c), AdapterLoginEvent::Probed(p)) => {
            let online = match &p {
                Some(probe) => probe.online,
                None => false,
            };
            if online {
                (AdapterLoginStage::Done, AdapterLoginAction::Finish(Some(c)))
            } else {
                (AdapterLoginStage::Done, AdapterLoginAction::Finish(Some(zombie_session_result(adapter_name))))
            }
        },
        (stage, _) => (stage, AdapterLoginAction::Nothing),
    }
}

/// The order of the steps: the portal is probed before any login, and a
/// login is made only when that probe did not show the adapter online; a
/// login answer is replaced only after a further probe; the run ends once.
pub proof fn law_adapter_login_order(name: Seq<char>, st: AdapterLoginStageSpec, e: AdapterLoginEventSpec)
    ensures
        spec_adapter_login_step(name, st, e).1 is Login ==> st is Prechecking && !(e matches AdapterLoginEventSpec::Probed(
            Some((true, _)),
        )),
        spec_adapter_login_step(name, st, e).1 is Probe ==> (st is Start || st is LoggingIn),
        st is LoggingIn && e is Answered ==> spec_adapter_login_step(name, st, e).1 is Finish ==> spec_adapter_login_step(
            name,
            st,
            e,
        ).1 == AdapterLoginActionSpec::Finish(Some(login_answer_view(name, e->Answered_0))),
        st is Done ==> spec_adapter_login_step(name, st, e) == (st, AdapterLoginActionSpec::Nothing),
{
}

} // verus!
