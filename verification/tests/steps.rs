use campus_login::auth::failure_tracker::AuthFailureCounts;
use campus_login::auth::outcome::CommandResult;
use campus_login::auth::protocol::{retry_step, LoginOutcome, RetryAction, RetryEvent, RetryState, RETRY_WAIT_MS};
use campus_login::auth::session::{adapter_login_step, AdapterLoginAction, AdapterLoginEvent, AdapterLoginStage, PortalProbe};
use campus_login::config::model::Config;
use campus_login::desktop::accounts::{rename_account_check, rename_account_write};
use campus_login::desktop::auto_exit::AutoExitState;
use campus_login::desktop::auto_login::{
    startup_login_step, StartupAction, StartupEvent, StartupStage, StartupState, STARTUP_DELAY_MS,
};
use campus_login::desktop::logout::{
    apply_logout, logout_admission, AdapterOnlineStatus, LogoutClientState, NetworkFlags,
};
use campus_login::mobile::accounts::AccountItem;

fn outcome(code: &str, message: &str, success: bool, retryable: Option<bool>) -> LoginOutcome {
    LoginOutcome { code: code.to_string(), message: message.to_string(), success, retryable }
}

fn finished(a: &RetryAction) -> Option<(String, String, bool)> {
    match a {
        RetryAction::Finish(o) => Some((o.code.clone(), o.message.clone(), o.success)),
        _ => None,
    }
}

#[test]
fn retry_loop_stops_before_sending_when_quitting() {
    let s = RetryState { attempts: 0, max_retries: 3, last: None };
    let (t, a) = retry_step(&s, RetryEvent::Ready { quitting: true });
    assert_eq!(finished(&a), Some(("error".to_string(), "应用正在退出".to_string(), false)));
    assert_eq!(t.attempts, 0);
}

#[test]
fn retry_loop_makes_at_most_max_attempts_and_returns_the_last() {
    let mut s = RetryState { attempts: 0, max_retries: 3, last: None };
    let mut sends = 0;
    let mut event = RetryEvent::Ready { quitting: false };
    loop {
        let (t, a) = retry_step(&s, event);
        s = t;
        match a {
            RetryAction::Send => {
                sends += 1;
                event = RetryEvent::Answered(Ok(outcome("parse_error", &format!("第{sends}次"), false, Some(true))));
            },
            RetryAction::Wait { ms } => {
                assert_eq!(ms, RETRY_WAIT_MS);
                event = RetryEvent::Waited { completed: true, quitting: false };
            },
            RetryAction::Finish(o) => {
                assert_eq!(o.message, "第3次");
                break;
            },
        }
    }
    assert_eq!(sends, 3);
    assert_eq!(s.attempts, 3);
}

#[test]
fn retry_loop_stops_on_success_or_final_refusal() {
    let s = RetryState { attempts: 0, max_retries: 3, last: None };
    let (_, a) = retry_step(&s, RetryEvent::Answered(Ok(outcome("0", "登录成功", true, Some(false)))));
    assert_eq!(finished(&a), Some(("0".to_string(), "登录成功".to_string(), true)));
    let (_, a) = retry_step(&s, RetryEvent::Answered(Ok(outcome("1", "密码错误", false, Some(false)))));
    assert_eq!(finished(&a), Some(("1".to_string(), "密码错误".to_string(), false)));
    let (t, a) = retry_step(&s, RetryEvent::Answered(Err("超时".to_string())));
    assert!(matches!(a, RetryAction::Wait { .. }));
    assert_eq!(t.last.unwrap().message, "超时");
    let (_, a) = retry_step(&s, RetryEvent::Waited { completed: false, quitting: true });
    assert_eq!(finished(&a).unwrap().1, "应用正在退出");
    let none = RetryState { attempts: 0, max_retries: 0, last: None };
    let (_, a) = retry_step(&none, RetryEvent::Ready { quitting: true });
    assert_eq!(finished(&a).unwrap().0, "max_retries");
}

fn finish_of(a: AdapterLoginAction) -> Option<CommandResult> {
    match a {
        AdapterLoginAction::Finish(r) => r,
        _ => panic!("expected the run to finish"),
    }
}

#[test]
fn adapter_login_probes_first_and_skips_when_online() {
    let (st, a) = adapter_login_step("以太网", AdapterLoginStage::Start, AdapterLoginEvent::Begin { has_ip: false });
    assert!(matches!(st, AdapterLoginStage::Done));
    assert!(finish_of(a).is_none());
    let (st, a) = adapter_login_step("以太网", AdapterLoginStage::Start, AdapterLoginEvent::Begin { has_ip: true });
    assert!(matches!(st, AdapterLoginStage::Prechecking) && matches!(a, AdapterLoginAction::Probe));
    let probe = PortalProbe { online: true, message: "已在线".to_string() };
    let (_, a) = adapter_login_step("以太网", st, AdapterLoginEvent::Probed(Some(probe)));
    let r = finish_of(a).unwrap();
    assert!(r.success);
    assert_eq!(r.message.as_deref(), Some("已在线"));
    assert_eq!(r.code.as_deref(), Some("0"));
}

#[test]
fn adapter_login_rechecks_unreadable_and_already_online_answers() {
    let (st, a) = adapter_login_step("以太网", AdapterLoginStage::Prechecking, AdapterLoginEvent::Probed(None));
    assert!(matches!(a, AdapterLoginAction::Login));
    let answer = Ok(outcome("parse_error", "无法解析登录响应", false, Some(true)));
    let (st2, a) = adapter_login_step("以太网", st, AdapterLoginEvent::Answered(answer));
    assert!(matches!(a, AdapterLoginAction::Probe));
    let online = PortalProbe { online: true, message: "x".to_string() };
    let r = finish_of(adapter_login_step("以太网", st2, AdapterLoginEvent::Probed(Some(online))).1).unwrap();
    assert!(r.success);
    assert_eq!(r.message.as_deref(), Some("以太网 已在线"));

    let answer = Ok(outcome("0", "用户已经在线", true, Some(false)));
    let (st3, a) = adapter_login_step("以太网", AdapterLoginStage::LoggingIn, AdapterLoginEvent::Answered(answer));
    assert!(matches!(a, AdapterLoginAction::Probe));
    let r = finish_of(adapter_login_step("以太网", st3, AdapterLoginEvent::Probed(None)).1).unwrap();
    assert!(!r.success);
    assert_eq!(r.code.as_deref(), Some("1"));

    let answer = Err("超时".to_string());
    let r = finish_of(adapter_login_step("以太网", AdapterLoginStage::LoggingIn, AdapterLoginEvent::Answered(answer)).1)
        .unwrap();
    assert_eq!(r.message.as_deref(), Some("以太网 登录请求失败: 超时"));
    assert_eq!(r.code.as_deref(), Some("error"));
}

fn client() -> LogoutClientState {
    LogoutClientState {
        network: NetworkFlags {
            any_adapter_online: true,
            last_a1_online: true,
            last_a2_online: false,
            has_logged_online: true,
            disconnect_reconnect_count: 2,
            last_auto_login_attempt_ms: 0,
            logout_protected_until_ms: 0,
        },
        exit: AutoExitState { deadline_ms: Some(5_000), cancelled: false },
        failures: AuthFailureCounts { portal_failure_count: 1, a1_auth_failure_count: 2, a2_auth_failure_count: 3 },
    }
}

#[test]
fn full_logout_cancels_exit_and_clears_counters() {
    let mut s = client();
    let status = AdapterOnlineStatus { any_online: false, a1_online: false, a2_online: false };
    apply_logout(&mut s, true, Some(status), false, true, 1_000);
    assert_eq!(s.exit.deadline_ms, None);
    assert!(s.exit.cancelled);
    assert_eq!(s.failures.portal_failure_count + s.failures.a1_auth_failure_count + s.failures.a2_auth_failure_count, 0);
    assert!(!s.network.has_logged_online);

    let mut single = client();
    apply_logout(&mut single, true, Some(status), false, false, 1_000);
    assert_eq!(single.exit.deadline_ms, Some(5_000));
    assert_eq!(single.failures.a2_auth_failure_count, 3);
    assert!(single.network.has_logged_online);

    let mut failed = client();
    apply_logout(&mut failed, false, None, false, true, 1_000);
    assert!(failed.network.any_adapter_online);
    assert_eq!(failed.exit.deadline_ms, Some(5_000));

    assert!(logout_admission(true).is_none());
    let busy = logout_admission(false).unwrap();
    assert!(!busy.success);
    assert_eq!(busy.message.as_deref(), Some("注销正在进行中，请稍后再试"));
}

fn start() -> StartupState {
    StartupState { stage: StartupStage::Start, notify_enabled: false, auto_exit_after_login: false }
}

#[test]
fn startup_login_runs_its_steps_in_order() {
    let (s, a) = startup_login_step(&start(), StartupEvent::Configured { auto_login_on_start: false });
    assert_eq!(s.stage, StartupStage::Done);
    assert!(matches!(a, StartupAction::Stop));

    let (s, a) = startup_login_step(&start(), StartupEvent::Configured { auto_login_on_start: true });
    assert!(matches!(a, StartupAction::Sleep { ms } if ms == STARTUP_DELAY_MS));
    let (q, a) = startup_login_step(&s, StartupEvent::Woke { quitting: true, logged_online: false });
    assert!(matches!(a, StartupAction::Stop) && q.stage == StartupStage::Done);
    let (s, a) = startup_login_step(&s, StartupEvent::Woke { quitting: false, logged_online: false });
    assert!(matches!(a, StartupAction::ListAdapters));
    let listed = StartupEvent::AdaptersListed {
        ok: true,
        primary_ready: true,
        secondary_ready: true,
        notify_enabled: true,
        auto_exit_after_login: true,
    };
    let (s, a) = startup_login_step(&s, listed);
    assert!(matches!(a, StartupAction::ProbePortal { secondary: true }));

    let online = StartupEvent::Probed {
        primary: Some(PortalProbe { online: true, message: "已在线".to_string() }),
        secondary: Some(PortalProbe { online: true, message: "副网卡在线".to_string() }),
    };
    match startup_login_step(&s, online).1 {
        StartupAction::ReportSkipped(m) => assert_eq!(m, "已在线, 副网卡在线"),
        _ => panic!("expected a skip"),
    }

    let (s, a) = startup_login_step(&s, StartupEvent::Probed { primary: None, secondary: None });
    assert!(matches!(a, StartupAction::TakeLock));
    let (_, a) = startup_login_step(&s, StartupEvent::LockTried { taken: false, logged_online: false });
    assert!(matches!(a, StartupAction::Stop));
    let (s, a) = startup_login_step(&s, StartupEvent::LockTried { taken: true, logged_online: false });
    assert!(matches!(a, StartupAction::LogIn));
    let ok = CommandResult { success: true, message: Some("登录成功".to_string()), code: None };
    match startup_login_step(&s, StartupEvent::LoginFinished(Some(ok))).1 {
        StartupAction::Report { result, mark_online, notify, start_auto_exit } => {
            assert!(result.success && mark_online && notify && start_auto_exit);
        },
        _ => panic!("expected a report"),
    }
}

#[test]
fn rename_checks_then_writes_once() {
    assert!(rename_account_check("acc-a", "   ").is_err());
    assert!(rename_account_check("../config", "新名").is_err());
    assert!(rename_account_check("a/b", "新名").is_err());
    assert_eq!(
        rename_account_check("acc-a", "  新名字😀 ").unwrap(),
        ("acc-a".to_string(), "新名字😀".to_string())
    );

    let items = vec![
        AccountItem { id: "acc-a".to_string(), display_name: "甲".to_string() },
        AccountItem { id: "acc-b".to_string(), display_name: "乙".to_string() },
    ];
    let mut file = Config::default();
    file.user = "user-a".to_string();
    file.display_name = "甲".to_string();
    assert_eq!(
        rename_account_write("acc-a", "乙", Ok(file.clone()), &items).unwrap_err(),
        "名称已存在: 乙"
    );
    let w = rename_account_write("acc-a", "甲", Ok(file.clone()), &items).unwrap();
    assert_eq!(w.display_name, "甲");
    let w = rename_account_write("acc-a", "新名", Ok(file), &items).unwrap();
    assert_eq!(w.display_name, "新名");
    assert_eq!(w.user, "user-a");
    assert_eq!(rename_account_write("no-such", "新名", Err("账号不存在".to_string()), &items).unwrap_err(), "账号不存在");
}
