use campus_login::mobile::monitor::{effective_interval_ms, should_attempt_login, wifi_event_is_burst_start, WIFI_EVENT_DEBOUNCE_MS};


const COOLDOWN: u64 = 60;

#[test]
fn online_or_off_campus_never_attempts() {
    assert!(!should_attempt_login(true, false, true, true, 0, 3, u64::MAX, COOLDOWN));
    assert!(!should_attempt_login(false, false, false, true, 0, 3, 0, COOLDOWN));
}

#[test]
fn reconnect_after_drop_ignores_auto_login_switch() {
    // was_online=true:检测到在线→掉线,自动重连
    assert!(should_attempt_login(false, true, true, false, 0, 3, u64::MAX, COOLDOWN));
}

#[test]
fn offline_at_start_needs_auto_login_enabled() {
    assert!(!should_attempt_login(false, false, true, false, 0, 3, u64::MAX, COOLDOWN));
    assert!(should_attempt_login(false, false, true, true, 0, 3, u64::MAX, COOLDOWN));
}

#[test]
fn reconnect_limit_reached_pauses() {
    assert!(!should_attempt_login(false, true, true, true, 3, 3, u64::MAX, COOLDOWN));
    assert!(should_attempt_login(false, true, true, true, 2, 3, u64::MAX, COOLDOWN));
}

#[test]
fn cooldown_not_elapsed_no_retry() {
    assert!(!should_attempt_login(false, true, true, true, 0, 3, 59_999, COOLDOWN));
    assert!(should_attempt_login(false, true, true, true, 0, 3, 60_000, COOLDOWN));
}

#[test]
fn zero_cooldown_retries_at_once() {
    assert!(should_attempt_login(false, true, true, true, 0, 3, 0, 0));
}

#[test]
fn wifi_event_burst_start_outside_window_only() {
    assert!(wifi_event_is_burst_start(0, 1_000_000, WIFI_EVENT_DEBOUNCE_MS));
    // 距上次事件 >= 去抖窗口 → 新风暴起点
    assert!(wifi_event_is_burst_start(
        1_000_000,
        1_000_000 + WIFI_EVENT_DEBOUNCE_MS,
        WIFI_EVENT_DEBOUNCE_MS
    ));
    // 窗口内的后续事件(同一次连上 WiFi 的连发)不安排新检测
    assert!(!wifi_event_is_burst_start(
        1_000_000,
        1_000_000 + WIFI_EVENT_DEBOUNCE_MS - 1,
        WIFI_EVENT_DEBOUNCE_MS
    ));
}

#[test]
fn tick_interval_base_on_wifi_and_screen_on_else_idle() {
    // WiFi + 亮屏 → 基础间隔
    assert_eq!(effective_interval_ms(60_000, 300_000, true, true), 60_000);
    // 蜂窝 → 闲时间隔
    assert_eq!(effective_interval_ms(60_000, 300_000, true, false), 300_000);
    // 灭屏 → 闲时间隔
    assert_eq!(effective_interval_ms(60_000, 300_000, false, true), 300_000);
    // 灭屏 + 蜂窝 → 闲时间隔
    assert_eq!(effective_interval_ms(60_000, 300_000, false, false), 300_000);
}

#[test]
fn tick_interval_idle_below_base_uses_base() {
    assert_eq!(effective_interval_ms(120_000, 30_000, false, false), 120_000);
}

#[test]
fn tick_interval_base_floor_5s() {
    assert_eq!(effective_interval_ms(1_000, 300_000, true, true), 5_000);
    assert_eq!(effective_interval_ms(1_000, 0, false, false), 5_000);
}


use campus_login::mobile::monitor::{campus_check_silent, MonitorState, MAX_CONSECUTIVE_FAILURES};
use campus_login::mobile::settings::Settings;

fn creds() -> Settings {
    Settings {
        user: "u".to_string(),
        password: "p".to_string(),
        auto_login_on_preparation: true,
        max_disconnect_reconnect: 3,
        auto_login_cooldown_secs: 60,
        ..Settings::default()
    }
}

#[test]
fn drop_triggers_login_and_counts_reconnects_up_to_limit() {
    let s = creds();
    let mut m = MonitorState::new();
    let plan = m.plan_after_probe(Some(true), true, &s, 1_000_000);
    assert!(plan.online && !plan.attempt_login);
    let mut now = 2_000_000u64;
    let plan = m.plan_after_probe(Some(false), true, &s, now);
    assert!(plan.notify_dropout);
    assert!(plan.attempt_login);
    assert_eq!(m.reconnect_count, 1);
    m.record_login_outcome(Some(false));
    for expected in 2..=3u32 {
        now += 60_000;
        let plan = m.plan_after_probe(Some(false), true, &s, now);
        assert!(plan.attempt_login);
        assert_eq!(m.reconnect_count, expected);
        assert_eq!(plan.notify_reconnect_cap, expected == 3);
        m.record_login_outcome(None);
    }
    now += 60_000;
    let plan = m.plan_after_probe(Some(false), true, &s, now);
    assert!(!plan.attempt_login, "重连达上限后不再尝试");
    assert_eq!(m.consecutive_failures, 3);
    let plan = m.plan_after_probe(Some(true), true, &s, now + 1);
    assert!(plan.online);
    assert_eq!(m.reconnect_count, 0);
    assert_eq!(m.consecutive_failures, 0);
}

#[test]
fn undecided_portal_keeps_previous_state() {
    let s = creds();
    let mut m = MonitorState::new();
    m.plan_after_probe(Some(true), true, &s, 10);
    let plan = m.plan_after_probe(None, true, &s, 20);
    assert!(plan.online && !plan.notify_dropout && !plan.attempt_login);
}

#[test]
fn logout_protection_and_failure_fuse_block_logins() {
    let s = creds();
    let mut m = MonitorState::new();
    m.was_online = true;
    m.logout_protected_until_ms = 5_000_000;
    let plan = m.plan_after_probe(Some(false), true, &s, 4_000_000);
    assert!(!plan.attempt_login);
    let mut m = MonitorState::new();
    m.was_online = true;
    m.consecutive_failures = MAX_CONSECUTIVE_FAILURES;
    let plan = m.plan_after_probe(Some(false), true, &s, 4_000_000);
    assert!(!plan.attempt_login);
    let mut no_creds = creds();
    no_creds.password.clear();
    let mut m = MonitorState::new();
    m.was_online = true;
    let plan = m.plan_after_probe(Some(false), true, &no_creds, 4_000_000);
    assert!(!plan.attempt_login);
}

#[test]
fn checking_hours_gate() {
    assert!(!campus_check_silent(100, 0, 0), "0 关闭时间门控");
    assert!(campus_check_silent(459, 460, 1380));
    assert!(!campus_check_silent(460, 460, 1380));
    assert!(campus_check_silent(1380, 460, 1380));
    assert!(!campus_check_silent(1430, 460, 0), "结束不晚于开始时不限制结束");
}

#[test]
fn wifi_bursts_schedule_one_check() {
    let mut m = MonitorState::new();
    assert!(m.note_wifi_event(1_000_000));
    assert!(!m.note_wifi_event(1_000_500));
    assert!(m.wifi_event_is_current(1_000_000));
    assert!(m.note_wifi_event(1_002_000));
    assert!(!m.wifi_event_is_current(1_000_000));
}

#[test]
fn notification_rebuilt_only_on_change() {
    let mut m = MonitorState::new();
    assert!(m.update_notified_state(true));
    assert!(!m.update_notified_state(true));
    assert!(m.update_notified_state(false));
}

#[test]
fn start_is_idempotent() {
    let mut m = MonitorState::new();
    assert!(m.prepare_start(1_000, 300_000));
    assert_eq!(m.desired_interval_ms, 5_000);
    m.mark_started();
    assert!(!m.prepare_start(90_000, 300_000));
    assert_eq!(m.desired_interval_ms, 90_000);
}
