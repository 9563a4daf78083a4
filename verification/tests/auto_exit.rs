use campus_login::desktop::auto_exit::{cancel_message, countdown_notice, AutoExitState, AUTO_EXIT_DELAY_MS};

#[test]
fn countdown_starts_once_and_fires_at_deadline() {
    let mut s = AutoExitState::new();
    assert!(s.start(1_000));
    assert_eq!(s.deadline_ms, Some(1_000 + AUTO_EXIT_DELAY_MS));
    assert!(!s.start(5_000), "a running countdown is not restarted");
    assert_eq!(s.deadline_ms, Some(11_000));
    assert!(!s.exit_due(10_999));
    assert!(s.exit_due(11_000));
    assert_eq!(s.remaining_ms(4_000), 7_000);
    assert_eq!(s.remaining_ms(20_000), 0);
}

#[test]
fn cancel_stops_the_countdown() {
    let mut s = AutoExitState::new();
    assert!(!s.cancel(), "nothing to cancel");
    assert_eq!(cancel_message(false), "无需取消");
    s.start(0);
    assert!(s.cancel());
    assert!(s.cancelled);
    assert!(!s.exit_due(u64::MAX));
    assert_eq!(cancel_message(true), "自动退出已取消");
    assert_eq!(s.remaining_ms(0), AUTO_EXIT_DELAY_MS);
    assert!(s.start(100));
    assert!(!s.cancelled, "a new countdown clears the cancelled mark");
}

#[test]
fn deadline_saturates_at_clock_end() {
    let mut s = AutoExitState::new();
    s.start(u64::MAX - 1);
    assert_eq!(s.deadline_ms, Some(u64::MAX));
}

#[test]
fn countdown_notice_text() {
    let (title, body) = countdown_notice();
    assert_eq!(title, "即将自动退出");
    assert_eq!(body, "10秒后自动退出，按 Ctrl+Shift+C 可取消");
}
