use campus_login::config::outbound_switch::{evaluate_night_outbound, NightOutboundAction};
use campus_login::config::night_switch::switch_time_for;


// 时间表：与运营商夜切共用（0..=4→1380，5|6→1410）
#[test]
fn switch_time_follows_operator_night_schedule() {
    assert_eq!(switch_time_for(0), Some(1380)); // 周日
    assert_eq!(switch_time_for(4), Some(1380)); // 周四
    assert_eq!(switch_time_for(5), Some(1410)); // 周五
    assert_eq!(switch_time_for(6), Some(1410)); // 周六
}

#[test]
fn switch_fires_after_time_when_not_in_switched_state() {
    // 周日 23:00 整（1380）：未切换态 → Switch
    assert_eq!(evaluate_night_outbound(true, 0, 1380, false), NightOutboundAction::Switch);
    // 22:59 未到时刻
    assert_eq!(evaluate_night_outbound(true, 0, 1379, false), NightOutboundAction::Idle);
    // 已处于切换态（restore 非空）不再 Switch
    assert_eq!(evaluate_night_outbound(true, 0, 1380, true), NightOutboundAction::Idle);
    // 功能关闭
    assert_eq!(evaluate_night_outbound(false, 0, 1380, false), NightOutboundAction::Idle);
}

#[test]
fn restore_fires_in_restore_window_only() {
    // 06:30 起、restore 非空 → Restore
    assert_eq!(evaluate_night_outbound(true, 0, 390, true), NightOutboundAction::Restore);
    assert_eq!(evaluate_night_outbound(true, 3, 1379, true), NightOutboundAction::Restore);
    // 06:29 未到恢复窗口（午夜后不补触发，沿用既有边界）
    assert_eq!(evaluate_night_outbound(true, 0, 389, true), NightOutboundAction::Idle);
    // 恢复窗口内已还原（restore 空）
    assert_eq!(evaluate_night_outbound(true, 0, 500, false), NightOutboundAction::Idle);
}

