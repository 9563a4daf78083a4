use campus_login::config::night_switch::{evaluate_night_switch, NightSwitchAction};
use NightSwitchAction::{Idle, Restore, SwitchToCampus};

const TELECOM: &str = "@telecom";

fn eval(enabled: bool, weekday: u32, now: u32, current: &str, restore: &str) -> NightSwitchAction {
    evaluate_night_switch(enabled, weekday, now, current, restore)
}

#[test]
fn night_switch_disabled_never_fires() {
    assert_eq!(eval(false, 0, 1380, TELECOM, ""), Idle);
    assert_eq!(eval(false, 0, 600, "", TELECOM), Idle);
}

#[test]
fn sunday_1380_exactly_switches() {
    assert_eq!(eval(true, 0, 1380, TELECOM, ""), SwitchToCampus);
}

#[test]
fn sunday_1379_one_minute_early_no_switch() {
    assert_eq!(eval(true, 0, 1379, TELECOM, ""), Idle);
}

#[test]
fn monday_1380_and_fri_sat_1410_switch_tuesday_not() {
    assert_eq!(eval(true, 1, 1380, TELECOM, ""), SwitchToCampus);
    assert_eq!(eval(true, 5, 1410, TELECOM, ""), SwitchToCampus);
    assert_eq!(eval(true, 6, 1410, TELECOM, ""), SwitchToCampus);
    // 周二~周四无切换时刻
    assert_eq!(eval(true, 2, 1380, TELECOM, ""), Idle);
    assert_eq!(eval(true, 3, 1439, TELECOM, ""), Idle);
    assert_eq!(eval(true, 4, 1439, TELECOM, ""), Idle);
}

#[test]
fn friday_1409_one_minute_early_no_switch() {
    assert_eq!(eval(true, 5, 1409, TELECOM, ""), Idle);
}

#[test]
fn inside_restore_window_switched_state_restores() {
    // 窗口起点 06:30、午间、终点前一分钟
    assert_eq!(eval(true, 1, 390, "", TELECOM), Restore);
    assert_eq!(eval(true, 2, 600, "", TELECOM), Restore);
    assert_eq!(eval(true, 6, 1379, "", TELECOM), Restore);
}

#[test]
fn outside_restore_window_no_restore() {
    // 06:29 尚未到窗口
    assert_eq!(eval(true, 1, 389, "", TELECOM), Idle);
    // 23:00 已出窗口（且恰好是切换时刻，但 operator 为空不重复切）
    assert_eq!(eval(true, 0, 1380, "", TELECOM), Idle);
    // 次日凌晨（周日 00:10）不恢复
    assert_eq!(eval(true, 0, 10, "", TELECOM), Idle);
}

#[test]
fn empty_restore_not_switched_no_restore() {
    assert_eq!(eval(true, 1, 600, "", ""), Idle);
    assert_eq!(eval(true, 1, 600, TELECOM, ""), Idle);
}

#[test]
fn current_operator_set_not_campus_state_no_restore() {
    assert_eq!(eval(true, 1, 600, TELECOM, TELECOM), Idle);
}

#[test]
fn already_switched_past_switch_time_no_repeat() {
    // 周日 23:01 已处于无锡学院态：既不在恢复窗口也不满足切换条件，幂等返回 None
    assert_eq!(eval(true, 0, 1381, "", TELECOM), Idle);
    assert_eq!(eval(true, 0, 1439, "", TELECOM), Idle);
}

#[test]
fn operator_outside_whitelist_never_switches() {
    // 账号档案历史脏值与任意非法后缀均不属于断网 ISP,不参与夜切
    assert_eq!(eval(true, 0, 1380, "校园", ""), Idle);
    assert_eq!(eval(true, 5, 1410, "@foo", ""), Idle);
}

#[test]
fn all_three_whitelisted_operators_switch() {
    assert_eq!(eval(true, 0, 1380, "@telecom", ""), SwitchToCampus);
    assert_eq!(eval(true, 0, 1380, "@unicom", ""), SwitchToCampus);
    assert_eq!(eval(true, 6, 1410, "@cmcc", ""), SwitchToCampus);
}

#[test]
fn switched_state_restores_every_tick_in_window_idempotently() {
    // 判定语义：窗口内重复调用始终返回 Restore，由调用方在恢复成功后
    // 清空 restore 使下一拍回到 None，保证写配置只发生一次
    let first = eval(true, 1, 390, "", TELECOM);
    assert_eq!(first, Restore);
    // 模拟调用方已清空 restore 后的下一拍
    assert_eq!(eval(true, 1, 390, "", ""), Idle);
}

