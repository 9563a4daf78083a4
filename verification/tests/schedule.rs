use campus_login::config::schedule::should_fire_scheduled_action;


const TODAY: i32 = 739_776;

#[test]
fn disabled_sentinel_1440_never_fires() {
    assert!(!should_fire_scheduled_action(0, 1440, i32::MIN, TODAY));
    assert!(!should_fire_scheduled_action(600, 1440, i32::MIN, TODAY));
    assert!(!should_fire_scheduled_action(1439, u16::MAX, i32::MIN, TODAY));
}

#[test]
fn target_midnight_fires_at_time() {
    // 0 现在是真实的 00:00 时刻：当天任何一拍（now >= 0 恒真）都算过点补触发
    assert!(should_fire_scheduled_action(0, 0, i32::MIN, TODAY));
    assert!(should_fire_scheduled_action(600, 0, i32::MIN, TODAY));
    assert!(should_fire_scheduled_action(1439, 0, i32::MIN, TODAY));
}

#[test]
fn before_time_does_not_fire() {
    assert!(!should_fire_scheduled_action(459, 460, i32::MIN, TODAY));
    assert!(!should_fire_scheduled_action(0, 460, i32::MIN, TODAY));
}

#[test]
fn at_time_not_yet_run_today_fires() {
    // 恰好等于配置分钟
    assert!(should_fire_scheduled_action(460, 460, i32::MIN, TODAY));
    // 过点补触发（循环拍错过配置分钟的场景）
    assert!(should_fire_scheduled_action(505, 460, i32::MIN, TODAY));
}

#[test]
fn already_run_today_does_not_repeat() {
    assert!(!should_fire_scheduled_action(461, 460, TODAY, TODAY));
    assert!(!should_fire_scheduled_action(1439, 460, TODAY, TODAY));
}

#[test]
fn next_day_fires_again() {
    // 昨日已执行，今天重新视为未执行
    assert!(should_fire_scheduled_action(460, 460, TODAY - 1, TODAY));
}

