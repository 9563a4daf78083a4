use campus_login::desktop::lightweight::{
    effective_background_interval_ms, effective_quality_interval_ms, should_prevent_exit, LightweightState,
};

#[test]
fn exit_guard_blocks_only_when_armed_and_not_quitting() {
    assert!(should_prevent_exit(true, false));
    assert!(!should_prevent_exit(false, false));
    assert!(!should_prevent_exit(true, true));
    assert!(!should_prevent_exit(false, true));
}

#[test]
fn lightweight_intervals_have_floors() {
    assert_eq!(effective_background_interval_ms(60000, true), 300_000);
    assert_eq!(effective_background_interval_ms(60000, false), 60000);
    assert_eq!(effective_background_interval_ms(900_000, true), 900_000);
    assert_eq!(effective_quality_interval_ms(600000, true), 1_800_000);
    assert_eq!(effective_quality_interval_ms(600000, false), 600000);
    assert_eq!(effective_quality_interval_ms(3_600_000, true), 3_600_000);
}

#[test]
fn exit_guard_is_taken_once() {
    let mut state = LightweightState::new();
    state.arm_lightweight_exit_guard();
    assert!(state.take_lightweight_exit_guard());
    assert!(!state.take_lightweight_exit_guard(), "第二次取走应为 false（单次消费）");
}

#[test]
fn lightweight_flag_is_independent_of_the_guard() {
    let mut state = LightweightState::new();
    assert!(!state.is_lightweight_active());
    state.set_lightweight_active(true);
    state.arm_lightweight_exit_guard();
    assert!(state.is_lightweight_active());
    assert!(state.take_lightweight_exit_guard());
    assert!(state.is_lightweight_active());
}
