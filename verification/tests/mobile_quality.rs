use campus_login::mobile::quality::{
    backoff_step, is_good_quality, latency_base_interval_ms, next_backoff_interval_ms, BACKOFF_MAX_MS,
    BACKOFF_STABLE_STREAK,
};

#[test]
fn streak_of_five_doubles_interval_up_to_cap() {
    assert_eq!(next_backoff_interval_ms(60_000, 5, 60_000), 120_000);
    assert_eq!(next_backoff_interval_ms(120_000, 10, 60_000), 240_000);
    // 翻倍后超上限则封顶
    assert_eq!(next_backoff_interval_ms(1_440_000, 20, 60_000), BACKOFF_MAX_MS);
    // 已到上限不再增长
    assert_eq!(next_backoff_interval_ms(BACKOFF_MAX_MS, 25, 60_000), BACKOFF_MAX_MS);
}

#[test]
fn below_five_interval_unchanged() {
    assert_eq!(next_backoff_interval_ms(60_000, 4, 60_000), 60_000);
    assert_eq!(next_backoff_interval_ms(240_000, 7, 60_000), 240_000);
}

#[test]
fn doubling_never_below_base() {
    assert_eq!(next_backoff_interval_ms(60_000, 5, 100_000), 100_000);
    assert_eq!(BACKOFF_STABLE_STREAK, 5);
}

#[test]
fn good_and_better_grades_count_as_stable() {
    assert!(is_good_quality("excellent"));
    assert!(is_good_quality("good"));
    assert!(!is_good_quality("fair"));
    assert!(!is_good_quality("unknown"));
    assert!(!is_good_quality("busy"));
}

#[test]
fn great_counts_as_good_and_case_matters() {
    assert!(is_good_quality("great"));
    assert!(!is_good_quality("Good"));
    assert!(!is_good_quality(""));
}

#[test]
fn zero_streak_never_doubles() {
    assert_eq!(next_backoff_interval_ms(60_000, 0, 60_000), 60_000);
}

#[test]
fn base_interval_is_at_least_ten_seconds() {
    assert_eq!(latency_base_interval_ms(0), 10_000);
    assert_eq!(latency_base_interval_ms(9_999), 10_000);
    assert_eq!(latency_base_interval_ms(30_000), 30_000);
}

#[test]
fn backoff_step_doubles_on_fifth_good_and_resets_on_bad() {
    let mut streak = 0u32;
    let mut interval = 60_000u64;
    for _ in 0..4 {
        let (s, i) = backoff_step("good", streak, interval, 60_000);
        streak = s;
        interval = i;
        assert_eq!(interval, 60_000);
    }
    let (s, i) = backoff_step("excellent", streak, interval, 60_000);
    assert_eq!((s, i), (5, 120_000));
    let (s, i) = backoff_step("fair", s, i, 60_000);
    assert_eq!((s, i), (0, 60_000));
}

#[test]
fn backoff_step_saturates_streak() {
    let (s, _) = backoff_step("good", u32::MAX, 60_000, 60_000);
    assert_eq!(s, u32::MAX);
}
