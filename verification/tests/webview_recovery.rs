use campus_login::desktop::recovery::{recovery_gate, RECOVERY_WINDOW_MS};


#[test]
fn recovery_window_counts_and_allows() {
    let start = 1_000_000;
    let (allowed, s, c) = recovery_gate(0, 0, start);
    assert!(allowed);
    assert_eq!((s, c), (start, 1));

    let (allowed, s, c) = recovery_gate(s, c, start + 60_000);
    assert!(allowed);
    assert_eq!((s, c), (start, 2));

    let (allowed, s, c) = recovery_gate(s, c, start + 120_000);
    assert!(allowed);
    assert_eq!((s, c), (start, 3));
}

#[test]
fn recovery_window_over_limit_refuses_unchanged() {
    let start = 1_000_000;
    let (allowed, s, c) = recovery_gate(start, 3, start + 60_000);
    assert!(!allowed);
    assert_eq!((s, c), (start, 3));
}

#[test]
fn recovery_window_expiry_resets_count() {
    let start = 1_000_000;
    // 窗口起点 5 分钟前，计数 3 → 放行且重置窗口
    let (allowed, s, c) = recovery_gate(start, 3, start + RECOVERY_WINDOW_MS);
    assert!(allowed);
    assert_eq!((s, c), (start + RECOVERY_WINDOW_MS, 1));
}


#[test]
fn recovery_gate_fourth_reload_in_window_refused_until_expiry() {
    let start = 5_000_000;
    let (a1, s, c) = recovery_gate(0, 0, start);
    let (a2, s, c) = recovery_gate(s, c, start + 1);
    let (a3, s, c) = recovery_gate(s, c, start + 2);
    let (a4, s, c) = recovery_gate(s, c, start + 3);
    assert!(a1 && a2 && a3 && !a4);
    assert_eq!(c, 3);
    let (a5, s2, c2) = recovery_gate(s, c, start + RECOVERY_WINDOW_MS + 3);
    assert!(a5);
    assert_eq!((s2, c2), (start + RECOVERY_WINDOW_MS + 3, 1));
}
