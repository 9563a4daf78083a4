use campus_login::mobile::identity::IdentityGate;
use campus_login::mobile::self_service::{
    ensure_identity_gate, ensure_identity_gate_at, is_iso_date, resolve_self_password, IDENTITY_EXPIRED,
};
use campus_login::mobile::settings::Settings;

fn settings_with_self_password(pw: &str) -> Settings {
    Settings {
        self_password: pw.to_string(),
        ..Settings::default()
    }
}

#[test]
fn self_password_falls_back_on_mask_or_empty() {
    let s = settings_with_self_password("stored");
    assert_eq!(resolve_self_password("***", &s), Some("stored".into()));
    assert_eq!(resolve_self_password("", &s), Some("stored".into()));
    assert_eq!(resolve_self_password("fresh", &s), Some("fresh".into()));
    // 已存为空 → None(提示输入)
    assert_eq!(resolve_self_password("***", &settings_with_self_password("")), None);
}

#[test]
fn identity_check_open_when_switch_off_else_ttl() {
    let mut gate = IdentityGate::new();
    // 开关关 → 放行
    let mut s = settings_with_self_password("");
    s.self_hello_enabled = false;
    assert_eq!(ensure_identity_gate(&s, &gate), None);
    // 开关开 + 未验证 → 拦截
    s.self_hello_enabled = true;
    assert!(ensure_identity_gate(&s, &gate).is_some());
    // 验证后 → 放行
    gate.note_identity_verified();
    assert_eq!(ensure_identity_gate(&s, &gate), None);
}

#[test]
fn is_iso_date_is_strict() {
    assert!(is_iso_date("2026-09-07"));
    assert!(!is_iso_date("2026-9-07"));
    assert!(!is_iso_date("2026/09/07"));
    assert!(!is_iso_date("2026-09-0a"));
    assert!(!is_iso_date("20260907"));
}

#[test]
fn gate_at_fixed_times_follows_trust_period() {
    let s = Settings { self_hello_enabled: true, ..Settings::default() };
    let gate = IdentityGate { last_verify_epoch_secs: 1_000 };
    assert_eq!(ensure_identity_gate_at(&s, &gate, 1_600), None);
    assert_eq!(ensure_identity_gate_at(&s, &gate, 1_601), Some(IDENTITY_EXPIRED.to_string()));
    assert_eq!(ensure_identity_gate_at(&s, &gate, 999), Some(IDENTITY_EXPIRED.to_string()));
}

#[test]
fn iso_date_rejects_non_ascii_and_extra_chars() {
    assert!(!is_iso_date("2026-09-07 "));
    assert!(!is_iso_date("２026-09-07"));
    assert!(!is_iso_date(""));
}
