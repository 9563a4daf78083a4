use campus_login::mobile::settings::{
    masked_for_display, merge_saved_settings, migrate_legacy_defaults, resolve_password_field, Settings,
};

fn sample_settings() -> Settings {
    Settings {
        user: "2024001".to_string(),
        password: "secret_pass密码".to_string(),
        self_password: "self_secret".to_string(),
        operator: "@cmcc".to_string(),
        background_check_interval: 15_000,
        ..Settings::default()
    }
}

#[test]
fn settings_defaults() {
    let s = Settings::default();
    assert_eq!(s.portal_url, "http://10.1.99.100");
    assert_eq!(s.campus_gateway, "10.2.127.254");
    assert_eq!(s.required_network_name, "i-wxxy");
    assert_eq!(s.theme_mode, "dark");
    assert_eq!(s.background_check_interval, 60_000);
    assert_eq!(s.config_schema_version, 1, "新装即当前版本,不触发迁移");
    assert_eq!(s.max_disconnect_reconnect, 3);
    assert!(s.self_hello_enabled);
    assert!(s.enable_network_quality);
}

#[test]
fn masking_stars_non_empty_keeps_empty() {
    let mut s = sample_settings();
    let v = masked_for_display(&s);
    assert_eq!(v.password, "***");
    assert_eq!(v.self_password, "***");
    assert!(!format!("{v:?}").contains("secret_pass"));
    s.password.clear();
    let v = masked_for_display(&s);
    assert_eq!(v.password, "");
}

#[test]
fn password_field_fallback_matches_desktop() {
    assert_eq!(resolve_password_field("***", "real", false), "real");
    assert_eq!(resolve_password_field("", "real", false), "real");
    assert_eq!(resolve_password_field("new_pass", "real", false), "new_pass");
    assert_eq!(resolve_password_field("***", "real", true), "");
    assert_eq!(resolve_password_field("real", "old", false), "real");
}

#[test]
fn migration_lifts_the_old_default_once() {
    let mut old = sample_settings();
    old.config_schema_version = 0;
    assert!(migrate_legacy_defaults(&mut old));
    assert_eq!(old.background_check_interval, 60_000);
    assert_eq!(old.config_schema_version, 1);
    // a user's own 15 s after the migration is kept
    old.background_check_interval = 15_000;
    assert!(!migrate_legacy_defaults(&mut old));
    assert_eq!(old.background_check_interval, 15_000);
    // other values are not migrated
    let mut other = sample_settings();
    other.config_schema_version = 0;
    other.background_check_interval = 30_000;
    assert!(migrate_legacy_defaults(&mut other));
    assert_eq!(other.background_check_interval, 30_000);
}

#[test]
fn saving_keeps_untouched_secrets() {
    let current = sample_settings();
    let mut incoming = sample_settings();
    incoming.password = "***".to_string();
    incoming.self_password = String::new();
    incoming.user = "2024002".to_string();
    let merged = merge_saved_settings(incoming, &current, false, true);
    assert_eq!(merged.password, "secret_pass密码");
    assert_eq!(merged.self_password, "");
    assert_eq!(merged.user, "2024002");
}
