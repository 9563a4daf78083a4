use campus_login::config::model::{Config, PASSWORD_MASK};

#[test]
fn default_reconnect_and_cooldown_config() {
    let config = Config::default();
    assert_eq!(config.max_disconnect_reconnect, 3);
    assert_eq!(config.auto_login_cooldown_secs, 60);
}

/// Masking on the way out hides both secrets and leaves empty ones empty.
#[test]
fn masked_for_display_masks_both_password_fields() {
    let mut cfg = Config::default();
    let masked = cfg.masked_for_display();
    assert_eq!(masked.password, "");
    assert_eq!(masked.self_password, "");
    cfg.password = "login-secret".to_string();
    cfg.self_password = "self-secret".to_string();
    let masked = cfg.masked_for_display();
    assert_eq!(masked.password, PASSWORD_MASK);
    assert_eq!(masked.self_password, PASSWORD_MASK);
    assert_eq!(cfg.password, "login-secret");
    assert_eq!(cfg.self_password, "self-secret");
}

#[test]
fn mask_in_place_keeps_other_fields() {
    let mut cfg = Config::default();
    cfg.user = "u1".to_string();
    cfg.password = "p".to_string();
    cfg.mask_in_place();
    assert_eq!(cfg.password, PASSWORD_MASK);
    assert_eq!(cfg.self_password, "");
    assert_eq!(cfg.user, "u1");
}
