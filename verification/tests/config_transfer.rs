use campus_login::config::model::{Config, PASSWORD_MASK};
use campus_login::config::transfer::{
    export_needs_cipher, import_decrypt_error, imported_password_plan, saved_config, ImportedPassword,
};

#[test]
fn save_keeps_saved_passwords_for_placeholders() {
    let current = Config { password: "old".to_string(), self_password: "old-self".to_string(), ..Config::default() };
    let incoming = Config {
        user: "u1".to_string(),
        password: PASSWORD_MASK.to_string(),
        self_password: String::new(),
        ..Config::default()
    };
    let r = saved_config(incoming, &current, false, false);
    assert_eq!(r.user, "u1");
    assert_eq!(r.password, "old");
    assert_eq!(r.self_password, "old-self");
}

#[test]
fn save_clears_or_replaces_passwords() {
    let current = Config { password: "old".to_string(), self_password: "old-self".to_string(), ..Config::default() };
    let incoming = Config { password: "new".to_string(), self_password: PASSWORD_MASK.to_string(), ..Config::default() };
    let r = saved_config(incoming, &current, false, true);
    assert_eq!(r.password, "new");
    assert_eq!(r.self_password, "");
}

#[test]
fn import_password_plan_semantics() {
    assert_eq!(imported_password_plan("", false), ImportedPassword::KeepCurrent);
    assert_eq!(imported_password_plan(PASSWORD_MASK, true), ImportedPassword::KeepCurrent);
    assert_eq!(imported_password_plan("cipher==", true), ImportedPassword::Decrypt);
    assert_eq!(imported_password_plan("plain-typed", false), ImportedPassword::AsIs);
    assert_eq!(import_decrypt_error("bad"), "密码密文解密失败（含密码导出仅限本机导入）: bad");
}

#[test]
fn export_encrypts_only_real_passwords() {
    assert!(export_needs_cipher("login-secret"));
    assert!(!export_needs_cipher(""));
    assert!(!export_needs_cipher(PASSWORD_MASK));
}
