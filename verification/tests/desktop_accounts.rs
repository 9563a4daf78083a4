use campus_login::config::model::Config;
use campus_login::desktop::accounts::{
    clear_deleted_active_account,
    auto_create_account_id, auto_create_write, merge_account_into_config, merge_save_as_target,
    previous_account_save, validate_account_name, validate_display_name,
};

fn sample_account(user: &str, password: &str, display: &str) -> Config {
    Config {
        user: user.to_string(),
        password: password.to_string(),
        operator: "校园".to_string(),
        display_name: display.to_string(),
        ..Default::default()
    }
}

#[test]
fn display_name_validation() {
    assert!(validate_display_name("").is_err());
    assert!(validate_display_name("   ").is_err());
    assert!(validate_display_name("甲".repeat(33).as_str()).is_err());
    assert!(validate_display_name("a\nb").is_err());
    assert!(validate_display_name("a\u{7}b").is_err());
    assert!(validate_display_name("甲".repeat(32).as_str()).is_ok());
    assert_eq!(validate_display_name("  我的 账号😀  ").unwrap(), "我的 账号😀");
    assert!(validate_display_name("a@b.c").is_ok());
}

#[test]
fn merge_account_fields_and_exclude_device_level_binding() {
    let mut current = Config::default();
    current.adapter1_account = "kept-1".to_string();
    current.adapter2_account = "kept-2".to_string();
    current.display_name = "旧显示名".to_string();

    let account = sample_account("u2", "p2", "");
    merge_account_into_config(&mut current, &account, "acc-2");

    assert_eq!(current.user, "u2");
    assert_eq!(current.password, "p2");
    assert_eq!(current.operator, "校园");
    assert_eq!(current.active_account, "acc-2");
    assert_eq!(current.display_name, "acc-2");
    assert_eq!(current.adapter1_account, "kept-1", "切账号不得改变主适配器绑定");
    assert_eq!(current.adapter2_account, "kept-2", "切账号不得改变副适配器绑定");
}

#[test]
fn merge_account_uses_account_display_name_when_present() {
    let mut current = Config::default();
    current.display_name = "旧显示名".to_string();
    let account = sample_account("u2", "p2", "自定义名");
    merge_account_into_config(&mut current, &account, "acc-2");
    assert_eq!(current.display_name, "自定义名");
}

#[test]
fn desktop_account_name_limit_counts_bytes() {
    assert!(validate_account_name("a_b-2").is_ok());
    assert!(validate_account_name("../etc").is_err());
    // 11 CJK characters are 33 bytes: over the desktop limit
    assert!(validate_account_name(&"名".repeat(11)).is_err());
    assert!(validate_account_name(&"名".repeat(10)).is_ok());
    assert_eq!(validate_account_name("").unwrap_err(), "账号名称长度需在1-32之间");
}

#[test]
fn save_as_keeps_existing_display_name_when_overwriting() {
    let existing = sample_account("user-b", "pwd-old", "B的自定义名");
    let account_data = sample_account("user-b", "pwd-new", "");
    let merged = merge_save_as_target(Ok(existing), &account_data).unwrap();
    assert_eq!(merged.display_name, "B的自定义名");
    assert_eq!(merged.password, "pwd-old", "merge 不动密码，由调用方统一覆盖");
    assert_eq!(merged.operator, "校园");
}

#[test]
fn save_as_falls_back_to_current_config_on_decrypt_failure() {
    let account_data = sample_account("user-a", "pwd-a", "甲");
    let merged = merge_save_as_target(Err("账号密码解密失败".to_string()), &account_data)
        .expect("解密失败必须走宽松回退而非硬错误");
    assert_eq!(merged.user, "user-a", "解密失败时用当前配置覆盖");
    assert_eq!(merged.password, "pwd-a");
    assert_eq!(merged.display_name, "甲");
}

#[test]
fn save_as_hard_fails_on_corrupt_json() {
    let account_data = sample_account("user-a", "pwd-a", "");
    let parse_error = "解析账号配置失败: key must be a string at line 1 column 2".to_string();
    assert!(merge_save_as_target(Err(parse_error), &account_data).is_err());
}

#[test]
fn save_as_falls_back_on_recoverable_read_errors_only() {
    let account_data = sample_account("user-a", "pwd-a", "甲");
    for e in ["账号不存在", "账号密码解密失败", "读取账号配置失败: io"] {
        let merged = merge_save_as_target(Err(e.to_string()), &account_data).unwrap();
        assert_eq!(merged.user, "user-a");
        assert_eq!(merged.password, "pwd-a");
        assert_eq!(merged.display_name, "甲");
    }
    assert_eq!(
        merge_save_as_target(Err("解析账号配置失败".to_string()), &account_data).unwrap_err(),
        "解析账号配置失败"
    );
}

#[test]
fn previous_account_is_saved_back_with_current_login_fields() {
    let current = sample_account("u-now", "p-now", "");
    let fresh = previous_account_save(Err("账号不存在".to_string()), "old-id", &current).unwrap();
    assert_eq!(fresh.display_name, "old-id");
    assert_eq!(fresh.user, "u-now");
    let kept = previous_account_save(Ok(sample_account("x", "y", "旧名")), "old-id", &current).unwrap();
    assert_eq!(kept.display_name, "旧名");
    assert_eq!(kept.password, "p-now");
    assert_eq!(previous_account_save(Err("坏".to_string()), "old-id", &current).unwrap_err(), "读取旧账号配置失败");
}

#[test]
fn auto_create_rules_on_desktop() {
    let cfg = sample_account("2023@stu", "pwd", "");
    assert_eq!(auto_create_account_id(&cfg).as_deref(), Some("2023_stu"));
    assert_eq!(auto_create_account_id(&sample_account("", "pwd", "")), None);
    let created = auto_create_write(&cfg, "2023_stu", None).unwrap();
    assert_eq!(created.display_name, "2023@stu");
    assert_eq!(created.active_account, "2023_stu");
    // same user, same credentials: nothing to write
    assert!(auto_create_write(&cfg, "2023_stu", Some(created.clone())).is_none());
    // another user behind the same id: never overwritten
    let other = sample_account("2023.stu", "pwd-x", "别人");
    assert!(auto_create_write(&cfg, "2023_stu", Some(other)).is_none());
    // changed password: only the credentials change
    let mut named = created.clone();
    named.display_name = "自定义".to_string();
    let cfg2 = sample_account("2023@stu", "pwd2", "");
    let updated = auto_create_write(&cfg2, "2023_stu", Some(named)).unwrap();
    assert_eq!(updated.password, "pwd2");
    assert_eq!(updated.display_name, "自定义");
}

#[test]
fn auto_create_skips_without_credentials() {
    assert_eq!(auto_create_account_id(&sample_account("", "pwd", "")), None);
    assert_eq!(auto_create_account_id(&sample_account("user", "", "")), None);
}

#[test]
fn auto_create_new_account_uses_raw_user_as_display_name() {
    let config = sample_account("2023@stu.wxxy.edu.cn", "pwd", "");
    let id = auto_create_account_id(&config).unwrap();
    assert_eq!(id, "2023_stu_wxxy_edu_cn");
    let written = auto_create_write(&config, &id, None).expect("新建档案算实际写盘");
    assert_eq!(written.display_name, "2023@stu.wxxy.edu.cn");
    assert_eq!(written.active_account, "2023_stu_wxxy_edu_cn");
    assert_eq!(written.password, "pwd");
}

#[test]
fn auto_create_is_idempotent_no_write_when_identical() {
    let config = sample_account("user01", "pwd", "");
    let first = auto_create_write(&config, "user01", None).unwrap();
    assert!(auto_create_write(&config, "user01", Some(first)).is_none(), "幂等短路不算写盘");
}

#[test]
fn auto_create_updates_credentials_but_keeps_display_name() {
    let config = sample_account("user01", "pwd-old", "");
    let mut customized = auto_create_write(&config, "user01", None).unwrap();
    customized.display_name = "我的专属名".to_string();
    let changed = sample_account("user01", "pwd-new", "");
    let loaded = auto_create_write(&changed, "user01", Some(customized)).expect("差异更新算实际写盘");
    assert_eq!(loaded.password, "pwd-new", "有差异时更新凭据");
    assert_eq!(loaded.display_name, "我的专属名", "不得覆盖用户自定义显示名");
    assert_eq!(loaded.operator, "校园", "operator 属比对更新字段");
}

#[test]
fn auto_create_all_illegal_chars_still_creates_account() {
    let config = sample_account("@@#", "pwd", "");
    let id = auto_create_account_id(&config).unwrap();
    assert_eq!(id, "___");
    assert!(auto_create_write(&config, &id, None).is_some());
}

#[test]
fn auto_create_skips_on_id_collision_with_different_raw_user() {
    let first = auto_create_write(&sample_account("2023.1", "pwd-old", ""), "2023_1", None).unwrap();
    let newcomer = sample_account("2023/1", "pwd-new", "");
    assert_eq!(auto_create_account_id(&newcomer).as_deref(), Some("2023_1"));
    assert!(auto_create_write(&newcomer, "2023_1", Some(first)).is_none(), "撞库命中不得算作写盘");
}

#[test]
fn deleting_the_active_desktop_account_clears_it() {
    let mut cfg = Config { active_account: "acc-1".to_string(), user: "u".to_string(), ..Default::default() };
    assert!(!clear_deleted_active_account(&mut cfg, "acc-2"));
    assert_eq!(cfg.active_account, "acc-1");
    assert!(clear_deleted_active_account(&mut cfg, "acc-1"));
    assert_eq!(cfg.active_account, "");
    assert_eq!(cfg.user, "u");
}
