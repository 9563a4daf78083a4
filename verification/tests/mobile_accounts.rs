use campus_login::mobile::accounts::{
    account_item_for, auto_create_account_id, auto_create_write, clear_deleted_active_account,
    display_name_taken, merge_save_as_target, merge_switched_account, sanitize_account_id,
    validate_account_name, validate_display_name, AccountItem,
};
use campus_login::mobile::settings::Settings;

fn settings_with(user: &str, password: &str) -> Settings {
    Settings {
        user: user.to_string(),
        password: password.to_string(),
        operator: "@cmcc".to_string(),
        ..Settings::default()
    }
}


#[test]
fn account_name_accepts_legal_chars() {
    assert_eq!(validate_account_name("我的账号-01").unwrap(), "我的账号-01");
    assert_eq!(validate_account_name("a_b-2").unwrap(), "a_b-2");
}

#[test]
fn account_name_rejects_traversal_and_illegal_chars() {
    assert!(validate_account_name("").is_err());
    assert!(validate_account_name("../etc/passwd").is_err(), "路径分隔必须拒绝");
    assert!(validate_account_name("a/b").is_err());
    assert!(validate_account_name("a\\b").is_err());
    assert!(validate_account_name(".hidden").is_err(), "点号不在白名单");
    assert!(validate_account_name(&"x".repeat(33)).is_err());
}

#[test]
fn account_name_length_bounds() {
    let name_32 = "名".repeat(32);
    assert!(validate_account_name(&name_32).is_ok());
}


#[test]
fn account_id_sanitizing_matches_desktop() {
    // 合法学号原样保留;合法字符类:字母数字下划线中文连字符
    assert_eq!(sanitize_account_id("2023123456"), "2023123456");
    assert_eq!(sanitize_account_id("user_01-甲"), "user_01-甲");
    // @ 与 . 等非法字符替换为 _
    assert_eq!(sanitize_account_id("a@b.c"), "a_b_c");
    // 按字符截断 32(中文按 1 字符计)
    assert_eq!(sanitize_account_id(&"甲".repeat(40)).chars().count(), 32);
    // 全非法字符 → 全下划线(仍会建号)
    assert_eq!(sanitize_account_id("@@#"), "___");
    // 空输入 → 空输出(调用方跳过建号)
    assert_eq!(sanitize_account_id(""), "");
}

#[test]
fn display_name_bounds() {
    // 空与纯空格拒绝(trim 后为空)
    assert!(validate_display_name("").is_err());
    assert!(validate_display_name("   ").is_err());
    // 33 字符拒绝、32 字符边界通过(按字符计)
    assert!(validate_display_name(&"甲".repeat(33)).is_err());
    assert!(validate_display_name(&"甲".repeat(32)).is_ok());
    // 换行与控制字符拒绝
    assert!(validate_display_name("a\nb").is_err());
    assert!(validate_display_name("a\u{7}b").is_err());
    // 空格与 emoji 允许;trim 后返回
    assert_eq!(validate_display_name("  我的 账号😀  ").unwrap(), "我的 账号😀");
    // 不做文件名字符集校验:@ . 等符号允许(账号名可自由编辑是本需求核心)
    assert!(validate_display_name("a@b.c").is_ok());
}












#[test]
fn save_as_under_new_id_does_not_carry_old_display_name() {
    let mut current = settings_with("user-a", "pwd-a");
    current.display_name = "我的A".to_string();
    current.active_account = "user-a".to_string();
    let (saved, final_display) = merge_save_as_target(&current, None, "b");
    assert_eq!(saved.display_name, "");
    assert_eq!(saved.active_account, "b");
    assert_eq!(saved.password, "pwd-a");
    assert_eq!(final_display, "b");
}

#[test]
fn save_as_over_same_id_keeps_file_display_name() {
    let mut current = settings_with("user-b", "pwd-b");
    current.display_name = "我的B".to_string();
    current.active_account = "b".to_string();
    let mut existing = current.clone();
    existing.display_name = "B档案自定义名".to_string();
    let (saved, final_display) = merge_save_as_target(&current, Some(existing), "b");
    assert_eq!(saved.display_name, "B档案自定义名");
    assert_eq!(final_display, "B档案自定义名");
    assert_eq!(saved.password, "pwd-b");
    assert_eq!(saved.active_account, "b");
}

#[test]
fn switching_account_clears_pending_restore_and_names_by_id() {
    let mut current = settings_with("old", "old-pw");
    current.night_operator_restore = "@telecom".to_string();
    current.theme_mode = "light".to_string();
    let account = settings_with("new", "new-pw");
    let merged = merge_switched_account(current, account, "acc-new");
    assert_eq!(merged.user, "new");
    assert_eq!(merged.password, "new-pw");
    assert_eq!(merged.night_operator_restore, "");
    assert_eq!(merged.display_name, "acc-new");
    assert_eq!(merged.active_account, "acc-new");
    assert_eq!(merged.theme_mode, "light");
}

#[test]
fn deleting_the_active_account_clears_it() {
    let mut s = settings_with("u", "p");
    s.active_account = "a".to_string();
    assert!(!clear_deleted_active_account(&mut s, "b"));
    assert_eq!(s.active_account, "a");
    assert!(clear_deleted_active_account(&mut s, "a"));
    assert_eq!(s.active_account, "");
}

#[test]
fn listed_name_falls_back_to_id() {
    assert_eq!(account_item_for("a", None), AccountItem { id: "a".into(), display_name: "a".into() });
    assert_eq!(account_item_for("a", Some("  ".into())).display_name, "a");
    assert_eq!(account_item_for("a", Some("甲".into())).display_name, "甲");
}

#[test]
fn rename_refuses_a_name_taken_by_another_account() {
    let items = vec![
        AccountItem { id: "acc-a".into(), display_name: "甲".into() },
        AccountItem { id: "acc-b".into(), display_name: "乙".into() },
    ];
    assert!(display_name_taken(&items, "acc-a", "乙"));
    assert!(!display_name_taken(&items, "acc-a", "甲"), "重名检查排除自身");
    assert!(!display_name_taken(&items, "acc-a", "丙"));
}

#[test]
fn auto_create_on_the_phone() {
    let cfg = settings_with("2023@stu.wxxy.edu.cn", "pwd");
    let id = auto_create_account_id(&cfg).unwrap();
    assert_eq!(id, "2023_stu_wxxy_edu_cn");
    let created = auto_create_write(&cfg, &id, None).unwrap();
    assert_eq!(created.display_name, "2023@stu.wxxy.edu.cn");
    assert_eq!(created.active_account, "2023_stu_wxxy_edu_cn");
    assert!(auto_create_write(&cfg, &id, Some(created.clone())).is_none(), "内容一致时幂等");
    let other = settings_with("2023.stu.wxxy.edu.cn", "x");
    assert!(auto_create_write(&cfg, &id, Some(other)).is_none(), "撞库跳过");
    assert_eq!(auto_create_account_id(&settings_with("user", "")), None);
    assert_eq!(auto_create_account_id(&settings_with("@@#", "p")).as_deref(), Some("___"));
}
