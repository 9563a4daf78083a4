use campus_login::auth::protocol::{
    logout_round_step, logout_rounds_start, LogoutRoundAction, LogoutRoundEvent, LOGOUT_ROUND_WAIT_MS,
};
use campus_login::config::transfer::{check_import_size, stored_password_is_cipher, MAX_IMPORT_SIZE};
use campus_login::desktop::external::check_external_url;
use campus_login::desktop::install::{checksum_sources, install_kind, InstallKind};
use campus_login::mobile::accounts::{account_file_id, sort_account_items, AccountItem};

#[test]
fn external_links_are_checked_in_order() {
    assert_eq!(check_external_url("ftp://example.com"), Err("仅支持http/https 链接".to_string()));
    assert_eq!(check_external_url("javascript:alert(1)"), Err("仅支持http/https 链接".to_string()));
    let long = format!("https://example.com/{}", "a".repeat(2048));
    assert_eq!(check_external_url(&long), Err("URL长度超出限制".to_string()));
    assert!(check_external_url("http://").unwrap_err().starts_with("URL解析失败: "));
    assert_eq!(
        check_external_url("https://user:pw@example.com/"),
        Err("URL不允许包含用户名或密码".to_string())
    );
    assert_eq!(check_external_url("https://user@example.com/"), Err("URL不允许包含用户名或密码".to_string()));
    assert_eq!(check_external_url("https://github.com/owner/repo/releases"), Ok(()));
    let exact = format!("https://e.com/{}", "a".repeat(2048 - 14));
    assert_eq!(exact.len(), 2048);
    assert_eq!(check_external_url(&exact), Ok(()));
}

#[test]
fn checksum_sources_from_the_update_request() {
    let blocked = "未提供SHA256校验和，安装已阻止".to_string();
    assert_eq!(checksum_sources(None), Err(blocked.clone()));
    assert_eq!(checksum_sources(Some("")), Err(blocked));
    assert_eq!(
        checksum_sources(Some("https://a/x.sha256")),
        Ok(vec!["https://a/x.sha256".to_string()])
    );
    assert_eq!(
        checksum_sources(Some(r#"["https://a/x.sha256","https://b/x.sha256"]"#)),
        Ok(vec!["https://a/x.sha256".to_string(), "https://b/x.sha256".to_string()])
    );
    assert_eq!(checksum_sources(Some("[not json")), Ok(vec!["[not json".to_string()]));
}

#[test]
fn installer_kind_ignores_case() {
    assert_eq!(install_kind("exe"), Ok(InstallKind::Exe));
    assert_eq!(install_kind("EXE"), Ok(InstallKind::Exe));
    assert_eq!(install_kind("Msi"), Ok(InstallKind::Msi));
    assert_eq!(install_kind("ZIP"), Err("不支持的安装包格式: zip".to_string()));
    assert_eq!(install_kind(""), Err("不支持的安装包格式: ".to_string()));
}

fn finish_code(a: LogoutRoundAction) -> (String, String, bool) {
    match a {
        LogoutRoundAction::Finish(o) => (o.code, o.message, o.success),
        _ => panic!("expected the logout to finish"),
    }
}

#[test]
fn logout_rounds_keep_every_success() {
    let s = logout_rounds_start();
    let (t, a) = logout_round_step(&s, LogoutRoundEvent::RoundDone { unbind_ok: true, radius_ok: true });
    assert_eq!(finish_code(a), ("0".to_string(), "注销成功".to_string(), true));
    assert_eq!(t.round, 1);

    let (t, a) = logout_round_step(&s, LogoutRoundEvent::RoundDone { unbind_ok: false, radius_ok: true });
    assert!(matches!(a, LogoutRoundAction::Wait { ms } if ms == LOGOUT_ROUND_WAIT_MS));
    let (q, a) = logout_round_step(&t, LogoutRoundEvent::Waited { quitting: true });
    assert_eq!(finish_code(a).1, "Radius注销成功，MAC解绑失败");
    assert_eq!(q.round, 1);
    let (t2, a) = logout_round_step(&t, LogoutRoundEvent::Waited { quitting: false });
    assert!(matches!(a, LogoutRoundAction::RunRound { round: 2 }));
    let (_, a) = logout_round_step(&t2, LogoutRoundEvent::RoundDone { unbind_ok: true, radius_ok: false });
    assert_eq!(finish_code(a), ("0".to_string(), "注销成功".to_string(), true));

    let (t, _) = logout_round_step(&s, LogoutRoundEvent::RoundDone { unbind_ok: false, radius_ok: false });
    let (t, _) = logout_round_step(&t, LogoutRoundEvent::Waited { quitting: false });
    let (_, a) = logout_round_step(&t, LogoutRoundEvent::RoundDone { unbind_ok: false, radius_ok: false });
    assert_eq!(finish_code(a), ("1".to_string(), "注销失败".to_string(), false));
}

#[test]
fn import_size_limit_and_stored_ciphertext() {
    assert_eq!(MAX_IMPORT_SIZE, 1024 * 1024);
    assert_eq!(check_import_size(1024 * 1024), Ok(()));
    assert_eq!(
        check_import_size(1024 * 1024 + 1),
        Err("配置文件过大（1048577 字节），超过 1MB 限制".to_string())
    );
    assert!(!stored_password_is_cipher(""));
    assert!(!stored_password_is_cipher("***"));
    assert!(stored_password_is_cipher("AQAAANCMnd8="));
}

#[test]
fn account_files_and_their_order() {
    assert_eq!(account_file_id("acc-a.json"), Some("acc-a".to_string()));
    assert_eq!(account_file_id("a.b.json"), Some("a.b".to_string()));
    assert_eq!(account_file_id(".json"), None);
    assert_eq!(account_file_id(".hidden.json"), None);
    assert_eq!(account_file_id("acc.JSON"), None);
    assert_eq!(account_file_id("acc.json.tmp.1"), None);

    let item = |id: &str, name: &str| AccountItem { id: id.to_string(), display_name: name.to_string() };
    let items = vec![item("b", "乙"), item("a", "甲"), item("账号", "丙"), item("B", "丁"), item("ab", "戊")];
    let sorted = sort_account_items(&items);
    let ids: Vec<&str> = sorted.iter().map(|x| x.id.as_str()).collect();
    assert_eq!(ids, vec!["B", "a", "ab", "b", "账号"]);
    assert_eq!(sorted[0].display_name, "丁");
}
