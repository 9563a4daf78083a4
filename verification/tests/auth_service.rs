use campus_login::auth::service::{
    credentials_config, credentials_missing, plan_login_route, plan_logout_route,
    resolve_manual_adapter_account_id, AdapterRoute,
};
use campus_login::config::model::Config;

/// A configuration with credentials and adapter account bindings.
fn test_config() -> Config {
    Config {
        user: "global-user".to_string(),
        password: "global-pass".to_string(),
        operator: String::new(),
        adapter1: "以太网".to_string(),
        adapter2: "WLAN".to_string(),
        adapter1_account: "acc-1".to_string(),
        adapter2_account: "acc-2".to_string(),
        campus_gateway: "10.2.127.254".to_string(),
        ..Default::default()
    }
}

fn account_config() -> Config {
    Config {
        user: "acc-user".to_string(),
        password: "acc-pass".to_string(),
        operator: "cmcc".to_string(),
        adapter1_account: "should-not-leak".to_string(),
        ..Default::default()
    }
}

#[test]
fn credentials_config_none_returns_base_clone() {
    let base = test_config();
    let out = credentials_config(&base, None);
    assert_eq!(out.user, base.user);
    assert_eq!(out.password, base.password);
    assert_eq!(out.operator, base.operator);
    assert_eq!(out.adapter1, base.adapter1);
    assert_eq!(out.adapter1_account, base.adapter1_account);
    assert_eq!(out.adapter2_account, base.adapter2_account);
    assert_eq!(out.campus_gateway, base.campus_gateway);
}

#[test]
fn credentials_config_some_overrides_only_credentials() {
    let base = test_config();
    let account = account_config();
    let out = credentials_config(&base, Some(&account));
    assert_eq!(out.user, "acc-user");
    assert_eq!(out.password, "acc-pass");
    assert_eq!(out.operator, "cmcc");
    assert_eq!(out.adapter1_account, "acc-1", "adapter1Account 不得被账号档案覆盖");
    assert_eq!(out.adapter2_account, "acc-2", "adapter2Account 不得被账号档案覆盖");
    assert_eq!(out.adapter1, "以太网");
    assert_eq!(out.campus_gateway, base.campus_gateway);
}

#[test]
fn manual_adapter_account_matches_role() {
    let base = test_config();
    assert_eq!(resolve_manual_adapter_account_id("以太网", &base), "acc-1");
    assert_eq!(resolve_manual_adapter_account_id("WLAN", &base), "acc-2");
    assert_eq!(resolve_manual_adapter_account_id("蓝牙", &base), "", "未匹配任何适配器 → 跟随全局账号");
}

#[test]
fn credentials_missing_requires_global_and_no_binding() {
    let cfg = Config::default();
    assert!(credentials_missing(&cfg), "全局凭据全空且无绑定 → 拒绝");

    let mut user_only = Config::default();
    user_only.password = "pwd".to_string();
    assert!(credentials_missing(&user_only), "user 缺失仍视为凭据缺失（保持原语义）");

    let mut bound1 = Config::default();
    bound1.adapter1_account = "acc-1".to_string();
    assert!(!credentials_missing(&bound1), "主适配器指定了账号 → 放行");

    let mut bound2 = Config::default();
    bound2.adapter2_account = "acc-2".to_string();
    assert!(!credentials_missing(&bound2), "副适配器指定了账号 → 放行");

    let mut full = test_config();
    full.adapter1_account = String::new();
    full.adapter2_account = String::new();
    assert!(!credentials_missing(&full), "全局凭据齐全 → 不拒绝");
}

#[test]
fn login_route_follows_found_adapters() {
    let c = test_config();
    match plan_login_route(&c, Some("WLAN"), true, false, false) {
        AdapterRoute::Manual { account_id } => assert_eq!(account_id, "acc-2"),
        other => panic!("unexpected {other:?}"),
    }
    match plan_login_route(&c, Some("蓝牙"), false, true, true) {
        AdapterRoute::Fail(m) => assert_eq!(m, "未找到适配器: 蓝牙"),
        other => panic!("unexpected {other:?}"),
    }
    match plan_login_route(&c, None, false, false, false) {
        AdapterRoute::Fail(m) => assert_eq!(m, "未找到有效IP地址的适配器"),
        other => panic!("unexpected {other:?}"),
    }
    match plan_login_route(&c, None, false, true, true) {
        AdapterRoute::Dual { account1, account2 } => {
            assert_eq!(account1, "acc-1");
            assert_eq!(account2, "acc-2");
        }
        other => panic!("unexpected {other:?}"),
    }
    match plan_login_route(&c, None, false, true, false) {
        AdapterRoute::Single { account_id } => assert_eq!(account_id, "acc-1"),
        other => panic!("unexpected {other:?}"),
    }
}

#[test]
fn logout_route_uses_global_user() {
    match plan_logout_route(Some("WLAN"), true, false, false) {
        AdapterRoute::Manual { account_id } => assert_eq!(account_id, ""),
        other => panic!("unexpected {other:?}"),
    }
    match plan_logout_route(None, false, true, false) {
        AdapterRoute::Single { account_id } => assert_eq!(account_id, ""),
        other => panic!("unexpected {other:?}"),
    }
}
