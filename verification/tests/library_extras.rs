use campus_login::auth::protocol::{build_login_url, build_logout_url, build_unbind_url, logout_wlan_user_ip};
use campus_login::helper::resolve_result_path;
use campus_login::legacy_config::{validate_config, Config as LegacyConfig};
use campus_login::mobile::battery::battery_optimization_info;
use campus_login::mobile::history::{login_history_entry, push_front_capped, quality_history_entry, HISTORY_MAX};

#[test]
fn login_url_percent_encodes_account_and_password() {
    let url = build_login_url("http://10.1.99.100:801", "2023@telecom", "p&w d", "1234");
    assert!(url.starts_with("http://10.1.99.100:801/eportal/portal/login?callback=dr1003&login_method=1"));
    assert!(url.contains("&user_account=2023%40telecom&user_password=p%26w%20d&"));
    assert!(url.ends_with("&v=1234&lang=zh"));
}

#[test]
fn login_url_encodes_non_ascii_as_utf8() {
    let url = build_login_url("http://h", "张", "", "1");
    assert!(url.contains("user_account=%E5%BC%A0&user_password=&"));
}

#[test]
fn logout_urls_number_their_callbacks_by_round() {
    let unbind = build_unbind_url("http://h:801", 0, "u 1", "10.2.3.4", "9");
    assert_eq!(
        unbind,
        "http://h:801/eportal/portal/mac/unbind?callback=dr1001&user_account=u%201&wlan_user_mac=000000000000&wlan_user_ip=10.2.3.4&jsVersion=4.1.3&v=9&lang=zh"
    );
    let logout = build_logout_url("http://h:801", 1, "", "9");
    assert!(logout.starts_with("http://h:801/eportal/portal/logout?callback=dr1003&login_method=1&user_account=drcom&user_password=123&ac_logout=1"));
    assert!(logout.contains("&wlan_user_ip=&wlan_user_ipv6="));
}

#[test]
fn logout_ip_is_hidden_behind_nat() {
    assert_eq!(logout_wlan_user_ip("58.192.1.2"), "58.192.1.2");
    assert_eq!(logout_wlan_user_ip("10.2.3.4"), "");
    assert_eq!(logout_wlan_user_ip("192.168.1.5"), "");
}

#[test]
fn result_path_error_quotes_the_name() {
    assert_eq!(
        resolve_result_path("a/b").err(),
        Some("结果文件名非法: \"a/b\"（要求纯文件名）".to_string())
    );
    assert_eq!(
        resolve_result_path("x\"y").err(),
        Some("结果文件名非法: \"x\\\"y\"（要求纯文件名）".to_string())
    );
    assert!(resolve_result_path(&"a".repeat(129)).is_err());
    assert!(resolve_result_path(&"a".repeat(128)).is_ok());
}

#[test]
fn legacy_validation_defaults_and_migrations() {
    let ok = validate_config(LegacyConfig::default()).unwrap();
    assert_eq!(ok.portal_url, "http://10.1.99.100");
    let migrated = validate_config(LegacyConfig {
        operator: "@ctcc".to_string(),
        portal_url: "http://10.1.99.100:801".to_string(),
        background_check_interval: 1,
        latency_test_interval: 99_999_999,
        campus_gateway: String::new(),
        ..LegacyConfig::default()
    })
    .unwrap();
    assert_eq!(migrated.operator, "@telecom");
    assert_eq!(migrated.portal_url, "http://10.1.99.100");
    assert_eq!(migrated.background_check_interval, 10_000);
    assert_eq!(migrated.latency_test_interval, 3_600_000);
    assert_eq!(migrated.campus_gateway, "10.2.127.254");
}

#[test]
fn legacy_validation_errors() {
    let bad_theme = LegacyConfig { theme_mode: "blue".to_string(), ..LegacyConfig::default() };
    assert_eq!(
        validate_config(bad_theme).unwrap_err(),
        "主题模式必须为\"dark\"、\"light\"或\"system\""
    );
    let mask = LegacyConfig { password: "***".to_string(), ..LegacyConfig::default() };
    assert_eq!(validate_config(mask).unwrap_err(), "密码不能为\"***\"");
    let public = LegacyConfig { portal_url: "http://8.8.8.8".to_string(), ..LegacyConfig::default() };
    assert_eq!(validate_config(public).unwrap_err(), "Portal地址仅允许内网IP或localhost");
    let domain = LegacyConfig { portal_url: "http://portal.example.com".to_string(), ..LegacyConfig::default() };
    assert_eq!(validate_config(domain).unwrap_err(), "Portal地址仅允许IP地址，不支持域名");
    let gw = LegacyConfig { fixed_gateway: "x".to_string(), ..LegacyConfig::default() };
    assert_eq!(validate_config(gw).unwrap_err(), "固定网关地址无效: x");
}

#[test]
fn history_keeps_newest_first_and_caps() {
    let mut h: Vec<u32> = Vec::new();
    for i in 0..150u32 {
        h = push_front_capped(h, i, HISTORY_MAX);
    }
    assert_eq!(h.len(), 100);
    assert_eq!(h[0], 149);
    assert_eq!(h[99], 50);
}

#[test]
fn history_entries() {
    let q = quality_history_entry(1_700_000_000, -1, 0, "good");
    assert_eq!(q.gateway_latency, None);
    assert_eq!(q.external_latency, Some(0));
    assert_eq!(q.quality, "good");
    let l = login_history_entry("2026-01-01 08:00:00", true, "认证成功", "2023001", "auto");
    assert_eq!(l.adapter, "wlan0");
    assert_eq!(l.login_type, "auto");
}

#[test]
fn battery_info_defaults_missing_fields() {
    let i = battery_optimization_info(None, None, None);
    assert!(!i.ignoring && !i.has_vendor_target);
    assert_eq!(i.brand, "");
    let i = battery_optimization_info(Some(true), Some("xiaomi".to_string()), Some(true));
    assert!(i.ignoring && i.has_vendor_target);
    assert_eq!(i.brand, "xiaomi");
}
