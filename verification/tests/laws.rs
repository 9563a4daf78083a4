use campus_login::config::model::Config;
use campus_login::config::validate::{validate_config, validate_config_lenient, validate_username};
use campus_login::desktop::accounts::{
    apply_saved_account, finish_save_as, previous_account_save, save_as_account_data, validate_account_name,
};
use campus_login::desktop::logout::{
    after_logout_state, logout_protection_active, AdapterOnlineStatus, NetworkFlags, LOGOUT_PROTECTION_MS,
};
use campus_login::helper::{build_op_from_args, decode_set_metric_row, resolve_result_path, HelperOp};
use campus_login::mobile::identity::IdentityGate;
use campus_login::mobile::update::has_newer_version;

#[test]
fn metric_rows_written_by_format_decode_back() {
    for guid in ["{ABC-DEF}", "", "{0000-1111-2222}"] {
        for family in [2u16, 23u16] {
            for automatic in [false, true] {
                for metric in [0u32, 1, 25, 4294967295] {
                    let row = format!("{}:{}:{}:{}", guid, family, automatic as u8, metric);
                    assert_eq!(
                        decode_set_metric_row(&row),
                        Ok((guid.to_string(), family, automatic, metric)),
                        "row {row}"
                    );
                }
            }
        }
    }
}

#[test]
fn lenient_result_passes_strict_validation() {
    let mut config = Config::default();
    config.user = "user name".to_string();
    config.operator = "@unknown".to_string();
    config.theme_mode = "purple".to_string();
    config.custom_theme_color = "red".to_string();
    config.portal_url = "http://8.8.8.8".to_string();
    config.fixed_gateway = "not-an-ip".to_string();
    config.campus_gateway = "999.1.1.1".to_string();
    let r = validate_config_lenient(config);
    assert_eq!(r.theme_mode, "dark");
    assert_eq!(r.custom_theme_color, "#6366f1");
    assert_eq!(r.portal_url, "http://10.1.99.100");
    assert_eq!(r.fixed_gateway, "10.2.127.254");
    assert_eq!(r.campus_gateway, "10.2.127.254");
    let again = validate_config(r.clone()).expect("lenient result is accepted");
    assert_eq!(format!("{:?}", again), format!("{:?}", r));

    let d = validate_config_lenient(Config::default());
    let again = validate_config(d.clone()).expect("defaults are accepted");
    assert_eq!(format!("{:?}", again), format!("{:?}", d));
}

#[test]
fn dotted_quad_gateways_are_accepted() {
    let mut config = Config::default();
    config.fixed_gateway = "172.16.0.1".to_string();
    config.campus_gateway = "10.0.0.254".to_string();
    config.portal_url = "https://192.168.1.1".to_string();
    assert!(validate_config(config).is_ok());
    let mut bad = Config::default();
    bad.fixed_gateway = "010.0.0.1".to_string();
    assert!(validate_config(bad).is_err());
}

#[test]
fn user_names_follow_the_character_class() {
    assert_eq!(validate_username(&"a".repeat(64)), Ok("a".repeat(64).as_str()));
    assert!(validate_username(&"a".repeat(65)).is_err());
    assert!(validate_username("user name").is_err());
    assert!(validate_username("用户名").is_err());
    assert!(validate_username("a.b-c_9").is_ok());
}

#[test]
fn desktop_account_names_count_bytes() {
    assert!(validate_account_name(&"名".repeat(10)).is_ok());
    assert!(validate_account_name(&"名".repeat(11)).is_err());
    assert!(validate_account_name("../config").is_err());
    assert!(validate_account_name("a/b").is_err());
    assert_eq!(validate_account_name("我的账号-01"), Ok("我的账号-01".to_string()));
}

#[test]
fn leading_v_is_ignored_in_versions() {
    for (a, b) in [("1.2.3", "1.2.4"), ("2.0", "1.9.9"), ("2.3", "2.3.0"), ("1.0.0", "1.0.0")] {
        assert_eq!(has_newer_version(a, b), has_newer_version(a, &format!("v{b}")));
        assert_eq!(has_newer_version(a, b), has_newer_version(&format!("v{a}"), b));
    }
    assert!(has_newer_version("v1.2.3", "v1.2.4"));
}

#[test]
fn result_names_stay_in_the_results_directory() {
    assert_eq!(resolve_result_path("result_1.json").unwrap().file_name, "result_1.json");
    for bad in ["", "../x", ".hidden", "a/b", "a\\b", "a..b", "名.json"] {
        assert!(resolve_result_path(bad).is_err(), "{bad}");
    }
    assert!(resolve_result_path(&"x".repeat(128)).is_ok());
    assert!(resolve_result_path(&"x".repeat(129)).is_err());
}

#[test]
fn helper_operations_fail_exactly_when_arguments_are_missing() {
    let v = |xs: &[&str]| xs.iter().map(|s| s.to_string()).collect::<Vec<_>>();
    assert!(build_op_from_args("dns", &v(&["--family"]), true).is_err());
    assert!(build_op_from_args("unknown", &v(&[]), true).is_err());
    assert!(build_op_from_args("mac", &v(&["guid"]), true).is_err());
    assert!(build_op_from_args("enable_adapter", &v(&[]), true).is_err());
    for op in ["enable_adapter", "enable_device", "set_metric", "register_task"] {
        assert_eq!(build_op_from_args(op, &v(&["x"]), false).unwrap_err(), format!("未知 helper 操作: {op}"));
        assert!(build_op_from_args(op, &v(&["x"]), true).is_ok());
    }
    assert_eq!(build_op_from_args("selfcheck", &v(&[]), false).unwrap(), HelperOp::SelfCheck);
    match build_op_from_args("dns", &v(&["eth0", "--family", "ipv6", "--skip", "wlan0"]), true).unwrap() {
        HelperOp::Dns { targets, family } => {
            assert_eq!(targets, v(&["eth0", "wlan0"]));
            assert_eq!(family, "ipv6");
        },
        _ => panic!("expected dns"),
    }
    match build_op_from_args("mac", &v(&["g", "AABBCCDDEEFF"]), true).unwrap() {
        HelperOp::Mac { guid, mac_no_dash } => {
            assert_eq!(guid, "g");
            assert_eq!(mac_no_dash, "AABBCCDDEEFF");
        },
        _ => panic!("expected mac"),
    }
}

fn flags() -> NetworkFlags {
    NetworkFlags {
        any_adapter_online: true,
        last_a1_online: true,
        last_a2_online: true,
        has_logged_online: true,
        disconnect_reconnect_count: 3,
        last_auto_login_attempt_ms: 5,
        logout_protected_until_ms: 7,
    }
}

#[test]
fn full_logout_resets_and_protects_for_a_minute() {
    let status = AdapterOnlineStatus { any_online: false, a1_online: false, a2_online: true };
    let r = after_logout_state(&flags(), Some(status), false, true, 1_000);
    assert!(!r.any_adapter_online);
    assert!(!r.last_a1_online);
    assert!(!r.last_a2_online);
    assert!(!r.has_logged_online);
    assert_eq!(r.disconnect_reconnect_count, 0);
    assert_eq!(r.last_auto_login_attempt_ms, 1_000);
    assert_eq!(r.logout_protected_until_ms, 1_000 + LOGOUT_PROTECTION_MS);
    assert_eq!(LOGOUT_PROTECTION_MS, 60_000);
    assert!(logout_protection_active(&r, 1_000));
    assert!(logout_protection_active(&r, 60_999));
    assert!(!logout_protection_active(&r, 61_000));
    let dual = after_logout_state(&flags(), Some(status), true, true, 1_000);
    assert!(dual.last_a2_online);
}

#[test]
fn single_adapter_logout_keeps_login_state() {
    let r = after_logout_state(&flags(), None, true, false, 1_000);
    assert!(!r.any_adapter_online && !r.last_a1_online && !r.last_a2_online);
    assert!(r.has_logged_online);
    assert_eq!(r.disconnect_reconnect_count, 3);
    assert_eq!(r.last_auto_login_attempt_ms, 5);
    assert_eq!(r.logout_protected_until_ms, 7);
}

fn account(user: &str, active: &str, display: &str) -> Config {
    let mut c = Config::default();
    c.user = user.to_string();
    c.password = "secret".to_string();
    c.active_account = active.to_string();
    c.display_name = display.to_string();
    c
}

#[test]
fn save_as_prepares_data_without_password() {
    let current = account("u1", "old", "旧显示名");
    let other = save_as_account_data(&current, "new", "new");
    assert_eq!(other.password, "");
    assert_eq!(other.active_account, "new");
    assert_eq!(other.display_name, "");
    assert_eq!(other.user, "u1");
    let same = save_as_account_data(&current, "old", "old");
    assert_eq!(same.display_name, "旧显示名");

    let (saved, display) = finish_save_as(other, "secret", "new");
    assert_eq!(saved.password, "secret");
    assert_eq!(display, "new");
    let (_, display) = finish_save_as(account("u", "a", "  "), "", "id");
    assert_eq!(display, "id");
    let (saved, display) = finish_save_as(account("u", "a", "显示"), "", "id");
    assert_eq!(saved.password, "");
    assert_eq!(display, "显示");

    let mut main = account("u1", "old", "旧显示名");
    apply_saved_account(&mut main, "new", "new");
    assert_eq!(main.active_account, "new");
    assert_eq!(main.display_name, "new");
    assert_eq!(main.user, "u1");
}

#[test]
fn fresh_previous_account_keeps_current_adapters() {
    let mut current = account("u-now", "", "");
    current.adapter1 = "以太网".to_string();
    current.adapter2 = "WLAN".to_string();
    current.dual_adapter = true;
    let fresh = previous_account_save(Err("账号不存在".to_string()), "old-id", &current).unwrap();
    assert_eq!(fresh.adapter1, "以太网");
    assert_eq!(fresh.adapter2, "WLAN");
    assert!(fresh.dual_adapter);
    assert_eq!(fresh.theme_mode, Config::default().theme_mode);
}

#[test]
fn noting_a_check_records_the_clock_reading() {
    let mut gate = IdentityGate::new();
    let now = gate.note_identity_verified();
    assert_eq!(gate.last_verify_epoch_secs, now);
    assert!(now > 0);
}
