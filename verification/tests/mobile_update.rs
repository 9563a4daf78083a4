use campus_login::mobile::update::{
    allowed_url, chunk_fits, digest_hex, digest_matches, download_file_name, expected_checksum,
    has_newer_version, version_urls, MAX_DOWNLOAD_BYTES, VERSION_FILE,
};

#[test]
fn version_compare_by_numeric_segments() {
    assert!(has_newer_version("2.3.2", "2.3.3"));
    assert!(has_newer_version("2.3.2", "v2.4.0"));
    assert!(has_newer_version("2.3.2", "3.0"));
    assert!(!has_newer_version("2.3.2", "2.3.2"));
    assert!(!has_newer_version("2.3.3", "2.3.2"));
    assert!(has_newer_version("2.3", "2.3.1"), "短版本按 0 补齐");
    assert!(!has_newer_version("2.3.2", "2.3.2-beta"), "预发布后缀段解析为 0,不视为更新");
}

#[test]
fn download_host_whitelist() {
    assert!(allowed_url("https://github.com/a/b.apk").is_ok());
    assert!(allowed_url("https://ghfast.top/https://github.com/x").is_ok());
    assert!(allowed_url("https://evil.example.com/x.apk").is_err(), "非白名单域名必须拒绝");
    assert!(allowed_url("not-a-url").is_err());
    assert!(allowed_url("http://github.com/x").is_ok(), "host 校验不分协议(下载层强制 https 由 reqwest scheme 保证)");
}

#[test]
fn whitelist_error_names_the_host() {
    assert_eq!(
        allowed_url("https://evil.example.com/x.apk"),
        Err("下载域名不在白名单: evil.example.com".to_string())
    );
    assert_eq!(allowed_url("not-a-url"), Err("URL 缺少合法主机名".to_string()));
}

#[test]
fn version_sources_order() {
    let official_first = version_urls(false);
    assert_eq!(official_first.len(), 4);
    assert_eq!(official_first[0], VERSION_FILE);
    let mirror_first = version_urls(true);
    assert_eq!(mirror_first[3], VERSION_FILE);
    assert!(mirror_first[0].starts_with("https://ghfast.top/"));
}

#[test]
fn download_name_from_url_or_fallback() {
    assert_eq!(download_file_name("https://github.com/x/app-v2.apk?raw=1", "2.4.0"), "app-v2.apk");
    assert_eq!(download_file_name("https://github.com/x/", "2.4.0"), "campus-login-2.4.0.apk");
    assert_eq!(download_file_name("https://github.com/x/..apk", "2.4.0"), "campus-login-2.4.0.apk");
}

#[test]
fn size_limit_is_inclusive() {
    assert!(chunk_fits(0, MAX_DOWNLOAD_BYTES));
    assert!(!chunk_fits(1, MAX_DOWNLOAD_BYTES));
    assert!(chunk_fits(MAX_DOWNLOAD_BYTES - 10, 10));
    assert!(!chunk_fits(u64::MAX, u64::MAX));
}

#[test]
fn checksum_cleaning_accepts_hex_name_lines() {
    let hex = "ABCDEF0123456789abcdef0123456789ABCDEF0123456789abcdef0123456789";
    let line = format!("  {hex}  app.apk\n");
    assert_eq!(expected_checksum(&line), Some(hex.to_ascii_lowercase()));
    assert_eq!(expected_checksum("not-a-checksum"), None);
    assert_eq!(expected_checksum(""), None);
}

#[test]
fn digest_hex_is_lower_case_two_digits_per_byte() {
    assert_eq!(digest_hex(&vec![0x00, 0x0f, 0xab, 0xff]), "000fabff");
    assert_eq!(digest_hex(&vec![]), "");
}

#[test]
fn digest_check_skips_without_usable_checksum() {
    let digest: Vec<u8> = (0u8..32).collect();
    let hex: String = digest.iter().map(|b| format!("{b:02x}")).collect();
    assert!(digest_matches(&hex, &digest));
    assert!(digest_matches(&hex.to_uppercase(), &digest));
    assert!(!digest_matches(&"0".repeat(64), &digest));
    assert!(digest_matches("garbage", &digest));
}

#[test]
fn phone_mirror_list() {
    let m = campus_login::mobile::update::mirror_urls("https://github.com/o/r/a.apk");
    assert_eq!(m.len(), 4);
    assert_eq!(m[0], ("GitHub".to_string(), "https://github.com/o/r/a.apk".to_string()));
    assert_eq!(m[1].1, "https://ghfast.top/https://github.com/o/r/a.apk");
    assert_eq!(m[3].0, "ghproxy.net");
}
