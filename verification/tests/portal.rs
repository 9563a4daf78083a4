use campus_login::auth::portal::{
    analyze_portal_page_content, build_determined_status, build_request_failed_status, ensure_portal_port,
    handle_unknown_page_status, has_user_session_indicators, is_nat_private_ip, parse_adapter_ip, PageCheckResult,
};


#[test]
fn ensure_portal_port_adds_default_port() {
    assert_eq!(ensure_portal_port("http://10.0.0.1"), "http://10.0.0.1:801");
}

#[test]
fn ensure_portal_port_preserves_existing_port() {
    assert_eq!(ensure_portal_port("http://10.0.0.1:8080"), "http://10.0.0.1:8080");
}

#[test]
fn ensure_portal_port_handles_trailing_slash() {
    assert_eq!(ensure_portal_port("http://10.0.0.1/"), "http://10.0.0.1:801");
}

#[test]
fn is_nat_private_ip_recognizes_class_a() {
    assert!(is_nat_private_ip("10.1.2.3"));
}

#[test]
fn is_nat_private_ip_recognizes_class_b() {
    assert!(is_nat_private_ip("172.16.0.1"));
    assert!(is_nat_private_ip("172.31.255.255"));
    assert!(!is_nat_private_ip("172.32.0.1"));
}

#[test]
fn is_nat_private_ip_recognizes_class_c() {
    assert!(is_nat_private_ip("192.168.1.1"));
}

#[test]
fn is_nat_private_ip_rejects_public_ip() {
    assert!(!is_nat_private_ip("8.8.8.8"));
}

// ===== 新增测试：覆盖提取的函数 =====

#[test]
fn parse_adapter_ip_parses_valid_ip() {
    assert!(parse_adapter_ip("192.168.1.1").is_some());
    assert!(parse_adapter_ip("10.0.0.1").is_some());
}

#[test]
fn parse_adapter_ip_returns_none_for_empty() {
    assert!(parse_adapter_ip("").is_none());
}

#[test]
fn parse_adapter_ip_returns_none_for_invalid() {
    assert!(parse_adapter_ip("invalid").is_none());
    assert!(parse_adapter_ip("999.999.999.999").is_none());
}

#[test]
fn build_determined_status_online() {
    let status = build_determined_status(true);
    assert!(status.online);
    assert!(!status.login_available);
    assert!(status.reachable);
    assert_eq!(status.message, "已在线");
    assert_eq!(status.data_length, 0);
    assert!(status.error_kind.is_none());
}

#[test]
fn build_determined_status_offline() {
    let status = build_determined_status(false);
    assert!(!status.online);
    assert!(status.login_available);
    assert!(status.reachable);
    assert_eq!(status.message, "未登录");
}

#[test]
fn handle_unknown_page_status_returns_manual_check() {
    // 页面无法识别时：可达、可登录但 online=false，且 error_kind=need_manual_check
    let status = handle_unknown_page_status(Some("以太网"), "192.168.1.1");
    assert!(status.reachable);
    assert!(status.login_available);
    assert!(!status.online);
    assert_eq!(status.error_kind, Some("need_manual_check".to_string()));
}

#[test]
fn handle_unknown_page_status_is_readonly_no_credentials() {
    // 关键安全约束：状态探测不得执行登录。页面无法识别时直接返回，
    // 不得携带任何凭据向登录端点发起请求（此函数签名已不再接受密码）。
    let status = handle_unknown_page_status(None, "");
    assert!(!status.online);
    assert_eq!(status.message, "Portal 页面无法判断登录状态，请手动确认");
}

#[test]
fn build_request_failed_status_correct() {
    let status = build_request_failed_status();
    assert!(!status.reachable);
    assert!(!status.login_available);
    assert!(!status.online);
    assert_eq!(status.message, "Portal页面请求失败");
    assert_eq!(status.error_kind, Some("request_failed".to_string()));
}

#[test]
fn analyze_page_logout_indicator() {
    let html = "<html>Dr.COMWebLoginID_1</html>";
    let result = analyze_portal_page_content(html);
    assert!(matches!(result, PageCheckResult::Determined(true)));
}

#[test]
fn analyze_page_login_indicator_0() {
    let html = "<html>Dr.COMWebLoginID_0</html>";
    let result = analyze_portal_page_content(html);
    assert!(matches!(result, PageCheckResult::Determined(false)));
}

#[test]
fn analyze_page_login_indicator_2() {
    let html = "<html>Dr.COMWebLoginID_2</html>";
    let result = analyze_portal_page_content(html);
    assert!(matches!(result, PageCheckResult::Determined(false)));
}

#[test]
fn analyze_page_logout_title() {
    let html = "<html><title>注销页</title></html>";
    let result = analyze_portal_page_content(html);
    assert!(matches!(result, PageCheckResult::Determined(true)));
}

#[test]
fn analyze_page_login_title() {
    let html = "<html><title>登录页</title></html>";
    let result = analyze_portal_page_content(html);
    assert!(matches!(result, PageCheckResult::Determined(false)));
}

#[test]
fn analyze_page_user_session_uid() {
    let html = "<html>uid='user123'</html>";
    let result = analyze_portal_page_content(html);
    assert!(matches!(result, PageCheckResult::Determined(true)));
}

#[test]
fn analyze_page_user_session_v4ip_oltime() {
    let html = "<html>v4ip='192.168.1.1' oltime=100</html>";
    let result = analyze_portal_page_content(html);
    assert!(matches!(result, PageCheckResult::Determined(true)));
}

#[test]
fn analyze_page_empty_uid_not_online() {
    let html = "<html>uid=''</html>";
    let result = analyze_portal_page_content(html);
    assert!(matches!(result, PageCheckResult::Unknown));
}

#[test]
fn analyze_page_zero_v4ip_not_online() {
    let html = "<html>v4ip='0.0.0.0' oltime=0</html>";
    let result = analyze_portal_page_content(html);
    assert!(matches!(result, PageCheckResult::Unknown));
}

#[test]
fn analyze_page_unknown_content() {
    let html = "<html>random content</html>";
    let result = analyze_portal_page_content(html);
    assert!(matches!(result, PageCheckResult::Unknown));
}

#[test]
fn has_user_session_indicators_with_valid_uid() {
    let html = "uid='user123'";
    assert!(has_user_session_indicators(html));
}

#[test]
fn has_user_session_indicators_with_empty_uid() {
    let html = "uid=''";
    assert!(!has_user_session_indicators(html));
}

#[test]
fn has_user_session_indicators_with_v4ip_and_oltime() {
    let html = "v4ip='192.168.1.1' oltime=100";
    assert!(has_user_session_indicators(html));
}

#[test]
fn has_user_session_indicators_with_zero_v4ip() {
    let html = "v4ip='0.0.0.0' oltime=100";
    assert!(!has_user_session_indicators(html));
}

#[test]
fn has_user_session_indicators_with_zero_oltime() {
    let html = "v4ip='192.168.1.1' oltime=0";
    assert!(!has_user_session_indicators(html));
}

#[test]
fn has_user_session_indicators_no_indicators() {
    let html = "no session info";
    assert!(!has_user_session_indicators(html));
}

