use campus_login::auth::protocol::{
    max_retries_outcome, merge_logout_results, parse_login_result, parse_logout_result, quitting_outcome,
    request_error_outcome, retry_should_stop,
};


#[test]
fn parse_login_result_success() {
    let response = r#"dr1003({"result":0,"msg":"认证成功"})"#;
    let result = parse_login_result(response);
    assert!(result.success);
    assert_eq!(result.code, "0");
    assert_eq!(result.message, "登录成功");
}

// ===== jsonp_json_slice：msg 含半角括号/花括号/转义时不再截断 JSON =====

#[test]
fn jsonp_msg_with_ascii_paren_not_truncated() {
    let response = r#"dr1003({"result":1,"msg":"密码错误(剩余2次)","error_info":"E2601"})"#;
    let result = parse_login_result(response);
    assert_eq!(result.code, "1");
    assert!(result.message.as_str().contains("(剩余2次)"));
}

#[test]
fn jsonp_msg_with_braces_and_escapes() {
    // 验证字符串内的花括号/转义引号/半角括号不会截断 JSON：msg 完整保留
    let response = r#"dr1003({"result":1,"msg":"格式 {a} 与 \"引号\" 混入)","ok":1})"#;
    let result = parse_login_result(response);
    assert!(result.message.as_str().contains("混入)"));
}

#[test]
fn plain_json_response_still_parses() {
    let result = parse_login_result(r#"{"result":0,"msg":"认证成功"}"#);
    assert!(result.success);
}

#[test]
fn parse_login_result_already_online() {
    let response = r#"dr1003({"result":0,"msg":"用户已经在线"})"#;
    let result = parse_login_result(response);
    assert!(result.success);
    assert_eq!(result.code, "0");
}

#[test]
fn parse_login_result_auth_failed() {
    let response = r#"dr1003({"result":0,"msg":"AC认证失败"})"#;
    let result = parse_login_result(response);
    assert!(!result.success);
    assert_eq!(result.code, "ac_auth_failed");
}

#[test]
fn parse_login_result_illegal() {
    let response = r#"dr1003({"result":1,"msg":"非法用户"})"#;
    let result = parse_login_result(response);
    assert!(!result.success);
    assert_eq!(result.code, "1");
}

#[test]
fn parse_login_result_disabled() {
    let response = r#"dr1003({"result":4,"msg":"账号被禁用"})"#;
    let result = parse_login_result(response);
    assert!(!result.success);
    assert_eq!(result.code, "4");
}

#[test]
fn parse_login_result_html_parse_error() {
    let response = "<!DOCTYPE html><html>error</html>";
    let result = parse_login_result(response);
    assert!(!result.success);
    assert_eq!(result.code, "parse_error");
}

#[test]
fn parse_logout_result_success() {
    let response = r#"dr1002({"result":0,"msg":"解绑终端MAC成功"})"#;
    let result = parse_logout_result(response);
    assert!(result.success);
    assert_eq!(result.code, "0");
}

#[test]
fn parse_logout_result_no_online_device() {
    let response = r#"dr1002({"result":0,"msg":"获取用户在线信息数据为空"})"#;
    let result = parse_logout_result(response);
    assert!(result.success);
    assert_eq!(result.message, "当前无在线设备");
}

#[test]
fn parse_logout_result_radius_success() {
    let response = r#"dr1003({"result":1,"msg":"下线成功"})"#;
    let result = parse_logout_result(response);
    assert!(result.success);
    assert_eq!(result.code, "1");
}

#[test]
fn parse_logout_result_html_success() {
    let response = "<html>注销成功</html>";
    let result = parse_logout_result(response);
    assert!(result.success);
    assert_eq!(result.message, "注销成功");
}



#[test]
fn merge_radius_success_unbind_failure_reports_success() {
    // 关键约束：MAC 解绑失败不得使整体注销失败（Radius 是主操作）
    assert_eq!(merge_logout_results(true, false), "Radius注销成功，MAC解绑失败");
}

#[test]
fn merge_both_success_is_full_success() {
    assert_eq!(merge_logout_results(true, true), "注销成功");
}

#[test]
fn merge_both_failure_is_failure() {
    assert_eq!(merge_logout_results(false, false), "注销失败");
    assert_eq!(merge_logout_results(false, true), "Radius注销失败，MAC解绑成功");
}



#[test]
fn quitting_and_no_attempt_results_do_not_say_retryable() {
    let q = quitting_outcome();
    assert_eq!((q.code.as_str(), q.message.as_str(), q.success, q.retryable), ("error", "应用正在退出", false, None));
    let m = max_retries_outcome();
    assert_eq!(m.retryable, None);
    assert!(!retry_should_stop(&m), "an unsaid retryable is retried");
    let e = request_error_outcome("超时".to_string());
    assert_eq!(e.retryable, Some(true));
}
