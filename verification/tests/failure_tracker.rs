use campus_login::auth::failure_tracker::{is_auth_failure, AdapterFailureCounter, AuthFailureCounts};
use campus_login::auth::outcome::CommandResult;

fn result_with_code(success: bool, code: Option<&str>) -> CommandResult {
    CommandResult { success, message: None, code: code.map(|c| c.to_string()) }
}

#[test]
fn is_auth_failure_recognizes_known_codes() {
    for code in ["ac_auth_failed", "1", "4"] {
        let result = result_with_code(false, Some(code));
        assert!(is_auth_failure(&result), "code {} should be auth failure", code);
    }
}

#[test]
fn is_auth_failure_rejects_network_error() {
    let result = result_with_code(false, Some("network_error"));
    assert!(!is_auth_failure(&result));
}

#[test]
fn is_auth_failure_rejects_success() {
    let result = result_with_code(true, Some("0"));
    assert!(!is_auth_failure(&result));
}

#[test]
fn is_auth_failure_handles_missing_data() {
    let result = result_with_code(false, None);
    assert!(!is_auth_failure(&result));
}

#[test]
fn is_auth_failure_handles_missing_code() {
    let result = CommandResult { success: false, message: Some(String::new()), code: None };
    assert!(!is_auth_failure(&result));
}

#[test]
fn fifth_refusal_triggers_reset_and_restarts_count() {
    let mut counts = AuthFailureCounts::new();
    let refused = result_with_code(false, Some("1"));
    for _ in 0..4 {
        assert!(!counts.update_auth_failure_count(&refused));
    }
    assert_eq!(counts.portal_failure_count, 4);
    assert!(counts.update_auth_failure_count(&refused));
    assert_eq!(counts.portal_failure_count, 0);
}

#[test]
fn success_clears_and_network_errors_do_not_count() {
    let mut counts = AuthFailureCounts::new();
    let refused = result_with_code(false, Some("4"));
    let network = result_with_code(false, Some("error"));
    assert!(!counts.update_auth_failure_count(&refused));
    assert!(!counts.update_auth_failure_count(&network));
    assert_eq!(counts.portal_failure_count, 1);
    assert!(!counts.update_auth_failure_count(&CommandResult::ok()));
    assert_eq!(counts.portal_failure_count, 0);
}

#[test]
fn adapter_counters_are_separate() {
    let mut counts = AuthFailureCounts::new();
    let refused = Some(result_with_code(false, Some("ac_auth_failed")));
    for _ in 0..4 {
        assert!(!counts.handle_single_adapter_failure(AdapterFailureCounter::A1, &refused));
    }
    assert!(!counts.handle_single_adapter_failure(AdapterFailureCounter::A2, &refused));
    assert_eq!(counts.get_adapter_failure_count(AdapterFailureCounter::A1), 4);
    assert_eq!(counts.get_adapter_failure_count(AdapterFailureCounter::A2), 1);
    assert!(counts.handle_single_adapter_failure(AdapterFailureCounter::A1, &refused));
    assert_eq!(counts.get_adapter_failure_count(AdapterFailureCounter::A1), 0);
    assert!(!counts.handle_single_adapter_failure(AdapterFailureCounter::A2, &None));
    assert_eq!(counts.get_adapter_failure_count(AdapterFailureCounter::A2), 1);
    counts.reset_all();
    assert_eq!(counts.get_adapter_failure_count(AdapterFailureCounter::A2), 0);
}
