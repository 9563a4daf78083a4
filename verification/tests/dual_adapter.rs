use campus_login::auth::outcome::{CommandResult, DualAdapterResult};

#[test]
fn dual_adapter_result_success_when_primary_succeeds() {
    let result = DualAdapterResult { primary: Some(CommandResult::ok()), secondary: None };
    assert!(result.success());
}

#[test]
fn dual_adapter_result_success_when_secondary_succeeds() {
    let result = DualAdapterResult { primary: None, secondary: Some(CommandResult::ok()) };
    assert!(result.success());
}

#[test]
fn dual_adapter_result_fails_when_both_fail() {
    let result = DualAdapterResult {
        primary: Some(CommandResult::err("fail1")),
        secondary: Some(CommandResult::err("fail2")),
    };
    assert!(!result.success());
}

#[test]
fn dual_adapter_result_build_command_result_combines_messages() {
    let result = DualAdapterResult {
        primary: Some(CommandResult { success: true, message: Some("a1 ok".into()), code: None }),
        secondary: Some(CommandResult { success: false, message: Some("a2 fail".into()), code: None }),
    };
    let cmd = result.build_command_result();
    assert!(cmd.success);
    assert_eq!(cmd.message, Some("a1 ok, a2 fail".into()));
    assert_eq!(cmd.code, Some("0".into()));
}

#[test]
fn dual_adapter_result_build_command_result_handles_empty_messages() {
    let result = DualAdapterResult {
        primary: Some(CommandResult { success: true, message: None, code: None }),
        secondary: Some(CommandResult { success: false, message: None, code: None }),
    };
    let cmd = result.build_command_result();
    assert!(cmd.success);
    assert_eq!(cmd.message, Some("".into()));
}

#[test]
fn failed_dual_run_carries_code_one_and_single_message() {
    let result = DualAdapterResult {
        primary: Some(CommandResult::err("a1 down")),
        secondary: None,
    };
    let cmd = result.build_command_result();
    assert!(!cmd.success);
    assert_eq!(cmd.message, Some("a1 down".into()));
    assert_eq!(cmd.code, Some("1".into()));
}
