use clickdown::cli::args::{parse_args, parse_debug_command, DebugOperation};

fn args(v: &[&str]) -> Vec<String> {
    v.iter().map(|s| s.to_string()).collect()
}

#[test]
fn test_parse_no_args() {
    // Simulating no args would return TUI mode
    // This is tested via env::args() behavior
}

#[test]
fn test_parse_debug_workspaces() {
    let _args = vec!["debug".to_string(), "workspaces".to_string()];
    // Would need to mock env::args for full test
}

#[test]
fn test_parse_no_args_returns_tui_mode() {
    // Simulate no arguments - should return TUI mode
    // Note: This test is limited because parse_args() uses env::args()
    // Full integration tests are in tests/cli_test.rs
}

#[test]
fn test_parse_debug_help() {
    let result = parse_args(&args(&["clickdown", "debug"]));
    // Help is handled when "debug" is called without operation
    // This test verifies the parser doesn't crash
    assert!(result.is_ok() || result.is_err());
}

#[test]
fn no_subcommand_runs_interface() {
    let r = parse_args(&args(&["clickdown"])).unwrap();
    assert!(r.debug_command.is_none());
    let r = parse_args(&args(&["clickdown", "--help"])).unwrap();
    assert!(r.debug_command.is_none());
}

#[test]
fn unknown_subcommand_is_an_error() {
    let e = parse_args(&args(&["clickdown", "serve"])).unwrap_err();
    assert_eq!(e, "Unknown subcommand: serve");
}

#[test]
fn debug_workspaces_with_flags() {
    let r = parse_args(&args(&["clickdown", "debug", "workspaces", "--json", "-v"])).unwrap();
    let d = r.debug_command.unwrap();
    assert_eq!(d.operation, DebugOperation::Workspaces);
    assert!(d.json);
    assert!(d.verbose);
    assert!(d.token_override.is_none());
}

#[test]
fn debug_without_operation_is_help() {
    let d = parse_debug_command(&args(&[])).unwrap();
    assert_eq!(d.operation, DebugOperation::Help);
    assert!(!d.json);
}

#[test]
fn valued_operations() {
    let d = parse_debug_command(&args(&["tasks", "L1", "--token", "pk_1"])).unwrap();
    assert_eq!(d.operation, DebugOperation::Tasks { list_id: "L1".to_string() });
    assert_eq!(d.token_override.as_deref(), Some("pk_1"));
    let d = parse_debug_command(&args(&["lists", "S1", "--in-space"])).unwrap();
    assert_eq!(d.operation, DebugOperation::Lists { id: "S1".to_string(), in_space: true });
    let d = parse_debug_command(&args(&["lists", "F1"])).unwrap();
    assert_eq!(d.operation, DebugOperation::Lists { id: "F1".to_string(), in_space: false });
}

#[test]
fn parse_errors() {
    assert_eq!(
        parse_debug_command(&args(&["tasks"])).unwrap_err(),
        "tasks requires a list_id argument"
    );
    assert_eq!(
        parse_debug_command(&args(&["workspaces", "auth-status"])).unwrap_err(),
        "Multiple operations specified"
    );
    assert_eq!(parse_debug_command(&args(&["frobnicate"])).unwrap_err(), "Unknown operation: frobnicate");
    assert_eq!(parse_debug_command(&args(&["workspaces", "--nope"])).unwrap_err(), "Unknown option: --nope");
    assert_eq!(parse_debug_command(&args(&["--text"])).unwrap_err(), "--text requires a value");
    assert_eq!(
        parse_debug_command(&args(&["lists"])).unwrap_err(),
        "lists requires a folder_id or space_id argument"
    );
}

#[test]
fn comment_operations_need_text() {
    assert_eq!(
        parse_debug_command(&args(&["create-comment", "T1"])).unwrap_err(),
        "--text is required for this operation"
    );
    assert_eq!(
        parse_debug_command(&args(&["create-reply", "C1", "--text", ""])).unwrap_err(),
        "--text cannot be empty"
    );
    let d = parse_debug_command(&args(&[
        "create-comment",
        "T1",
        "--text",
        "Hello",
        "--assignee",
        "42",
        "--parent-id",
        "P",
        "--assigned-commenter",
        "7",
    ]))
    .unwrap();
    assert_eq!(d.operation, DebugOperation::CreateComment { task_id: "T1".to_string() });
    assert_eq!(d.text.as_deref(), Some("Hello"));
    assert_eq!(d.assignee.as_deref(), Some("42"));
    assert_eq!(d.parent_id.as_deref(), Some("P"));
    assert_eq!(d.assigned_commenter.as_deref(), Some("7"));
}
