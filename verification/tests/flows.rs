use mcp_ssh::manager_db::{Account, Machine};
use mcp_ssh::tools::{
    backoff_seconds, format_host_info, ExecFlow, FlowAction, FlowEvent, HostInfoFlow, SshOutput,
    ToolArguments, ToolError,
};

fn machine(id: Option<i64>, ownership: &str) -> Machine {
    Machine {
        id,
        name: "web-server".to_string(),
        ip_address: "10.0.0.5".to_string(),
        mac_address: None,
        hostname: Some("web".to_string()),
        purpose: "frontend".to_string(),
        ownership: ownership.to_string(),
        os_type: "linux".to_string(),
        status: "active".to_string(),
        boot_delay: 0,
    }
}

fn account(auth_type: &str, credential: &str) -> Account {
    Account {
        id: Some(1),
        machine_id: 7,
        username: "deploy".to_string(),
        auth_type: auth_type.to_string(),
        credential: credential.to_string(),
    }
}

fn args(alias: Option<&str>, command: Option<&str>) -> ToolArguments {
    ToolArguments { alias: alias.map(|s| s.to_string()), command: command.map(|s| s.to_string()) }
}

fn rules(texts: &[&str]) -> Vec<String> {
    texts.iter().map(|t| t.to_string()).collect()
}

/// Drives an ssh_exec call up to the rule check.
fn up_to_rules(m: Machine, a: Account, command: &str) -> ExecFlow {
    let (s, act) = ExecFlow::start(args(Some("web-server"), Some(command)));
    assert!(matches!(act, FlowAction::OpenDatabase));
    let (s, act) = s.step(FlowEvent::Completed);
    match act {
        FlowAction::FindMachine { alias } => assert_eq!(alias, "web-server"),
        _ => panic!("expected a machine lookup"),
    }
    let (s, act) = s.step(FlowEvent::Machine { machine: Some(m) });
    assert!(matches!(act, FlowAction::FindAccount { machine_id: 7 }));
    let (s, act) = s.step(FlowEvent::Account { account: Some(a) });
    assert!(matches!(act, FlowAction::LoadConstraints { machine_id: 7 }));
    s
}

fn finish_error(act: FlowAction) -> ToolError {
    match act {
        FlowAction::Finish { outcome: Err(e) } => e,
        _ => panic!("expected a failed finish"),
    }
}

#[test]
fn ssh_exec_full_run_with_backoff_and_company_warning() {
    let s = up_to_rules(machine(Some(7), "company"), account("key", "/keys/id"), "ls -la");
    let (s, act) = s.step(FlowEvent::Constraints { rules: rules(&["read_only"]) });
    assert!(matches!(act, FlowAction::WarnCompanyMachine));
    let (s, act) = s.step(FlowEvent::Completed);
    assert!(matches!(act, FlowAction::CountRecentFailures { machine_id: 7, limit: 5 }));
    let (s, act) = s.step(FlowEvent::RecentFailures { count: 2 });
    assert!(matches!(act, FlowAction::Wait { failures: 2, seconds: 4 }));
    let (s, act) = s.step(FlowEvent::Completed);
    match act {
        FlowAction::RunSsh { request } => {
            assert_eq!(request.host, "10.0.0.5");
            assert_eq!(request.port, 22);
            assert_eq!(request.user, "deploy");
            assert_eq!(request.key_path.as_deref(), Some("/keys/id"));
            assert_eq!(request.password, None);
            assert_eq!(request.command, "ls -la");
        }
        _ => panic!("expected a session"),
    }
    let out = SshOutput { stdout: "a\nb".to_string(), stderr: "warn".to_string(), exit_code: 1 };
    let (s, act) = s.step(FlowEvent::Ssh { outcome: Ok(out) });
    match act {
        FlowAction::Log { entry } => {
            assert_eq!(entry.machine_id, 7);
            assert_eq!(entry.username, "deploy");
            assert_eq!(entry.command, "ls -la");
            assert_eq!(entry.stdout, "a\nb");
            assert_eq!(entry.stderr, "warn");
            assert_eq!(entry.exit_code, 1);
        }
        _ => panic!("expected a log entry"),
    }
    let (s, act) = s.step(FlowEvent::Completed);
    assert!(s.is_finished());
    match act {
        FlowAction::Finish { outcome: Ok(o) } => {
            assert_eq!(o.text, "STDOUT:\na\nb\nSTDERR:\nwarn");
            assert_eq!(o.is_error, Some(true));
        }
        _ => panic!("expected a result"),
    }
}

#[test]
fn ssh_exec_without_failures_runs_at_once_with_password() {
    let s = up_to_rules(machine(Some(7), "personal"), account("password", "pw"), "uptime");
    let (s, act) = s.step(FlowEvent::Constraints { rules: vec![] });
    assert!(matches!(act, FlowAction::CountRecentFailures { machine_id: 7, limit: 5 }));
    let (s, act) = s.step(FlowEvent::RecentFailures { count: 0 });
    match act {
        FlowAction::RunSsh { request } => {
            assert_eq!(request.key_path, None);
            assert_eq!(request.password.as_deref(), Some("pw"));
        }
        _ => panic!("expected a session"),
    }
    let out = SshOutput { stdout: "up".to_string(), stderr: String::new(), exit_code: 0 };
    let (s, _) = s.step(FlowEvent::Ssh { outcome: Ok(out) });
    let (_, act) = s.step(FlowEvent::Completed);
    match act {
        FlowAction::Finish { outcome: Ok(o) } => {
            assert_eq!(o.text, "STDOUT:\nup\nSTDERR:\n");
            assert_eq!(o.is_error, Some(false));
        }
        _ => panic!("expected a result"),
    }
}

#[test]
fn other_auth_type_gives_no_credential() {
    let s = up_to_rules(machine(Some(7), "personal"), account("agent", "x"), "uptime");
    let (s, _) = s.step(FlowEvent::Constraints { rules: vec![] });
    let (_, act) = s.step(FlowEvent::RecentFailures { count: 0 });
    match act {
        FlowAction::RunSsh { request } => {
            assert_eq!(request.key_path, None);
            assert_eq!(request.password, None);
        }
        _ => panic!("expected a session"),
    }
}

#[test]
fn refused_command_is_logged_then_reported() {
    let s = up_to_rules(machine(Some(7), "company"), account("key", "/k"), "rm x");
    let (s, act) = s.step(FlowEvent::Constraints { rules: rules(&["read_only"]) });
    match act {
        FlowAction::Log { entry } => {
            assert_eq!(entry.exit_code, -2);
            assert_eq!(entry.stdout, "");
            assert_eq!(entry.command, "rm x");
            assert_eq!(
                entry.stderr,
                "Constraint Violation: Constraint Violation: Command 'rm x' contains blocked keyword 'rm' (read_only rule active)"
            );
        }
        _ => panic!("expected a log entry"),
    }
    let (s, act) = s.step(FlowEvent::Completed);
    assert!(s.is_finished());
    let e = finish_error(act);
    assert!(matches!(e, ToolError::Refused { .. }));
    assert_eq!(
        e.message(),
        "Constraint Violation: Command 'rm x' contains blocked keyword 'rm' (read_only rule active)"
    );
}

#[test]
fn failed_session_is_logged_then_reported() {
    let s = up_to_rules(machine(Some(7), "personal"), account("key", "/k"), "ls");
    let (s, _) = s.step(FlowEvent::Constraints { rules: vec![] });
    let (s, _) = s.step(FlowEvent::RecentFailures { count: 0 });
    let (s, act) = s.step(FlowEvent::Ssh { outcome: Err("Failed to connect to 10.0.0.5:22".to_string()) });
    match act {
        FlowAction::Log { entry } => {
            assert_eq!(entry.exit_code, -1);
            assert_eq!(entry.stderr, "SSH Connection Error: Failed to connect to 10.0.0.5:22");
        }
        _ => panic!("expected a log entry"),
    }
    let (_, act) = s.step(FlowEvent::Completed);
    let e = finish_error(act);
    assert_eq!(e.message(), "SSH execution failed: Failed to connect to 10.0.0.5:22");
}

#[test]
fn ssh_exec_argument_errors() {
    let (s, act) = ExecFlow::start(args(Some("a"), None));
    assert!(s.is_finished());
    assert_eq!(finish_error(act).message(), "Missing 'command' argument");
    let (_, act) = ExecFlow::start(args(None, None));
    assert_eq!(finish_error(act).message(), "Missing 'command' argument");
    let (_, act) = ExecFlow::start(args(None, Some("ls")));
    assert_eq!(
        finish_error(act).message(),
        "Missing 'alias' argument. Direct 'host' connection is NOT allowed."
    );
}

#[test]
fn ssh_exec_lookup_errors() {
    let (s, _) = ExecFlow::start(args(Some("ghost"), Some("ls")));
    let (s, _) = s.step(FlowEvent::Completed);
    let (_, act) = s.step(FlowEvent::Machine { machine: None });
    assert_eq!(finish_error(act).message(), "Machine alias 'ghost' not found in database");

    let (s, _) = ExecFlow::start(args(Some("ghost"), Some("ls")));
    let (s, _) = s.step(FlowEvent::Completed);
    let (_, act) = s.step(FlowEvent::Machine { machine: Some(machine(None, "x")) });
    assert_eq!(finish_error(act).message(), "Machine 'ghost' has no id in database");

    let (s, _) = ExecFlow::start(args(Some("ghost"), Some("ls")));
    let (s, _) = s.step(FlowEvent::Completed);
    let (s, _) = s.step(FlowEvent::Machine { machine: Some(machine(Some(7), "x")) });
    let (_, act) = s.step(FlowEvent::Account { account: None });
    assert_eq!(finish_error(act).message(), "No account found for machine 'ghost'");
}

#[test]
fn store_failures_end_the_call() {
    let (s, _) = ExecFlow::start(args(Some("a"), Some("ls")));
    let (s, act) = s.step(FlowEvent::Failed {
        message: "database is locked".to_string(),
        causes: vec!["disk I/O error".to_string()],
    });
    assert!(s.is_finished());
    let e = finish_error(act);
    match &e {
        ToolError::Store { causes, .. } => assert_eq!(causes, &vec!["disk I/O error".to_string()]),
        _ => panic!("expected a store error"),
    }
    assert_eq!(e.message(), "database is locked");
}

#[test]
fn backoff_is_two_to_the_failures() {
    assert_eq!(backoff_seconds(0), 1);
    assert_eq!(backoff_seconds(1), 2);
    assert_eq!(backoff_seconds(3), 8);
    assert_eq!(backoff_seconds(5), 32);
    assert_eq!(backoff_seconds(63), 1u64 << 63);
}

#[test]
fn host_info_text_lists_rules() {
    let text = format_host_info(&machine(Some(7), "company"), &rules(&["read_only", " x "]));
    assert_eq!(
        text,
        "--- SSH CONTEXT (Internal Fallback) ---\nTarget Host: web-server\nIP Address: 10.0.0.5\nOS Type: linux\nPurpose: frontend\nOwnership: company\n\nCONSTRAINTS / RULES:\n- read_only\n-  x \n--------------------------------------\n"
    );
}

#[test]
fn host_info_without_rules() {
    let (s, act) = HostInfoFlow::start(args(Some("web-server"), None));
    assert!(matches!(act, FlowAction::OpenDatabase));
    let (s, _) = s.step(FlowEvent::Completed);
    let (s, act) = s.step(FlowEvent::Machine { machine: Some(machine(Some(7), "home")) });
    assert!(matches!(act, FlowAction::LoadConstraints { machine_id: 7 }));
    let (s, act) = s.step(FlowEvent::Constraints { rules: vec![] });
    assert!(s.is_finished());
    match act {
        FlowAction::Finish { outcome: Ok(o) } => {
            assert!(o.text.contains("\nCONSTRAINTS / RULES:\n- No specific rules defined.\n---"));
            assert_eq!(o.is_error, None);
        }
        _ => panic!("expected a description"),
    }
}

#[test]
fn host_info_errors() {
    let (_, act) = HostInfoFlow::start(args(None, Some("ls")));
    assert_eq!(finish_error(act).message(), "Missing 'alias' argument");
    let (s, _) = HostInfoFlow::start(args(Some("nope"), None));
    let (s, _) = s.step(FlowEvent::Completed);
    let (_, act) = s.step(FlowEvent::Machine { machine: None });
    assert_eq!(finish_error(act).message(), "Machine 'nope' not found in database");
    let (s, _) = HostInfoFlow::start(args(Some("nope"), None));
    let (_, act) = s.step(FlowEvent::Failed { message: "no db".to_string(), causes: vec![] });
    assert_eq!(finish_error(act).message(), "no db");
}

#[test]
fn unknown_rule_blocks_the_session() {
    let s = up_to_rules(machine(Some(7), "personal"), account("key", "/k"), "ls");
    let (s, act) = s.step(FlowEvent::Constraints { rules: rules(&["read_only", "allow_network"]) });
    match act {
        FlowAction::Log { entry } => {
            assert_eq!(entry.exit_code, -2);
            assert_eq!(
                entry.stderr,
                "Constraint Violation: Constraint Violation: Unknown constraint rule 'allow_network' (blocked by fail-close policy)"
            );
        }
        _ => panic!("expected the refusal to be logged"),
    }
    let (_, act) = s.step(FlowEvent::Completed);
    assert!(matches!(finish_error(act), ToolError::Refused { .. }));
}

#[test]
fn flows_accept_only_the_awaited_event() {
    let (s, _) = ExecFlow::start(args(Some("a"), Some("ls")));
    assert!(s.accepts(&FlowEvent::Completed));
    assert!(s.accepts(&FlowEvent::Failed { message: "x".to_string(), causes: vec![] }));
    assert!(!s.accepts(&FlowEvent::Machine { machine: None }));
    let (s, _) = HostInfoFlow::start(args(Some("a"), None));
    assert!(!s.accepts(&FlowEvent::Constraints { rules: vec![] }));
}

/// Drives a run with the given account up to its end; all sessions succeed.
fn run_with(acc: Account) -> Vec<String> {
    let mut seen = Vec::new();
    let s = up_to_rules(machine(Some(7), "personal"), acc, "ls");
    let (s, _) = s.step(FlowEvent::Constraints { rules: vec![] });
    let (s, _) = s.step(FlowEvent::RecentFailures { count: 0 });
    let out = SshOutput { stdout: "o".to_string(), stderr: "e".to_string(), exit_code: 0 };
    let (s, act) = s.step(FlowEvent::Ssh { outcome: Ok(out) });
    if let FlowAction::Log { entry } = act {
        seen.push(format!("{}|{}|{}|{}|{}", entry.username, entry.command, entry.stdout, entry.stderr, entry.exit_code));
    }
    let (_, act) = s.step(FlowEvent::Completed);
    if let FlowAction::Finish { outcome: Ok(o) } = act {
        seen.push(o.text);
    }
    seen
}

#[test]
fn credential_never_reaches_log_or_result_law_example() {
    let a = run_with(account("password", "first-secret"));
    let b = run_with(account("password", "second-secret"));
    assert_eq!(a, b);
    assert!(a.iter().all(|t| !t.contains("secret")));
}
