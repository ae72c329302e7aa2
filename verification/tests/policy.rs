use mcp_ssh::constraints::{
    command_invokes_word, enforce_constraints, tokenize_shell_like, trim_whitespace,
    ConstraintViolation,
};

fn rules(texts: &[&str]) -> Vec<String> {
    texts.iter().map(|t| t.to_string()).collect()
}

#[test]
fn read_only_blocks_rm() {
    let constraints = vec!["read_only".to_string()];
    let result = enforce_constraints(&constraints, "rm -rf /tmp/x");
    assert!(result.is_err());
}

#[test]
fn read_only_blocks_redirect() {
    let constraints = vec!["read_only".to_string()];
    let result = enforce_constraints(&constraints, "echo hi > /tmp/file");
    assert!(result.is_err());
}

#[test]
fn read_only_allows_safe_read_command() {
    let constraints = vec!["read_only".to_string()];
    let result = enforce_constraints(&constraints, "ls -la /var/log");
    assert!(result.is_ok());
}

#[test]
fn read_only_does_not_false_positive_on_substring() {
    let constraints = vec!["read_only".to_string()];
    let result = enforce_constraints(&constraints, "systemctl status service");
    assert!(result.is_ok());
}

#[test]
fn unknown_rule_is_blocked() {
    let constraints = vec!["allow_network".to_string()];
    let result = enforce_constraints(&constraints, "ls");
    assert!(result.is_err());
}

#[test]
fn tokens_are_lowercased_runs_of_token_characters() {
    assert_eq!(
        tokenize_shell_like("Sudo  RM -rf /Tmp/x;ls|grep a_b.c"),
        vec!["sudo", "rm", "-rf", "/tmp/x", "ls", "grep", "a_b.c"]
    );
    assert_eq!(tokenize_shell_like(""), Vec::<String>::new());
    assert_eq!(tokenize_shell_like("  ;; "), Vec::<String>::new());
}

#[test]
fn tokens_split_at_separator_law_example() {
    let a = "cat /etc/hosts";
    let b = "Wc -l";
    let joined = format!("{}|{}", a, b);
    let mut expected = tokenize_shell_like(a);
    expected.extend(tokenize_shell_like(b));
    assert_eq!(tokenize_shell_like(&joined), expected);
}

#[test]
fn invocation_by_path_counts() {
    assert!(command_invokes_word("/usr/bin/rm file", "rm"));
    assert!(command_invokes_word("cd /tmp && RM x", "rm"));
    assert!(!command_invokes_word("rmdir_helper x", "rm"));
    assert!(!command_invokes_word("/usr/rm/ls", "rm"));
}

#[test]
fn trimming_removes_unicode_white_space() {
    assert_eq!(trim_whitespace("  read_only\t\n"), "read_only");
    assert_eq!(trim_whitespace("\u{3000}read_only\u{a0}"), "read_only");
    assert_eq!(trim_whitespace(" \t "), "");
    assert_eq!(trim_whitespace("a b"), "a b");
}

#[test]
fn read_only_reports_first_blocked_keyword() {
    let r = enforce_constraints(&rules(&["read_only"]), "sudo rm -rf /");
    match r {
        Err(v @ ConstraintViolation::BlockedKeyword { .. }) => assert_eq!(
            v.message(),
            "Constraint Violation: Command 'sudo rm -rf /' contains blocked keyword 'rm' (read_only rule active)"
        ),
        _ => panic!("expected a blocked keyword"),
    }
}

#[test]
fn read_only_redirection_message() {
    let r = enforce_constraints(&rules(&["read_only"]), "echo hi > /tmp/file");
    match r {
        Err(v @ ConstraintViolation::Redirection { .. }) => assert_eq!(
            v.message(),
            "Constraint Violation: Command 'echo hi > /tmp/file' contains shell redirection while read_only is active"
        ),
        _ => panic!("expected a redirection"),
    }
}

#[test]
fn unknown_rule_message_uses_trimmed_rule() {
    let r = enforce_constraints(&rules(&["  allow_network "]), "ls");
    match r {
        Err(v @ ConstraintViolation::UnknownRule { .. }) => assert_eq!(
            v.message(),
            "Constraint Violation: Unknown constraint rule 'allow_network' (blocked by fail-close policy)"
        ),
        _ => panic!("expected an unknown rule"),
    }
}

#[test]
fn blank_rules_are_ignored_law_example() {
    assert!(enforce_constraints(&rules(&["", "  ", "\t"]), "rm -rf /").is_ok());
    assert!(enforce_constraints(&rules(&["read_only", " ", "read_only"]), "ls").is_ok());
    assert!(enforce_constraints(&[], "rm -rf /").is_ok());
}

#[test]
fn adding_rules_never_relaxes_law_example() {
    let refused = enforce_constraints(&rules(&["read_only"]), "mv a b");
    assert!(refused.is_err());
    assert!(enforce_constraints(&rules(&["", "read_only"]), "mv a b").is_err());
    assert!(enforce_constraints(&rules(&["read_only", "other"]), "mv a b").is_err());
    // the first refusing rule decides the reported violation
    match enforce_constraints(&rules(&["weird", "read_only"]), "mv a b") {
        Err(ConstraintViolation::UnknownRule { rule }) => assert_eq!(rule, "weird"),
        _ => panic!("expected the unknown rule first"),
    }
}

#[test]
fn read_only_is_case_sensitive_and_exact() {
    assert!(enforce_constraints(&rules(&["READ_ONLY"]), "ls").is_err());
    assert!(enforce_constraints(&rules(&["read_only extra"]), "ls").is_err());
}

#[test]
fn every_blocked_keyword_is_blocked() {
    for k in [
        "rm", "mv", "cp", "dd", "chmod", "chown", "sudo", "nano", "vi", "vim", "tee", "touch",
        "mkdir", "rmdir", "truncate",
    ] {
        let cmd = format!("x; /bin/{} y", k);
        assert!(enforce_constraints(&rules(&["read_only"]), &cmd).is_err(), "{}", k);
    }
    assert!(enforce_constraints(&rules(&["read_only"]), "cat file | grep x").is_ok());
}

#[test]
fn tokenizing_is_stable_law_example() {
    for cmd in ["Sudo  RM -rf /Tmp/x;ls|grep a_b.c", "echo hi > /tmp/f", "", "A.B/C_d-e"] {
        let toks = tokenize_shell_like(cmd);
        assert_eq!(tokenize_shell_like(&toks.join(" ")), toks);
    }
}
