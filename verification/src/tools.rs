//! The two tools offered to agents, as state machines.
//!
//! `ssh_exec` runs a command on a machine known by its alias, and
//! `get_host_info` describes a machine and its rules. Each tool alternates
//! work the caller performs (database reads and writes, waiting, the SSH
//! session) with decisions made here: the caller starts a flow, performs the
//! action it gets, reports the result as an event, and repeats until the
//! action is `Finish`.

use vstd::prelude::*;
use vstd::arithmetic::power2::{lemma2_to64, lemma_pow2_strictly_increases, lemma_pow2_unfold, pow2};
use crate::constraints::{
    enforce_constraints, first_violation, law_unknown_rule_refuses, read_only_rule, trim, views,
    violation_message, ConstraintViolation,
};
use crate::manager_db::{Account, Machine};
use crate::text::{concat2, concat3, concat4, owned, same_text};

verus! {

// ---------------------------------------------------------------------------
// Arguments, results and errors
// ---------------------------------------------------------------------------

/// The arguments of a tool call: the string values of `alias` and `command`,
/// where present.
pub struct ToolArguments {
    pub alias: Option<String>,
    pub command: Option<String>,
}

/// The text content a tool returns, and (for `ssh_exec`) whether the remote
/// command failed.
pub struct ToolOutput {
    pub text: String,
    pub is_error: Option<bool>,
}

/// What a finished SSH session reported.
pub struct SshOutput {
    pub stdout: String,
    pub stderr: String,
    pub exit_code: i32,
}

/// Why a tool call failed.
pub enum ToolError {
    /// `ssh_exec` was called without a `command` string.
    MissingCommand,
    /// `ssh_exec` was called without an `alias` string.
    MissingExecAlias,
    /// `get_host_info` was called without an `alias` string.
    MissingAlias,
    /// `ssh_exec`: no machine has this alias.
    AliasNotFound { alias: String },
    /// `get_host_info`: no machine has this alias.
    MachineNotFound { alias: String },
    /// The machine record carries no id.
    MachineWithoutId { alias: String },
    /// The machine has no account.
    NoAccount { alias: String },
    /// The machine's rules refused the command.
    Refused { violation: ConstraintViolation },
    /// The SSH session failed; `detail` says why.
    SshFailed { detail: String },
    /// Reading or writing the manager's data failed; `message` says why, and
    /// `causes` lists the underlying errors, outermost first.
    Store { message: String, causes: Vec<String> },
}

/// The message of a tool error.
pub open spec fn tool_error_message(e: ToolError) -> Seq<char> {
    match e {
        ToolError::MissingCommand => "Missing 'command' argument"@,
        ToolError::MissingExecAlias => "Missing 'alias' argument. Direct 'host' connection is NOT allowed."@,
        ToolError::MissingAlias => "Missing 'alias' argument"@,
        ToolError::AliasNotFound { alias } => "Machine alias '"@ + alias@ + "' not found in database"@,
        ToolError::MachineNotFound { alias } => "Machine '"@ + alias@ + "' not found in database"@,
        ToolError::MachineWithoutId { alias } => "Machine '"@ + alias@ + "' has no id in database"@,
        ToolError::NoAccount { alias } => "No account found for machine '"@ + alias@ + "'"@,
        ToolError::Refused { violation } => violation_message(violation@),
        ToolError::SshFailed { detail } => "SSH execution failed: "@ + detail@,
        ToolError::Store { message, .. } => message@,
    }
}

impl ToolError {
    /// The text that reports this error.
    pub fn message(&self) -> (m: String)
        ensures
            m@ == tool_error_message(*self),
    {
        match self {
            ToolError::MissingCommand => owned("Missing 'command' argument"),
            ToolError::MissingExecAlias => owned(
                "Missing 'alias' argument. Direct 'host' connection is NOT allowed.",
            ),
            ToolError::MissingAlias => owned("Missing 'alias' argument"),
            ToolError::AliasNotFound { alias } => concat3(
                "Machine alias '",
                alias.as_str(),
                "' not found in database",
            ),
            ToolError::MachineNotFound { alias } => concat3(
                "Machine '",
                alias.as_str(),
                "' not found in database",
            ),
            ToolError::MachineWithoutId { alias } => concat3(
                "Machine '",
                alias.as_str(),
                "' has no id in database",
            ),
            ToolError::NoAccount { alias } => concat3(
                "No account found for machine '",
                alias.as_str(),
                "'",
            ),
            ToolError::Refused { violation } => violation.message(),
            ToolError::SshFailed { detail } => concat2("SSH execution failed: ", detail.as_str()),
            ToolError::Store { message, .. } => owned(message.as_str()),
        }
    }
}

// ---------------------------------------------------------------------------
// Events and actions
// ---------------------------------------------------------------------------

/// What the caller reports after performing an action.
pub enum FlowEvent {
    /// The action was performed and has nothing to report.
    Completed,
    /// The action failed; `message` says why, and `causes` lists the
    /// underlying errors, outermost first.
    Failed { message: String, causes: Vec<String> },
    /// The machine looked up by alias.
    Machine { machine: Option<Machine> },
    /// The (decrypted) account looked up for a machine.
    Account { account: Option<Account> },
    /// The rule texts of a machine.
    Constraints { rules: Vec<String> },
    /// How many of the machine's most recent log entries record a failure.
    RecentFailures { count: i32 },
    /// How the SSH session ended.
    Ssh { outcome: Result<SshOutput, String> },
}

/// A command log entry.
pub struct LogEntry {
    pub machine_id: i64,
    pub username: String,
    pub command: String,
    pub stdout: String,
    pub stderr: String,
    pub exit_code: i32,
}

/// An SSH session to open: authenticate as `user` with the key file or the
/// password given (or the agent), run `command`, collect its output.
pub struct SshRequest {
    pub host: String,
    pub port: u16,
    pub user: String,
    pub key_path: Option<String>,
    pub password: Option<String>,
    pub command: String,
}

/// What the caller is asked to do next.
pub enum FlowAction {
    /// Open the manager database.
    OpenDatabase,
    /// Look up the machine with this alias.
    FindMachine { alias: String },
    /// Look up the first account of the machine (credential decrypted).
    FindAccount { machine_id: i64 },
    /// Read the rule texts of the machine.
    LoadConstraints { machine_id: i64 },
    /// Append this entry to the command log.
    Log { entry: LogEntry },
    /// Warn the operator that the machine belongs to the company.
    WarnCompanyMachine,
    /// Count the failures among the machine's `limit` most recent log entries.
    CountRecentFailures { machine_id: i64, limit: i32 },
    /// Report `failures` recent failures and wait `seconds` seconds.
    Wait { failures: i32, seconds: u64 },
    /// Open the SSH session.
    RunSsh { request: SshRequest },
    /// The tool call is over, with this outcome.
    Finish { outcome: Result<ToolOutput, ToolError> },
}

// ---------------------------------------------------------------------------
// Pieces of the ssh_exec decisions
// ---------------------------------------------------------------------------

/// The number of recent log entries that the failure count looks at.
pub open spec fn failure_window() -> i32 {
    5
}

/// The SSH port.
pub open spec fn ssh_port() -> u16 {
    22
}

/// Seconds to wait after `failures` recent failures: 2 to that power.
pub fn backoff_seconds(failures: i32) -> (s: u64)
    requires
        0 <= failures < 64,
    ensures
        s == pow2(failures as nat),
{
    let mut s: u64 = 1;
    let mut i: i32 = 0;
    proof {
        lemma2_to64();
    }
    while i < failures
        invariant
            0 <= i <= failures < 64,
            s == pow2(i as nat),
        decreases failures - i,
    {
        proof {
            lemma_pow2_unfold((i + 1) as nat);
            lemma2_to64();
            lemma_pow2_strictly_increases((i + 1) as nat, 64);
        }
        s = s * 2;
        i = i + 1;
    }
    s
}

/// The text a successful session returns.
pub open spec fn session_text(stdout: Seq<char>, stderr: Seq<char>) -> Seq<char> {
    "STDOUT:\n"@ + stdout + "\nSTDERR:\n"@ + stderr
}

/// The key file to authenticate with: the credential of a `key` account.
pub open spec fn key_path_of(account: Account) -> Option<Seq<char>> {
    if account.auth_type@ == "key"@ {
        Some(account.credential@)
    } else {
        None
    }
}

/// The password to authenticate with: the credential of a `password` account.
pub open spec fn password_of(account: Account) -> Option<Seq<char>> {
    if account.auth_type@ == "password"@ {
        Some(account.credential@)
    } else {
        None
    }
}

/// The views of an optional string.
pub open spec fn opt_view(s: Option<String>) -> Option<Seq<char>> {
    match s {
        Some(t) => Some(t@),
        None => None,
    }
}

/// The session that runs `command` on `machine` with `account`.
pub open spec fn ssh_request_for(r: SshRequest, machine: Machine, account: Account, command: Seq<char>) -> bool {
    &&& r.host@ == machine.ip_address@
    &&& r.port == ssh_port()
    &&& r.user@ == account.username@
    &&& opt_view(r.key_path) == key_path_of(account)
    &&& opt_view(r.password) == password_of(account)
    &&& r.command@ == command
}

/// Whether `entry` logs, for the machine and account, `command` with this
/// output.
pub open spec fn logs(
    entry: LogEntry,
    machine_id: i64,
    account: Account,
    command: Seq<char>,
    stdout: Seq<char>,
    stderr: Seq<char>,
    exit_code: i32,
) -> bool {
    &&& entry.machine_id == machine_id
    &&& entry.username@ == account.username@
    &&& entry.command@ == command
    &&& entry.stdout@ == stdout
    &&& entry.stderr@ == stderr
    &&& entry.exit_code == exit_code
}

fn clone_text(s: &String) -> (r: String)
    ensures
        r@ == s@,
{
    owned(s.as_str())
}

fn credential_if(account: &Account, kind: &str) -> (r: Option<String>)
    ensures
        r matches Some(c) ==> account.auth_type@ == kind@ && c@ == account.credential@,
        r is None ==> account.auth_type@ != kind@,
{
    if same_text(account.auth_type.as_str(), kind) {
        Some(clone_text(&account.credential))
    } else {
        None
    }
}

fn ssh_request(machine_ip: &String, account: &Account, command: &String) -> (r: SshRequest)
    ensures
        r.host@ == machine_ip@,
        r.port == ssh_port(),
        r.user@ == account.username@,
        opt_view(r.key_path) == key_path_of(*account),
        opt_view(r.password) == password_of(*account),
        r.command@ == command@,
{
    SshRequest {
        host: clone_text(machine_ip),
        port: 22,
        user: clone_text(&account.username),
        key_path: credential_if(account, "key"),
        password: credential_if(account, "password"),
        command: clone_text(command),
    }
}

fn log_entry(machine_id: i64, account: &Account, command: &String, stdout: String, stderr: String, exit_code: i32) -> (e: LogEntry)
    ensures
        logs(e, machine_id, *account, command@, stdout@, stderr@, exit_code),
{
    LogEntry {
        machine_id,
        username: clone_text(&account.username),
        command: clone_text(command),
        stdout,
        stderr,
        exit_code,
    }
}

// ---------------------------------------------------------------------------
// ssh_exec
// ---------------------------------------------------------------------------

/// Where an `ssh_exec` call stands. The states from `Warning` on carry, as
/// ghost data, the rules the command was checked against.
pub enum ExecFlow {
    OpeningDatabase { alias: String, command: String },
    FindingMachine { alias: String, command: String },
    FindingAccount { alias: String, command: String, machine: Machine, machine_id: i64 },
    LoadingConstraints { command: String, machine: Machine, machine_id: i64, account: Account },
    LoggingRefusal { violation: ConstraintViolation },
    Warning {
        command: String,
        machine: Machine,
        machine_id: i64,
        account: Account,
        rules: Ghost<Seq<Seq<char>>>,
    },
    CountingFailures {
        command: String,
        machine: Machine,
        machine_id: i64,
        account: Account,
        rules: Ghost<Seq<Seq<char>>>,
    },
    Waiting {
        command: String,
        machine: Machine,
        machine_id: i64,
        account: Account,
        rules: Ghost<Seq<Seq<char>>>,
    },
    Running { command: String, machine_id: i64, account: Account, rules: Ghost<Seq<Seq<char>>> },
    LoggingOutcome { outcome: Result<ToolOutput, ToolError> },
    Finished,
}

/// The events each `ssh_exec` state expects: the result of the action it
/// asked for. A failure count must be below 64.
pub open spec fn exec_accepts(s: ExecFlow, e: FlowEvent) -> bool {
    match s {
        ExecFlow::OpeningDatabase { .. } => e is Completed || e is Failed,
        ExecFlow::FindingMachine { .. } => e is Machine || e is Failed,
        ExecFlow::FindingAccount { .. } => e is Account || e is Failed,
        ExecFlow::LoadingConstraints { .. } => e is Constraints || e is Failed,
        ExecFlow::LoggingRefusal { .. } => e is Completed || e is Failed,
        ExecFlow::Warning { .. } => e is Completed,
        ExecFlow::CountingFailures { .. } => (e matches FlowEvent::RecentFailures { count } && count
            < 64) || e is Failed,
        ExecFlow::Waiting { .. } => e is Completed,
        ExecFlow::Running { .. } => e is Ssh,
        ExecFlow::LoggingOutcome { .. } => e is Completed || e is Failed,
        ExecFlow::Finished => false,
    }
}

/// The states whose command has passed its machine's rules.
pub open spec fn exec_checked(s: ExecFlow) -> bool {
    match s {
        ExecFlow::Warning { command, rules, .. } => first_violation(rules@, command@) is None,
        ExecFlow::CountingFailures { command, rules, .. } => first_violation(rules@, command@) is None,
        ExecFlow::Waiting { command, rules, .. } => first_violation(rules@, command@) is None,
        ExecFlow::Running { command, rules, .. } => first_violation(rules@, command@) is None,
        _ => true,
    }
}

/// The session to open once the command has passed the rules and the wait
/// (if any) is over.
pub open spec fn runs(post: ExecFlow, a: FlowAction, command: String, machine: Machine, machine_id: i64, account: Account, rules: Ghost<Seq<Seq<char>>>) -> bool {
    &&& post == ExecFlow::Running { command, machine_id, account, rules }
    &&& a matches FlowAction::RunSsh { request } && ssh_request_for(request, machine, account, command@)
}

/// One step of `ssh_exec`: from state `pre`, on event `e`, to state `post`
/// with action `a`.
pub open spec fn exec_step(pre: ExecFlow, e: FlowEvent, post: ExecFlow, a: FlowAction) -> bool {
    match (pre, e) {
        (_, FlowEvent::Failed { message, causes }) => post is Finished && a == FlowAction::Finish {
            outcome: Err(ToolError::Store { message, causes }),
        },
        (ExecFlow::OpeningDatabase { alias, command }, FlowEvent::Completed) => {
            &&& post == ExecFlow::FindingMachine { alias, command }
            &&& a matches FlowAction::FindMachine { alias: x } && x@ == alias@
        },
        (ExecFlow::FindingMachine { alias, command }, FlowEvent::Machine { machine: found }) => match found {
            None => post is Finished && a == FlowAction::Finish {
                outcome: Err(ToolError::AliasNotFound { alias }),
            },
            Some(machine) => match machine.id {
                None => post is Finished && a == FlowAction::Finish {
                    outcome: Err(ToolError::MachineWithoutId { alias }),
                },
                Some(id) => post == ExecFlow::FindingAccount {
                    alias,
                    command,
                    machine,
                    machine_id: id,
                } && a == FlowAction::FindAccount { machine_id: id },
            },
        },
        (
            ExecFlow::FindingAccount { alias, command, machine, machine_id },
            FlowEvent::Account { account: found },
        ) => match found {
            None => post is Finished && a == FlowAction::Finish {
                outcome: Err(ToolError::NoAccount { alias }),
            },
            Some(account) => post == ExecFlow::LoadingConstraints {
                command,
                machine,
                machine_id,
                account,
            } && a == FlowAction::LoadConstraints { machine_id },
        },
        (
            ExecFlow::LoadingConstraints { command, machine, machine_id, account },
            FlowEvent::Constraints { rules },
        ) => match first_violation(views(rules@), command@) {
            Some(v) => {
                &&& post matches ExecFlow::LoggingRefusal { violation } && violation@ == v
                &&& a matches FlowAction::Log { entry } && logs(
                    entry,
                    machine_id,
                    account,
                    command@,
                    Seq::empty(),
                    "Constraint Violation: "@ + violation_message(v),
                    -2i32,
                )
            },
            None => if machine.ownership@ == "company"@ {
                post == ExecFlow::Warning {
                    command,
                    machine,
                    machine_id,
                    account,
                    rules: Ghost(views(rules@)),
                } && a is WarnCompanyMachine
            } else {
                post == ExecFlow::CountingFailures {
                    command,
                    machine,
                    machine_id,
                    account,
                    rules: Ghost(views(rules@)),
                } && a == FlowAction::CountRecentFailures { machine_id, limit: failure_window() }
            },
        },
        (ExecFlow::LoggingRefusal { violation }, FlowEvent::Completed) => post is Finished && a
            == FlowAction::Finish { outcome: Err(ToolError::Refused { violation }) },
        (
            ExecFlow::Warning { command, machine, machine_id, account, rules },
            FlowEvent::Completed,
        ) => post == ExecFlow::CountingFailures { command, machine, machine_id, account, rules }
            && a == FlowAction::CountRecentFailures { machine_id, limit: failure_window() },
        (
            ExecFlow::CountingFailures { command, machine, machine_id, account, rules },
            FlowEvent::RecentFailures { count },
        ) => if count > 0 {
            post == ExecFlow::Waiting { command, machine, machine_id, account, rules } && (a
                matches FlowAction::Wait { failures, seconds } && failures == count && seconds
                == pow2(count as nat))
        } else {
            runs(post, a, command, machine, machine_id, account, rules)
        },
        (
            ExecFlow::Waiting { command, machine, machine_id, account, rules },
            FlowEvent::Completed,
        ) => runs(post, a, command, machine, machine_id, account, rules),
        (ExecFlow::Running { command, machine_id, account, .. }, FlowEvent::Ssh { outcome }) => {
            match outcome {
                Ok(out) => {
                    &&& post matches ExecFlow::LoggingOutcome { outcome: Ok(o) } && o.text@
                        == session_text(out.stdout@, out.stderr@) && o.is_error == Some(
                        out.exit_code != 0,
                    )
                    &&& a matches FlowAction::Log { entry } && logs(
                        entry,
                        machine_id,
                        account,
                        command@,
                        out.stdout@,
                        out.stderr@,
                        out.exit_code,
                    )
                },
                Err(detail) => {
                    &&& post == ExecFlow::LoggingOutcome {
                        outcome: Err(ToolError::SshFailed { detail }),
                    }
                    &&& a matches FlowAction::Log { entry } && logs(
                        entry,
                        machine_id,
                        account,
                        command@,
                        Seq::empty(),
                        "SSH Connection Error: "@ + detail@,
                        -1i32,
                    )
                },
            }
        },
        (ExecFlow::LoggingOutcome { outcome }, FlowEvent::Completed) => post is Finished && a
            == FlowAction::Finish { outcome },
        _ => false,
    }
}

/// How an `ssh_exec` call begins, given its arguments.
pub open spec fn exec_begins(args: ToolArguments, s: ExecFlow, a: FlowAction) -> bool {
    match args.command {
        None => s is Finished && a == FlowAction::Finish { outcome: Err(ToolError::MissingCommand) },
        Some(command) => match args.alias {
            None => s is Finished && a == FlowAction::Finish {
                outcome: Err(ToolError::MissingExecAlias),
            },
            Some(alias) => s == ExecFlow::OpeningDatabase { alias, command } && a is OpenDatabase,
        },
    }
}

impl ExecFlow {
    /// Begins an `ssh_exec` call: both a `command` and an `alias` are needed
    /// (the command is checked first); then the database is opened.
    pub fn start(args: ToolArguments) -> (r: (ExecFlow, FlowAction))
        ensures
            exec_begins(args, r.0, r.1),
    {
        match args.command {
            None => (ExecFlow::Finished, FlowAction::Finish { outcome: Err(ToolError::MissingCommand) }),
            Some(command) => match args.alias {
                None => (
                    ExecFlow::Finished,
                    FlowAction::Finish { outcome: Err(ToolError::MissingExecAlias) },
                ),
                Some(alias) => (ExecFlow::OpeningDatabase { alias, command }, FlowAction::OpenDatabase),
            },
        }
    }

    /// Whether the call is over.
    pub fn is_finished(&self) -> (b: bool)
        ensures
            b == (*self is Finished),
    {
        match self {
            ExecFlow::Finished => true,
            _ => false,
        }
    }

    /// Whether this state expects `event` (see `exec_accepts`).
    pub fn accepts(&self, event: &FlowEvent) -> (b: bool)
        ensures
            b == exec_accepts(*self, *event),
    {
        match (self, event) {
            (ExecFlow::OpeningDatabase { .. }, FlowEvent::Completed) => true,
            (ExecFlow::FindingMachine { .. }, FlowEvent::Machine { .. }) => true,
            (ExecFlow::FindingAccount { .. }, FlowEvent::Account { .. }) => true,
            (ExecFlow::LoadingConstraints { .. }, FlowEvent::Constraints { .. }) => true,
            (ExecFlow::LoggingRefusal { .. }, FlowEvent::Completed) => true,
            (ExecFlow::Warning { .. }, FlowEvent::Completed) => true,
            (ExecFlow::CountingFailures { .. }, FlowEvent::RecentFailures { count }) => *count < 64,
            (ExecFlow::Waiting { .. }, FlowEvent::Completed) => true,
            (ExecFlow::Running { .. }, FlowEvent::Ssh { .. }) => true,
            (ExecFlow::LoggingOutcome { .. }, FlowEvent::Completed) => true,
            (ExecFlow::Warning { .. }, _) => false,
            (ExecFlow::Waiting { .. }, _) => false,
            (ExecFlow::Running { .. }, _) => false,
            (ExecFlow::Finished, _) => false,
            (_, FlowEvent::Failed { .. }) => true,
            (_, _) => false,
        }
    }

    /// One step: the state reached on `event` and the next action.
    pub fn step(self, event: FlowEvent) -> (r: (ExecFlow, FlowAction))
        requires
            exec_accepts(self, event),
        ensures
            exec_step(self, event, r.0, r.1),
    {
        match (self, event) {
            (_, FlowEvent::Failed { message, causes }) => (
                ExecFlow::Finished,
                FlowAction::Finish { outcome: Err(ToolError::Store { message, causes }) },
            ),
            (ExecFlow::OpeningDatabase { alias, command }, FlowEvent::Completed) => {
                let x = clone_text(&alias);
                (ExecFlow::FindingMachine { alias, command }, FlowAction::FindMachine { alias: x })
            },
            (ExecFlow::FindingMachine { alias, command }, FlowEvent::Machine { machine: found }) => {
                match found {
                    None => (
                        ExecFlow::Finished,
                        FlowAction::Finish { outcome: Err(ToolError::AliasNotFound { alias }) },
                    ),
                    Some(machine) => match machine.id {
                        None => (
                            ExecFlow::Finished,
                            FlowAction::Finish {
                                outcome: Err(ToolError::MachineWithoutId { alias }),
                            },
                        ),
                        Some(id) => (
                            ExecFlow::FindingAccount { alias, command, machine, machine_id: id },
                            FlowAction::FindAccount { machine_id: id },
                        ),
                    },
                }
            },
            (
                ExecFlow::FindingAccount { alias, command, machine, machine_id },
                FlowEvent::Account { account: found },
            ) => {
                match found {
                    None => (
                        ExecFlow::Finished,
                        FlowAction::Finish { outcome: Err(ToolError::NoAccount { alias }) },
                    ),
                    Some(account) => (
                        ExecFlow::LoadingConstraints { command, machine, machine_id, account },
                        FlowAction::LoadConstraints { machine_id },
                    ),
                }
            },
            (
                ExecFlow::LoadingConstraints { command, machine, machine_id, account },
                FlowEvent::Constraints { rules },
            ) => {
                match enforce_constraints(rules.as_slice(), command.as_str()) {
                    Err(violation) => {
                        let text = violation.message();
                        let stderr = concat2("Constraint Violation: ", text.as_str());
                        let entry = log_entry(machine_id, &account, &command, String::new(), stderr, -2);
                        (ExecFlow::LoggingRefusal { violation }, FlowAction::Log { entry })
                    },
                    Ok(()) => {
                        let ghost checked = views(rules@);
                        if same_text(machine.ownership.as_str(), "company") {
                            (
                                ExecFlow::Warning {
                                    command,
                                    machine,
                                    machine_id,
                                    account,
                                    rules: Ghost(checked),
                                },
                                FlowAction::WarnCompanyMachine,
                            )
                        } else {
                            (
                                ExecFlow::CountingFailures {
                                    command,
                                    machine,
                                    machine_id,
                                    account,
                                    rules: Ghost(checked),
                                },
                                FlowAction::CountRecentFailures { machine_id, limit: 5 },
                            )
                        }
                    },
                }
            },
            (ExecFlow::LoggingRefusal { violation }, FlowEvent::Completed) => (
                ExecFlow::Finished,
                FlowAction::Finish { outcome: Err(ToolError::Refused { violation }) },
            ),
            (
                ExecFlow::Warning { command, machine, machine_id, account, rules },
                FlowEvent::Completed,
            ) => (
                ExecFlow::CountingFailures { command, machine, machine_id, account, rules },
                FlowAction::CountRecentFailures { machine_id, limit: 5 },
            ),
            (
                ExecFlow::CountingFailures { command, machine, machine_id, account, rules },
                FlowEvent::RecentFailures { count },
            ) => {
                if count > 0 {
                    let seconds = backoff_seconds(count);
                    (
                        ExecFlow::Waiting { command, machine, machine_id, account, rules },
                        FlowAction::Wait { failures: count, seconds },
                    )
                } else {
                    let request = ssh_request(&machine.ip_address, &account, &command);
                    (
                        ExecFlow::Running { command, machine_id, account, rules },
                        FlowAction::RunSsh { request },
                    )
                }
            },
            (
                ExecFlow::Waiting { command, machine, machine_id, account, rules },
                FlowEvent::Completed,
            ) => {
                let request = ssh_request(&machine.ip_address, &account, &command);
                (ExecFlow::Running { command, machine_id, account, rules }, FlowAction::RunSsh { request })
            },
            (ExecFlow::Running { command, machine_id, account, .. }, FlowEvent::Ssh { outcome }) => {
                match outcome {
                    Ok(out) => {
                        let text = concat4(
                            "STDOUT:\n",
                            out.stdout.as_str(),
                            "\nSTDERR:\n",
                            out.stderr.as_str(),
                        );
                        let failed = out.exit_code != 0;
                        let entry = log_entry(
                            machine_id,
                            &account,
                            &command,
                            out.stdout,
                            out.stderr,
                            out.exit_code,
                        );
                        (
                            ExecFlow::LoggingOutcome {
                                outcome: Ok(ToolOutput { text, is_error: Some(failed) }),
                            },
                            FlowAction::Log { entry },
                        )
                    },
                    Err(detail) => {
                        let stderr = concat2("SSH Connection Error: ", detail.as_str());
                        let entry = log_entry(machine_id, &account, &command, String::new(), stderr, -1);
                        (
                            ExecFlow::LoggingOutcome { outcome: Err(ToolError::SshFailed { detail }) },
                            FlowAction::Log { entry },
                        )
                    },
                }
            },
            (ExecFlow::LoggingOutcome { outcome }, FlowEvent::Completed) => (
                ExecFlow::Finished,
                FlowAction::Finish { outcome },
            ),
            (_, _) => {
                // `exec_accepts` admits no other pair of state and event.
                proof {
                    assert(false);
                }
                (ExecFlow::Finished, FlowAction::OpenDatabase)
            },
        }
    }
}


// ---------------------------------------------------------------------------
// get_host_info
// ---------------------------------------------------------------------------

/// The lines that list rules, one `- rule` line each, in order.
pub open spec fn rule_lines(rules: Seq<Seq<char>>) -> Seq<char>
    decreases rules.len(),
{
    if rules.len() == 0 {
        Seq::empty()
    } else {
        rule_lines(rules.drop_last()) + "- "@ + rules.last() + "\n"@
    }
}

/// The machine description of `get_host_info`: name, address, OS, purpose and
/// ownership, then the rules (or a line that says there are none).
pub open spec fn host_info_text(machine: Machine, rules: Seq<Seq<char>>) -> Seq<char> {
    "--- SSH CONTEXT (Internal Fallback) ---\n"@ + "Target Host: "@ + machine.name@ + "\n"@
        + "IP Address: "@ + machine.ip_address@ + "\n"@ + "OS Type: "@ + machine.os_type@ + "\n"@
        + "Purpose: "@ + machine.purpose@ + "\n"@ + "Ownership: "@ + machine.ownership@ + "\n"@
        + "\nCONSTRAINTS / RULES:\n"@ + (if rules.len() == 0 {
        "- No specific rules defined.\n"@
    } else {
        rule_lines(rules)
    }) + "--------------------------------------\n"@
}

fn append_field(text: &mut String, label: &str, value: &str)
    ensures
        final(text)@ == old(text)@ + label@ + value@ + "\n"@,
{
    text.append(label);
    text.append(value);
    text.append("\n");
}

/// The description of a machine and its rules.
pub fn format_host_info(machine: &Machine, rules: &[String]) -> (text: String)
    ensures
        text@ == host_info_text(*machine, views(rules@)),
{
    let mut text = owned("--- SSH CONTEXT (Internal Fallback) ---\n");
    append_field(&mut text, "Target Host: ", machine.name.as_str());
    append_field(&mut text, "IP Address: ", machine.ip_address.as_str());
    append_field(&mut text, "OS Type: ", machine.os_type.as_str());
    append_field(&mut text, "Purpose: ", machine.purpose.as_str());
    append_field(&mut text, "Ownership: ", machine.ownership.as_str());
    text.append("\nCONSTRAINTS / RULES:\n");
    let ghost head = text@;
    let ghost all = views(rules@);
    if rules.len() == 0 {
        text.append("- No specific rules defined.\n");
    } else {
        let mut i: usize = 0;
        assert(all.take(0) =~= Seq::<Seq<char>>::empty());
        while i < rules.len()
            invariant
                0 <= i <= rules@.len(),
                all == views(rules@),
                text@ == head + rule_lines(all.take(i as int)),
            decreases rules@.len() - i,
        {
            text.append("- ");
            text.append(rules[i].as_str());
            text.append("\n");
            assert(all.take(i + 1).drop_last() =~= all.take(i as int));
            assert(all.take(i + 1).last() == rules@[i as int]@);
            i = i + 1;
        }
        assert(all.take(rules@.len() as int) =~= all);
    }
    text.append("--------------------------------------\n");
    text
}

/// Where a `get_host_info` call stands.
pub enum HostInfoFlow {
    OpeningDatabase { alias: String },
    FindingMachine { alias: String },
    LoadingConstraints { machine: Machine },
    Finished,
}

/// The events each `get_host_info` state expects.
pub open spec fn host_info_accepts(s: HostInfoFlow, e: FlowEvent) -> bool {
    match s {
        HostInfoFlow::OpeningDatabase { .. } => e is Completed || e is Failed,
        HostInfoFlow::FindingMachine { .. } => e is Machine || e is Failed,
        HostInfoFlow::LoadingConstraints { .. } => e is Constraints || e is Failed,
        HostInfoFlow::Finished => false,
    }
}

/// One step of `get_host_info`.
pub open spec fn host_info_step(pre: HostInfoFlow, e: FlowEvent, post: HostInfoFlow, a: FlowAction) -> bool {
    match (pre, e) {
        (_, FlowEvent::Failed { message, causes }) => post is Finished && a == FlowAction::Finish {
            outcome: Err(ToolError::Store { message, causes }),
        },
        (HostInfoFlow::OpeningDatabase { alias }, FlowEvent::Completed) => {
            &&& post == HostInfoFlow::FindingMachine { alias }
            &&& a matches FlowAction::FindMachine { alias: x } && x@ == alias@
        },
        (HostInfoFlow::FindingMachine { alias }, FlowEvent::Machine { machine: found }) => match found {
            None => post is Finished && a == FlowAction::Finish {
                outcome: Err(ToolError::MachineNotFound { alias }),
            },
            Some(machine) => match machine.id {
                None => post is Finished && a == FlowAction::Finish {
                    outcome: Err(ToolError::MachineWithoutId { alias }),
                },
                Some(id) => post == HostInfoFlow::LoadingConstraints { machine } && a
                    == FlowAction::LoadConstraints { machine_id: id },
            },
        },
        (HostInfoFlow::LoadingConstraints { machine }, FlowEvent::Constraints { rules }) => {
            &&& post is Finished
            &&& a matches FlowAction::Finish { outcome: Ok(out) } && out.text@ == host_info_text(
                machine,
                views(rules@),
            ) && out.is_error is None
        },
        _ => false,
    }
}

/// How a `get_host_info` call begins, given its arguments.
pub open spec fn host_info_begins(args: ToolArguments, s: HostInfoFlow, a: FlowAction) -> bool {
    match args.alias {
        None => s is Finished && a == FlowAction::Finish { outcome: Err(ToolError::MissingAlias) },
        Some(alias) => s == HostInfoFlow::OpeningDatabase { alias } && a is OpenDatabase,
    }
}

impl HostInfoFlow {
    /// Begins a `get_host_info` call: an `alias` is needed; then the database
    /// is opened.
    pub fn start(args: ToolArguments) -> (r: (HostInfoFlow, FlowAction))
        ensures
            host_info_begins(args, r.0, r.1),
    {
        match args.alias {
            None => (HostInfoFlow::Finished, FlowAction::Finish { outcome: Err(ToolError::MissingAlias) }),
            Some(alias) => (HostInfoFlow::OpeningDatabase { alias }, FlowAction::OpenDatabase),
        }
    }

    /// Whether the call is over.
    pub fn is_finished(&self) -> (b: bool)
        ensures
            b == (*self is Finished),
    {
        match self {
            HostInfoFlow::Finished => true,
            _ => false,
        }
    }

    /// Whether this state expects `event` (see `host_info_accepts`).
    pub fn accepts(&self, event: &FlowEvent) -> (b: bool)
        ensures
            b == host_info_accepts(*self, *event),
    {
        match (self, event) {
            (HostInfoFlow::Finished, _) => false,
            (_, FlowEvent::Failed { .. }) => true,
            (HostInfoFlow::OpeningDatabase { .. }, FlowEvent::Completed) => true,
            (HostInfoFlow::FindingMachine { .. }, FlowEvent::Machine { .. }) => true,
            (HostInfoFlow::LoadingConstraints { .. }, FlowEvent::Constraints { .. }) => true,
            (_, _) => false,
        }
    }

    /// One step: the state reached on `event` and the next action.
    pub fn step(self, event: FlowEvent) -> (r: (HostInfoFlow, FlowAction))
        requires
            host_info_accepts(self, event),
        ensures
            host_info_step(self, event, r.0, r.1),
    {
        match (self, event) {
            (_, FlowEvent::Failed { message, causes }) => (
                HostInfoFlow::Finished,
                FlowAction::Finish { outcome: Err(ToolError::Store { message, causes }) },
            ),
            (HostInfoFlow::OpeningDatabase { alias }, FlowEvent::Completed) => {
                let x = clone_text(&alias);
                (HostInfoFlow::FindingMachine { alias }, FlowAction::FindMachine { alias: x })
            },
            (HostInfoFlow::FindingMachine { alias }, FlowEvent::Machine { machine: found }) => {
                match found {
                    None => (
                        HostInfoFlow::Finished,
                        FlowAction::Finish { outcome: Err(ToolError::MachineNotFound { alias }) },
                    ),
                    Some(machine) => match machine.id {
                        None => (
                            HostInfoFlow::Finished,
                            FlowAction::Finish {
                                outcome: Err(ToolError::MachineWithoutId { alias }),
                            },
                        ),
                        Some(id) => (
                            HostInfoFlow::LoadingConstraints { machine },
                            FlowAction::LoadConstraints { machine_id: id },
                        ),
                    },
                }
            },
            (HostInfoFlow::LoadingConstraints { machine }, FlowEvent::Constraints { rules }) => {
                let text = format_host_info(&machine, rules.as_slice());
                (
                    HostInfoFlow::Finished,
                    FlowAction::Finish { outcome: Ok(ToolOutput { text, is_error: None }) },
                )
            },
            (_, _) => {
                // `host_info_accepts` admits no other pair of state and event.
                proof {
                    assert(false);
                }
                (HostInfoFlow::Finished, FlowAction::OpenDatabase)
            },
        }
    }
}


// ---------------------------------------------------------------------------
// Laws
// ---------------------------------------------------------------------------

/// A call begins in a state that has run no command yet.
pub proof fn law_exec_begins_unchecked(args: ToolArguments, s: ExecFlow, a: FlowAction)
    requires
        exec_begins(args, s, a),
    ensures
        exec_checked(s),
        !(a is RunSsh),
{
}

/// The states past the rule check only ever hold a command that passed the
/// rules: every step keeps this.
pub proof fn law_exec_checked_kept(pre: ExecFlow, e: FlowEvent, post: ExecFlow, a: FlowAction)
    requires
        exec_checked(pre),
        exec_step(pre, e, post, a),
    ensures
        exec_checked(post),
{
}

/// The rule check uses the rules loaded for the machine: the command goes on
/// exactly when they let it through, and the rules it passed are those.
pub proof fn law_rule_check_uses_loaded_rules(
    command: String,
    machine: Machine,
    machine_id: i64,
    account: Account,
    rules: Vec<String>,
    post: ExecFlow,
    a: FlowAction,
)
    requires
        exec_step(
            ExecFlow::LoadingConstraints { command, machine, machine_id, account },
            FlowEvent::Constraints { rules },
            post,
            a,
        ),
    ensures
        (first_violation(views(rules@), command@) is None) <==> !(post is LoggingRefusal),
        post matches ExecFlow::Warning { rules: r, .. } ==> r@ == views(rules@),
        post matches ExecFlow::CountingFailures { rules: r, .. } ==> r@ == views(rules@),
        !(a is RunSsh),
{
}

/// Fail-close: when a machine has a rule that is neither blank nor
/// `read_only`, the command is refused and logged, whatever it is.
pub proof fn law_unknown_rule_blocks_session(
    command: String,
    machine: Machine,
    machine_id: i64,
    account: Account,
    rules: Vec<String>,
    i: int,
    post: ExecFlow,
    a: FlowAction,
)
    requires
        exec_step(
            ExecFlow::LoadingConstraints { command, machine, machine_id, account },
            FlowEvent::Constraints { rules },
            post,
            a,
        ),
        0 <= i < rules@.len(),
        trim(rules@[i]@).len() > 0,
        trim(rules@[i]@) != read_only_rule(),
    ensures
        post is LoggingRefusal,
        a matches FlowAction::Log { entry } && entry.exit_code == -2,
{
    assert(views(rules@)[i] == rules@[i]@);
    law_unknown_rule_refuses(views(rules@), i, command@);
}

/// Two accounts for the same login, whose credentials may differ.
pub open spec fn same_login(a: Account, b: Account) -> bool {
    &&& a.id == b.id
    &&& a.machine_id == b.machine_id
    &&& a.username@ == b.username@
    &&& a.auth_type@ == b.auth_type@
}

/// What a tool call's outcome says: its text and error flag, or its message.
pub open spec fn outcome_view(o: Result<ToolOutput, ToolError>) -> Result<(Seq<char>, Option<bool>), Seq<char>> {
    match o {
        Ok(out) => Ok((out.text@, out.is_error)),
        Err(e) => Err(tool_error_message(e)),
    }
}

/// Two `ssh_exec` states that agree in all but the credential of the
/// account (and the identity of equal texts).
pub open spec fn exec_alike(s: ExecFlow, t: ExecFlow) -> bool {
    match (s, t) {
        (
            ExecFlow::OpeningDatabase { alias: a1, command: c1 },
            ExecFlow::OpeningDatabase { alias: a2, command: c2 },
        ) => a1@ == a2@ && c1@ == c2@,
        (
            ExecFlow::FindingMachine { alias: a1, command: c1 },
            ExecFlow::FindingMachine { alias: a2, command: c2 },
        ) => a1@ == a2@ && c1@ == c2@,
        (
            ExecFlow::FindingAccount { alias: a1, command: c1, machine: m1, machine_id: i1 },
            ExecFlow::FindingAccount { alias: a2, command: c2, machine: m2, machine_id: i2 },
        ) => a1@ == a2@ && c1@ == c2@ && m1 == m2 && i1 == i2,
        (
            ExecFlow::LoadingConstraints { command: c1, machine: m1, machine_id: i1, account: u1 },
            ExecFlow::LoadingConstraints { command: c2, machine: m2, machine_id: i2, account: u2 },
        ) => c1@ == c2@ && m1 == m2 && i1 == i2 && same_login(u1, u2),
        (ExecFlow::LoggingRefusal { violation: v1 }, ExecFlow::LoggingRefusal { violation: v2 }) => v1@
            == v2@,
        (
            ExecFlow::Warning { command: c1, machine: m1, machine_id: i1, account: u1, rules: r1 },
            ExecFlow::Warning { command: c2, machine: m2, machine_id: i2, account: u2, rules: r2 },
        ) => c1@ == c2@ && m1 == m2 && i1 == i2 && same_login(u1, u2) && r1@ == r2@,
        (
            ExecFlow::CountingFailures {
                command: c1,
                machine: m1,
                machine_id: i1,
                account: u1,
                rules: r1,
            },
            ExecFlow::CountingFailures {
                command: c2,
                machine: m2,
                machine_id: i2,
                account: u2,
                rules: r2,
            },
        ) => c1@ == c2@ && m1 == m2 && i1 == i2 && same_login(u1, u2) && r1@ == r2@,
        (
            ExecFlow::Waiting { command: c1, machine: m1, machine_id: i1, account: u1, rules: r1 },
            ExecFlow::Waiting { command: c2, machine: m2, machine_id: i2, account: u2, rules: r2 },
        ) => c1@ == c2@ && m1 == m2 && i1 == i2 && same_login(u1, u2) && r1@ == r2@,
        (
            ExecFlow::Running { command: c1, machine_id: i1, account: u1, rules: r1 },
            ExecFlow::Running { command: c2, machine_id: i2, account: u2, rules: r2 },
        ) => c1@ == c2@ && i1 == i2 && same_login(u1, u2) && r1@ == r2@,
        (ExecFlow::LoggingOutcome { outcome: o1 }, ExecFlow::LoggingOutcome { outcome: o2 }) =>
            outcome_view(o1) == outcome_view(o2),
        (ExecFlow::Finished, ExecFlow::Finished) => true,
        _ => false,
    }
}

/// Two events that are equal, but for the credential of an account found.
pub open spec fn events_alike(e: FlowEvent, f: FlowEvent) -> bool {
    match (e, f) {
        (FlowEvent::Account { account: Some(a) }, FlowEvent::Account { account: Some(b) }) =>
            same_login(a, b),
        _ => e == f,
    }
}

/// Two actions that agree in all but the credential handed to the SSH
/// session (which is present in both or in neither); a finish has the same
/// outcome, and a log entry the same contents.
pub open spec fn actions_alike(a: FlowAction, b: FlowAction) -> bool {
    match (a, b) {
        (FlowAction::OpenDatabase, FlowAction::OpenDatabase) => true,
        (FlowAction::FindMachine { alias: x }, FlowAction::FindMachine { alias: y }) => x@ == y@,
        (FlowAction::FindAccount { machine_id: x }, FlowAction::FindAccount { machine_id: y }) => x
            == y,
        (
            FlowAction::LoadConstraints { machine_id: x },
            FlowAction::LoadConstraints { machine_id: y },
        ) => x == y,
        (FlowAction::Log { entry: x }, FlowAction::Log { entry: y }) => {
            &&& x.machine_id == y.machine_id
            &&& x.username@ == y.username@
            &&& x.command@ == y.command@
            &&& x.stdout@ == y.stdout@
            &&& x.stderr@ == y.stderr@
            &&& x.exit_code == y.exit_code
        },
        (FlowAction::WarnCompanyMachine, FlowAction::WarnCompanyMachine) => true,
        (
            FlowAction::CountRecentFailures { machine_id: x, limit: l },
            FlowAction::CountRecentFailures { machine_id: y, limit: m },
        ) => x == y && l == m,
        (
            FlowAction::Wait { failures: x, seconds: u },
            FlowAction::Wait { failures: y, seconds: v },
        ) => x == y && u == v,
        (FlowAction::RunSsh { request: x }, FlowAction::RunSsh { request: y }) => {
            &&& x.host@ == y.host@
            &&& x.port == y.port
            &&& x.user@ == y.user@
            &&& x.command@ == y.command@
            &&& (x.key_path is Some) == (y.key_path is Some)
            &&& (x.password is Some) == (y.password is Some)
        },
        (FlowAction::Finish { outcome: x }, FlowAction::Finish { outcome: y }) => outcome_view(x)
            == outcome_view(y),
        _ => false,
    }
}

/// Calls with the same arguments begin alike.
pub proof fn law_alike_calls_begin_alike(args: ToolArguments, s: ExecFlow, a: FlowAction, t: ExecFlow, b: FlowAction)
    requires
        exec_begins(args, s, a),
        exec_begins(args, t, b),
    ensures
        exec_alike(s, t),
        actions_alike(a, b),
{
}

/// The stored credential stays hidden: two `ssh_exec` calls whose accounts
/// differ only in their credential, fed the same events, stay alike at every
/// step. Their log entries and their final outcomes are the same; the
/// credential reaches only the SSH session, never the result.
pub proof fn law_outcome_independent_of_credential(
    s: ExecFlow,
    e: FlowEvent,
    s2: ExecFlow,
    a: FlowAction,
    t: ExecFlow,
    f: FlowEvent,
    t2: ExecFlow,
    b: FlowAction,
)
    requires
        exec_alike(s, t),
        events_alike(e, f),
        exec_step(s, e, s2, a),
        exec_step(t, f, t2, b),
    ensures
        exec_alike(s2, t2),
        actions_alike(a, b),
{
}

/// A session is opened only for a command that passed its machine's rules,
/// and for no other command.
pub proof fn law_session_only_for_permitted_command(
    pre: ExecFlow,
    e: FlowEvent,
    post: ExecFlow,
    a: FlowAction,
)
    requires
        exec_checked(pre),
        exec_step(pre, e, post, a),
        a is RunSsh,
    ensures
        post matches ExecFlow::Running { command, rules, .. } && first_violation(rules@, command@)
            is None && a->request.command@ == command@,
{
}

/// A refused command is logged (no output, the violation as error text, exit
/// code -2), and then the call fails with that violation; no session is
/// opened.
pub proof fn law_refusal_logged_then_reported(
    command: String,
    machine: Machine,
    machine_id: i64,
    account: Account,
    rules: Vec<String>,
    s1: ExecFlow,
    a1: FlowAction,
    s2: ExecFlow,
    a2: FlowAction,
)
    requires
        exec_step(
            ExecFlow::LoadingConstraints { command, machine, machine_id, account },
            FlowEvent::Constraints { rules },
            s1,
            a1,
        ),
        first_violation(views(rules@), command@) is Some,
        exec_step(s1, FlowEvent::Completed, s2, a2),
    ensures
        a1 matches FlowAction::Log { entry } && logs(
            entry,
            machine_id,
            account,
            command@,
            Seq::empty(),
            "Constraint Violation: "@ + violation_message(first_violation(views(rules@), command@)->0),
            -2i32,
        ),
        a2 matches FlowAction::Finish { outcome: Err(ToolError::Refused { violation }) } && Some(
            violation@,
        ) == first_violation(views(rules@), command@),
        s2 is Finished,
{
}

/// Every session is logged before its result is reported, whether it ran
/// (its output and exit code are logged, and a non-zero exit code marks the
/// result as an error) or failed to connect (logged with exit code -1, and
/// the call fails).
pub proof fn law_session_logged_then_reported(
    command: String,
    machine_id: i64,
    account: Account,
    rules: Ghost<Seq<Seq<char>>>,
    outcome: Result<SshOutput, String>,
    s1: ExecFlow,
    a1: FlowAction,
    s2: ExecFlow,
    a2: FlowAction,
)
    requires
        exec_step(
            ExecFlow::Running { command, machine_id, account, rules },
            FlowEvent::Ssh { outcome },
            s1,
            a1,
        ),
        exec_step(s1, FlowEvent::Completed, s2, a2),
    ensures
        s2 is Finished,
        match outcome {
            Ok(out) => {
                &&& a1 matches FlowAction::Log { entry } && logs(
                    entry,
                    machine_id,
                    account,
                    command@,
                    out.stdout@,
                    out.stderr@,
                    out.exit_code,
                )
                &&& a2 matches FlowAction::Finish { outcome: Ok(o) } && o.text@ == session_text(
                    out.stdout@,
                    out.stderr@,
                ) && o.is_error == Some(out.exit_code != 0)
            },
            Err(detail) => {
                &&& a1 matches FlowAction::Log { entry } && logs(
                    entry,
                    machine_id,
                    account,
                    command@,
                    Seq::empty(),
                    "SSH Connection Error: "@ + detail@,
                    -1i32,
                )
                &&& a2 == FlowAction::Finish { outcome: Err(ToolError::SshFailed { detail }) }
            },
        },
{
}

/// Back-off: after counting recent failures the call waits only when there
/// were some, 2 to their number seconds (so each further failure doubles the
/// wait), and opens the session at once otherwise.
pub proof fn law_backoff(pre: ExecFlow, count: i32, post: ExecFlow, a: FlowAction)
    requires
        pre is CountingFailures,
        exec_step(pre, FlowEvent::RecentFailures { count }, post, a),
    ensures
        a is Wait <==> count > 0,
        a is RunSsh <==> count <= 0,
        a matches FlowAction::Wait { seconds, .. } ==> seconds == pow2(count as nat) && seconds == 2
            * pow2((count - 1) as nat),
{
    if count > 0 {
        lemma_pow2_unfold(count as nat);
    }
}

/// The rule lines of two lists of rules, one after the other, are the lines
/// of the first list followed by those of the second.
pub proof fn law_rule_lines_concat(a: Seq<Seq<char>>, b: Seq<Seq<char>>)
    ensures
        rule_lines(a + b) == rule_lines(a) + rule_lines(b),
    decreases b.len(),
{
    if b.len() == 0 {
        assert(a + b =~= a);
        assert(rule_lines(a) + rule_lines(b) =~= rule_lines(a));
    } else {
        assert((a + b).drop_last() =~= a + b.drop_last());
        law_rule_lines_concat(a, b.drop_last());
        assert(rule_lines(a + b) =~= rule_lines(a) + rule_lines(b));
    }
}

/// The part of a machine description that comes before its rule section:
/// everything but the no-rules line and the closing line of the description
/// without rules.
pub open spec fn host_info_head(machine: Machine) -> Seq<char> {
    let bare = host_info_text(machine, Seq::empty());
    bare.take(bare.len() - "- No specific rules defined.\n"@.len() - "--------------------------------------\n"@.len())
}

/// With at least one rule, the description lists the rules, one `- rule` line
/// each and in order, exactly where the description without rules has its
/// no-rules line; the rest of the text is the same.
pub proof fn law_host_info_lists_rules(machine: Machine, rules: Seq<Seq<char>>)
    requires
        rules.len() > 0,
    ensures
        host_info_text(machine, Seq::empty()) == host_info_head(machine)
            + "- No specific rules defined.\n"@ + "--------------------------------------\n"@,
        host_info_text(machine, rules) == host_info_head(machine) + rule_lines(rules)
            + "--------------------------------------\n"@,
{
    let head = "--- SSH CONTEXT (Internal Fallback) ---\n"@ + "Target Host: "@ + machine.name@ + "\n"@
        + "IP Address: "@ + machine.ip_address@ + "\n"@ + "OS Type: "@ + machine.os_type@ + "\n"@
        + "Purpose: "@ + machine.purpose@ + "\n"@ + "Ownership: "@ + machine.ownership@ + "\n"@
        + "\nCONSTRAINTS / RULES:\n"@;
    let none = "- No specific rules defined.\n"@;
    let footer = "--------------------------------------\n"@;
    let bare = host_info_text(machine, Seq::empty());
    assert(bare =~= head + none + footer);
    assert(bare.take(bare.len() - none.len() - footer.len()) =~= head);
    assert(host_info_text(machine, rules) =~= head + rule_lines(rules) + footer);
}

/// A machine with a single rule is described with that rule on a `- rule`
/// line where the description without rules says it has none.
pub proof fn law_host_info_single_rule(machine: Machine, rule: Seq<char>)
    ensures
        host_info_text(machine, seq![rule]) == host_info_head(machine) + "- "@ + rule + "\n"@
            + "--------------------------------------\n"@,
{
    law_host_info_lists_rules(machine, seq![rule]);
    let one = seq![rule];
    assert(one.drop_last() =~= Seq::<Seq<char>>::empty());
    assert(one.last() == rule);
    assert(rule_lines(one.drop_last()) == Seq::<char>::empty());
    assert(rule_lines(one) =~= "- "@ + rule + "\n"@);
}

/// One more rule adds one `- rule` line just before the closing line of a
/// description that already lists rules; nothing else changes.
pub proof fn law_host_info_one_more_rule(machine: Machine, rules: Seq<Seq<char>>, rule: Seq<char>)
    requires
        rules.len() > 0,
    ensures
        ({
            let t = host_info_text(machine, rules);
            let cut = t.len() - "--------------------------------------\n"@.len();
            &&& 0 <= cut
            &&& host_info_text(machine, rules.push(rule)) == t.take(cut) + "- "@ + rule + "\n"@ + t.skip(
                cut,
            )
        }),
{
    law_host_info_lists_rules(machine, rules);
    law_host_info_lists_rules(machine, rules.push(rule));
    let footer = "--------------------------------------\n"@;
    let t = host_info_text(machine, rules);
    let cut = t.len() - footer.len();
    assert(rules.push(rule).drop_last() =~= rules);
    assert(t.take(cut) =~= host_info_head(machine) + rule_lines(rules));
    assert(t.skip(cut) =~= footer);
    assert(host_info_text(machine, rules.push(rule)) =~= t.take(cut) + "- "@ + rule + "\n"@ + t.skip(cut));
}

} // verus!
