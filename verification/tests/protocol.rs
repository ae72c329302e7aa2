use mcp_ssh::rpc::{
    error_code, handle_request, parse_error_reply, reply, server_info, tool_definitions,
    tool_reply, Dispatch, RpcReply, RpcRequest, RpcResult, ToolCall,
};
use serde_json::Value;
use mcp_ssh::ssh_auth::{AuthMethod, AuthPlan, AuthStep};
use mcp_ssh::tools::{ToolArguments, ToolError, ToolOutput};

fn request(method: &str, params: Option<ToolCall>) -> RpcRequest {
    RpcRequest { method: method.to_string(), params, id: Some(Value::from(1)) }
}

fn call(name: Option<&str>, with_args: bool) -> Option<ToolCall> {
    Some(ToolCall {
        name: name.map(|n| n.to_string()),
        arguments: if with_args {
            Some(ToolArguments { alias: Some("web".to_string()), command: Some("ls".to_string()) })
        } else {
            None
        },
    })
}

fn error_of(d: Dispatch) -> (i64, String) {
    match d {
        Dispatch::Reply { reply: RpcReply { result: None, error: Some(e), id, jsonrpc } } => {
            assert_eq!(id, Some(Value::from(1)));
            assert_eq!(jsonrpc, "2.0");
            (e.code, e.message)
        }
        _ => panic!("expected an error reply"),
    }
}

#[test]
fn fixed_methods_are_answered() {
    match handle_request(request("initialize", None)) {
        Dispatch::Reply { reply: RpcReply { result: Some(RpcResult::Initialize { info }), error: None, id, jsonrpc } } => {
            assert_eq!(info.protocol_version, "2024-11-05");
            assert!(info.offers_tools);
            assert_eq!(info.name, "mcp-ssh");
            assert_eq!(info.version, "0.3.0");
            assert_eq!(id, Some(Value::from(1)));
            assert_eq!(jsonrpc, "2.0");
        }
        _ => panic!("expected the server info"),
    }
    assert!(matches!(
        handle_request(request("notifications/initialized", None)),
        Dispatch::Reply { reply: RpcReply { result: Some(RpcResult::Empty), error: None, .. } }
    ));
    match handle_request(request("tools/list", None)) {
        Dispatch::Reply { reply: RpcReply { result: Some(RpcResult::ToolList { tools }), error: None, .. } } => {
            let names: Vec<&str> = tools.iter().map(|t| t.name.as_str()).collect();
            assert_eq!(names, vec!["ssh_exec", "get_host_info"]);
        }
        _ => panic!("expected the tool list"),
    }
}

#[test]
fn tool_definitions_match_the_specification() {
    let tools = tool_definitions();
    let exec = &tools[0];
    assert_eq!(exec.description, "Execute a command on a remote host via SSH (alias required).");
    assert_eq!(exec.input_kind, "object");
    assert_eq!(exec.required, vec!["alias", "command"]);
    assert_eq!(exec.params[0].name, "alias");
    assert_eq!(exec.params[0].kind, "string");
    assert_eq!(exec.params[0].description, "Machine alias registered in mcp-ssh-manager");
    assert_eq!(exec.params[1].name, "command");
    assert_eq!(exec.params[1].description, "The command to execute");
    let info = &tools[1];
    assert_eq!(info.name, "get_host_info");
    assert!(info.description.starts_with("Get detailed context and rules for a strict SSH host by alias."));
    assert_eq!(info.input_kind, "object");
    assert_eq!(info.required, vec!["alias"]);
    assert_eq!(info.params.len(), 1);
    assert_eq!(info.params[0].kind, "string");
    assert_eq!(server_info().name, "mcp-ssh");
}

#[test]
fn unknown_method_is_not_found() {
    assert_eq!(error_of(handle_request(request("resources/list", None))), (-32601, "Method not found".to_string()));
}

#[test]
fn tool_calls_are_dispatched() {
    match handle_request(request("tools/call", call(Some("ssh_exec"), true))) {
        Dispatch::SshExec { arguments, id } => {
            assert_eq!(arguments.command.as_deref(), Some("ls"));
            assert_eq!(id, Some(Value::from(1)));
        }
        _ => panic!("expected ssh_exec"),
    }
    match handle_request(request("tools/call", call(Some("get_host_info"), true))) {
        Dispatch::GetHostInfo { arguments, .. } => assert_eq!(arguments.alias.as_deref(), Some("web")),
        _ => panic!("expected get_host_info"),
    }
}

#[test]
fn bad_tool_calls_are_internal_errors() {
    assert_eq!(
        error_of(handle_request(request("tools/call", None))),
        (-32603, "Missing params for tools/call".to_string())
    );
    for p in [call(Some("format_disk"), true), call(Some("ssh_exec"), false), call(None, true)] {
        assert_eq!(
            error_of(handle_request(request("tools/call", p))),
            (-32603, "Unknown tool or missing arguments".to_string())
        );
    }
}

#[test]
fn error_codes() {
    assert_eq!(error_code("Method not found"), -32601);
    assert_eq!(error_code("Method not found."), -32603);
    assert_eq!(error_code(""), -32603);
}

#[test]
fn replies_carry_result_or_error() {
    let r = reply(Some(Value::from("a")), Ok(RpcResult::Empty));
    assert!(r.result.is_some() && r.error.is_none());
    assert_eq!(r.id, Some(Value::from("a")));
    let r = reply(None, Err("Method not found".to_string()));
    assert!(r.result.is_none());
    assert_eq!(r.error.map(|e| e.code), Some(-32601));
    let r = tool_reply(None, Err(ToolError::NoAccount { alias: "w".to_string() }));
    let e = r.error.unwrap();
    assert_eq!((e.code, e.message.as_str()), (-32603, "No account found for machine 'w'"));
    let r = tool_reply(Some(Value::from(7)), Ok(ToolOutput { text: "t".to_string(), is_error: None }));
    assert!(matches!(r.result, Some(RpcResult::Tool { .. })));
    assert!(r.error.is_none());
    assert_eq!(r.id, Some(Value::from(7)));
    assert_eq!(r.jsonrpc, "2.0");
}

#[test]
fn parse_errors() {
    let r = parse_error_reply("expected value at line 1 column 1");
    assert!(r.result.is_none());
    assert!(r.id.is_none());
    assert_eq!(r.jsonrpc, "2.0");
    let e = r.error.unwrap();
    assert_eq!(e.code, -32700);
    assert_eq!(e.message, "Parse error: expected value at line 1 column 1");
}

fn attempt_kind(s: &AuthStep) -> &'static str {
    match s {
        AuthStep::Attempt { method: AuthMethod::PublicKey { .. } } => "key",
        AuthStep::Attempt { method: AuthMethod::Agent } => "agent",
        AuthStep::Attempt { method: AuthMethod::Password { .. } } => "password",
        AuthStep::Authenticated => "done",
        AuthStep::Refused { .. } => "refused",
    }
}

fn failing_run(key: Option<&str>, password: Option<&str>) -> (Vec<&'static str>, String) {
    let (mut plan, mut step) = AuthPlan::start(
        "10.0.0.5".to_string(),
        "deploy".to_string(),
        key.map(|k| k.to_string()),
        password.map(|p| p.to_string()),
    );
    let mut tried = Vec::new();
    loop {
        match step {
            AuthStep::Refused { message } => return (tried, message),
            AuthStep::Authenticated => panic!("nothing succeeded"),
            AuthStep::Attempt { .. } => {
                tried.push(attempt_kind(&step));
                let (p, s) = plan.step(false);
                plan = p;
                step = s;
            }
        }
    }
}

#[test]
fn auth_falls_back_key_agent_password() {
    let (tried, message) = failing_run(Some("/k"), Some("pw"));
    assert_eq!(tried, vec!["key", "agent", "password"]);
    assert_eq!(message, "Authentication failed for deploy@10.0.0.5");
    assert_eq!(failing_run(None, Some("pw")).0, vec!["agent", "password"]);
    assert_eq!(failing_run(Some("/k"), None).0, vec!["key", "agent"]);
    assert_eq!(failing_run(None, None).0, vec!["agent"]);
}

#[test]
fn auth_stops_at_first_success() {
    let (plan, step) = AuthPlan::start("h".to_string(), "u".to_string(), Some("/k".to_string()), Some("pw".to_string()));
    match &step {
        AuthStep::Attempt { method: AuthMethod::PublicKey { key_path } } => assert_eq!(key_path, "/k"),
        _ => panic!("expected the key first"),
    }
    let (plan, step) = plan.step(false);
    assert_eq!(attempt_kind(&step), "agent");
    let (plan, step) = plan.step(false);
    match &step {
        AuthStep::Attempt { method: AuthMethod::Password { password } } => assert_eq!(password, "pw"),
        _ => panic!("expected the password"),
    }
    let (_, step) = plan.step(true);
    assert!(matches!(step, AuthStep::Authenticated));
}
