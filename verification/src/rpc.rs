//! The JSON-RPC side of the MCP server: which requests it answers, and the
//! shape of its replies. The JSON texts themselves are read and written by the
//! program around the library.

use vstd::prelude::*;
use crate::text::{concat2, owned, same_text};
use crate::tools::{tool_error_message, ToolArguments, ToolError, ToolOutput};

verus! {

#[verifier::external_type_specification]
#[verifier::external_body]
pub struct ExJsonValue(serde_json::Value);

/// The `params` of a `tools/call` request: the tool's name (when it is a
/// string) and its arguments (when present).
pub struct ToolCall {
    pub name: Option<String>,
    pub arguments: Option<ToolArguments>,
}

/// A request, as far as the server looks at it; `id` is carried back in the
/// reply unchanged.
pub struct RpcRequest {
    pub method: String,
    pub params: Option<ToolCall>,
    pub id: Option<serde_json::Value>,
}

/// What `initialize` answers: the protocol version, whether the server offers
/// tools (the `tools` capability), and the server's name and version.
pub struct ServerInfo {
    pub protocol_version: String,
    pub offers_tools: bool,
    pub name: String,
    pub version: String,
}

/// One input property of a tool: its name, JSON type and description.
pub struct ToolParam {
    pub name: String,
    pub kind: String,
    pub description: String,
}

/// The definition of a tool: name, description, and input schema (its JSON
/// type, properties and required properties).
pub struct ToolDefinition {
    pub name: String,
    pub description: String,
    pub input_kind: String,
    pub params: Vec<ToolParam>,
    pub required: Vec<String>,
}

/// A successful result.
pub enum RpcResult {
    /// The server's protocol version, capabilities and identity.
    Initialize { info: ServerInfo },
    /// `null`.
    Empty,
    /// The definitions of the tools.
    ToolList { tools: Vec<ToolDefinition> },
    /// What a tool returned.
    Tool { output: ToolOutput },
}

/// An error object: its code and message.
pub struct RpcError {
    pub code: i64,
    pub message: String,
}

/// A reply: the protocol tag, the request's id, and a result or an error.
pub struct RpcReply {
    pub jsonrpc: String,
    pub id: Option<serde_json::Value>,
    pub result: Option<RpcResult>,
    pub error: Option<RpcError>,
}

/// What to do with a request: answer it right away, or run a tool and answer
/// the request with this id.
pub enum Dispatch {
    Reply { reply: RpcReply },
    SshExec { arguments: ToolArguments, id: Option<serde_json::Value> },
    GetHostInfo { arguments: ToolArguments, id: Option<serde_json::Value> },
}

// ---------------------------------------------------------------------------
// Server identity and tool definitions
// ---------------------------------------------------------------------------

/// The answer to `initialize`.
pub open spec fn is_server_info(i: ServerInfo) -> bool {
    &&& i.protocol_version@ == "2024-11-05"@
    &&& i.offers_tools
    &&& i.name@ == "mcp-ssh"@
    &&& i.version@ == "0.3.0"@
}

/// A string property with this name and description.
pub open spec fn is_param(p: ToolParam, name: Seq<char>, description: Seq<char>) -> bool {
    &&& p.name@ == name
    &&& p.kind@ == "string"@
    &&& p.description@ == description
}

/// The views of a list of strings are `texts`.
pub open spec fn texts_are(v: Seq<String>, texts: Seq<Seq<char>>) -> bool {
    &&& v.len() == texts.len()
    &&& forall|i: int| 0 <= i < v.len() ==> #[trigger] v[i]@ == texts[i]
}

/// The definition of `ssh_exec`: an alias and a command, both required.
pub open spec fn is_ssh_exec_tool(t: ToolDefinition) -> bool {
    &&& t.name@ == "ssh_exec"@
    &&& t.description@ == "Execute a command on a remote host via SSH (alias required)."@
    &&& t.input_kind@ == "object"@
    &&& t.params@.len() == 2
    &&& is_param(t.params@[0], "alias"@, "Machine alias registered in mcp-ssh-manager"@)
    &&& is_param(t.params@[1], "command"@, "The command to execute"@)
    &&& texts_are(t.required@, seq!["alias"@, "command"@])
}

/// The definition of `get_host_info`: an alias, required.
pub open spec fn is_host_info_tool(t: ToolDefinition) -> bool {
    &&& t.name@ == "get_host_info"@
    &&& t.description@
        == "Get detailed context and rules for a strict SSH host by alias. Use this BEFORE connecting to understand constraints."@
    &&& t.input_kind@ == "object"@
    &&& t.params@.len() == 1
    &&& is_param(t.params@[0], "alias"@, "Machine alias"@)
    &&& texts_are(t.required@, seq!["alias"@])
}

/// The answer to `tools/list`: `ssh_exec`, then `get_host_info`.
pub open spec fn is_tool_list(tools: Seq<ToolDefinition>) -> bool {
    &&& tools.len() == 2
    &&& is_ssh_exec_tool(tools[0])
    &&& is_host_info_tool(tools[1])
}

/// The server's protocol version, capabilities and identity.
pub fn server_info() -> (i: ServerInfo)
    ensures
        is_server_info(i),
{
    ServerInfo {
        protocol_version: owned("2024-11-05"),
        offers_tools: true,
        name: owned("mcp-ssh"),
        version: owned("0.3.0"),
    }
}

fn param(name: &str, description: &str) -> (p: ToolParam)
    ensures
        is_param(p, name@, description@),
{
    ToolParam { name: owned(name), kind: owned("string"), description: owned(description) }
}

/// The definitions of the two tools.
pub fn tool_definitions() -> (tools: Vec<ToolDefinition>)
    ensures
        is_tool_list(tools@),
{
    let mut exec_params = Vec::new();
    exec_params.push(param("alias", "Machine alias registered in mcp-ssh-manager"));
    exec_params.push(param("command", "The command to execute"));
    let mut exec_required = Vec::new();
    exec_required.push(owned("alias"));
    exec_required.push(owned("command"));
    let ssh_exec = ToolDefinition {
        name: owned("ssh_exec"),
        description: owned("Execute a command on a remote host via SSH (alias required)."),
        input_kind: owned("object"),
        params: exec_params,
        required: exec_required,
    };
    let mut info_params = Vec::new();
    info_params.push(param("alias", "Machine alias"));
    let mut info_required = Vec::new();
    info_required.push(owned("alias"));
    let host_info = ToolDefinition {
        name: owned("get_host_info"),
        description: owned(
            "Get detailed context and rules for a strict SSH host by alias. Use this BEFORE connecting to understand constraints.",
        ),
        input_kind: owned("object"),
        params: info_params,
        required: info_required,
    };
    let mut tools = Vec::new();
    tools.push(ssh_exec);
    tools.push(host_info);
    tools
}

// ---------------------------------------------------------------------------
// Replies
// ---------------------------------------------------------------------------

/// The message of a request for a method the server does not have.
pub open spec fn method_not_found() -> Seq<char> {
    "Method not found"@
}

/// The error code of a failed request: "method not found" for exactly that
/// message, "internal error" for any other.
pub open spec fn code_for(message: Seq<char>) -> i64 {
    if message == method_not_found() {
        -32601i64
    } else {
        -32603i64
    }
}

/// A reply carries the `2.0` tag, the request's id, and a result or an
/// error, never both.
pub open spec fn well_formed(r: RpcReply, id: Option<serde_json::Value>) -> bool {
    &&& r.jsonrpc@ == "2.0"@
    &&& r.id == id
    &&& r.result is Some != r.error is Some
}

/// The reply to a request that failed with `message`.
pub open spec fn is_error_reply(r: RpcReply, message: Seq<char>) -> bool {
    &&& r.result is None
    &&& r.error matches Some(e) && e.code == code_for(message) && e.message@ == message
}

/// The error code for a failure message.
pub fn error_code(message: &str) -> (code: i64)
    ensures
        code == code_for(message@),
{
    if same_text(message, "Method not found") {
        -32601
    } else {
        -32603
    }
}

/// The reply to the request with this id, given its outcome.
pub fn reply(id: Option<serde_json::Value>, outcome: Result<RpcResult, String>) -> (r: RpcReply)
    ensures
        well_formed(r, id),
        match outcome {
            Ok(v) => r.result == Some(v) && r.error is None,
            Err(m) => is_error_reply(r, m@),
        },
{
    let jsonrpc = owned("2.0");
    match outcome {
        Ok(v) => RpcReply { jsonrpc, id, result: Some(v), error: None },
        Err(message) => {
            let code = error_code(message.as_str());
            RpcReply { jsonrpc, id, result: None, error: Some(RpcError { code, message }) }
        },
    }
}

/// The reply to a tool call with this id, given the tool's outcome.
pub fn tool_reply(id: Option<serde_json::Value>, outcome: Result<ToolOutput, ToolError>) -> (r: RpcReply)
    ensures
        well_formed(r, id),
        match outcome {
            Ok(out) => r.result == Some(RpcResult::Tool { output: out }) && r.error is None,
            Err(e) => is_error_reply(r, tool_error_message(e)),
        },
{
    match outcome {
        Ok(output) => reply(id, Ok(RpcResult::Tool { output })),
        Err(e) => reply(id, Err(e.message())),
    }
}

/// The reply to a line that is not a request: no id, code -32700,
/// `Parse error: ` and the parser's explanation.
pub fn parse_error_reply(detail: &str) -> (r: RpcReply)
    ensures
        well_formed(r, None),
        r.result is None,
        r.error matches Some(e) && e.code == -32700 && e.message@ == "Parse error: "@ + detail@,
{
    RpcReply {
        jsonrpc: owned("2.0"),
        id: None,
        result: None,
        error: Some(RpcError { code: -32700, message: concat2("Parse error: ", detail) }),
    }
}

/// How a request is dispatched: by its method, and for `tools/call` by the
/// tool's name (which needs arguments). Every reply answers the request's id.
pub open spec fn dispatches(req: RpcRequest, d: Dispatch) -> bool {
    let m = req.method@;
    let answered = d matches Dispatch::Reply { reply } && well_formed(reply, req.id);
    if m == "initialize"@ {
        answered && (d matches Dispatch::Reply { reply } && reply.result matches Some(
            RpcResult::Initialize { info },
        ) && is_server_info(info) && reply.error is None)
    } else if m == "notifications/initialized"@ {
        answered && (d matches Dispatch::Reply { reply } && reply.result == Some(RpcResult::Empty)
            && reply.error is None)
    } else if m == "tools/list"@ {
        answered && (d matches Dispatch::Reply { reply } && reply.result matches Some(
            RpcResult::ToolList { tools },
        ) && is_tool_list(tools@) && reply.error is None)
    } else if m == "tools/call"@ {
        match req.params {
            None => answered && (d matches Dispatch::Reply { reply } && is_error_reply(
                reply,
                "Missing params for tools/call"@,
            )),
            Some(call) => match (call.name, call.arguments) {
                (Some(name), Some(args)) => if name@ == "ssh_exec"@ {
                    d == Dispatch::SshExec { arguments: args, id: req.id }
                } else if name@ == "get_host_info"@ {
                    d == Dispatch::GetHostInfo { arguments: args, id: req.id }
                } else {
                    answered && (d matches Dispatch::Reply { reply } && is_error_reply(
                        reply,
                        "Unknown tool or missing arguments"@,
                    ))
                },
                _ => answered && (d matches Dispatch::Reply { reply } && is_error_reply(
                    reply,
                    "Unknown tool or missing arguments"@,
                )),
            },
        }
    } else {
        answered && (d matches Dispatch::Reply { reply } && is_error_reply(reply, method_not_found()))
    }
}

fn refuse(id: Option<serde_json::Value>, message: &str) -> (d: Dispatch)
    ensures
        d matches Dispatch::Reply { reply } && well_formed(reply, id) && is_error_reply(
            reply,
            message@,
        ),
{
    Dispatch::Reply { reply: reply(id, Err(owned(message))) }
}

/// Decides what to do with a request.
pub fn handle_request(req: RpcRequest) -> (d: Dispatch)
    ensures
        dispatches(req, d),
{
    let RpcRequest { method, params, id } = req;
    let method = method.as_str();
    if same_text(method, "initialize") {
        Dispatch::Reply { reply: reply(id, Ok(RpcResult::Initialize { info: server_info() })) }
    } else if same_text(method, "notifications/initialized") {
        Dispatch::Reply { reply: reply(id, Ok(RpcResult::Empty)) }
    } else if same_text(method, "tools/list") {
        Dispatch::Reply { reply: reply(id, Ok(RpcResult::ToolList { tools: tool_definitions() })) }
    } else if same_text(method, "tools/call") {
        match params {
            None => refuse(id, "Missing params for tools/call"),
            Some(call) => match (call.name, call.arguments) {
                (Some(name), Some(args)) => {
                    if same_text(name.as_str(), "ssh_exec") {
                        Dispatch::SshExec { arguments: args, id }
                    } else if same_text(name.as_str(), "get_host_info") {
                        Dispatch::GetHostInfo { arguments: args, id }
                    } else {
                        refuse(id, "Unknown tool or missing arguments")
                    }
                },
                _ => refuse(id, "Unknown tool or missing arguments"),
            },
        }
    } else {
        refuse(id, "Method not found")
    }
}

// ---------------------------------------------------------------------------
// Laws
// ---------------------------------------------------------------------------

/// A request for a method the server does not have is answered with the
/// "method not found" error, code -32601.
pub proof fn law_unknown_method_not_found(req: RpcRequest, d: Dispatch)
    requires
        dispatches(req, d),
        req.method@ != "initialize"@,
        req.method@ != "notifications/initialized"@,
        req.method@ != "tools/list"@,
        req.method@ != "tools/call"@,
    ensures
        d matches Dispatch::Reply { reply } && reply.result is None && (reply.error matches Some(e)
            && e.code == -32601 && e.message@ == method_not_found()),
{
}

/// Any failure other than "method not found" is reported as an internal
/// error, code -32603; so is every failure of a tool call whose message
/// differs from it.
pub proof fn law_failures_are_internal_errors(message: Seq<char>)
    requires
        message != method_not_found(),
    ensures
        code_for(message) == -32603,
{
}

} // verus!
