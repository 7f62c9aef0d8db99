//! The JSON-RPC 2.0 response model: result and error shapes, the fixed
//! result payloads the server answers with, and the structural encoding
//! of a response as a JSON object.
use vstd::prelude::*;
use vstd::string::StringExecFns;
use crate::json::JsonValue;

verus! {

/// A protocol-level error: a reserved code, a message, optional data.
pub struct McpError {
    pub code: i32,
    pub message: String,
    pub data: Option<JsonValue>,
}

/// One outbound JSON-RPC 2.0 response: exactly one of a result or an
/// error, echoing the originating request's id (null when none could
/// be determined).
pub enum McpResponse {
    Success { result: JsonValue, id: Option<JsonValue> },
    Failure { error: McpError, id: Option<JsonValue> },
}

impl McpResponse {
    /// The id this response echoes.
    pub open spec fn spec_id(self) -> Option<JsonValue> {
        match self {
            McpResponse::Success { id, .. } => id,
            McpResponse::Failure { id, .. } => id,
        }
    }
}

/// A member pair of a JSON object under construction.
fn pair(k: &str, v: JsonValue) -> (r: (String, JsonValue))
    ensures
        r.0@ == k@,
        r.1 == v,
{
    (k.to_owned(), v)
}

/// A JSON string value.
fn jstr(s: &str) -> (r: JsonValue)
    ensures
        r matches JsonValue::Str(x) && x@ == s@,
{
    JsonValue::Str(s.to_owned())
}

/// The fixed server descriptor `initialize` answers with.
pub open spec fn is_initialize_result(v: JsonValue) -> bool {
    &&& v matches JsonValue::Obj(m)
    &&& m@.len() == 3
    &&& m@[0].0@ == "protocolVersion"@
    &&& m@[0].1 matches JsonValue::Str(pv) && pv@ == "2024-11-05"@
    &&& m@[1].0@ == "serverInfo"@
    &&& is_server_info(m@[1].1)
    &&& m@[2].0@ == "capabilities"@
    &&& is_capabilities(m@[2].1)
}

/// The fixed server name and version.
pub open spec fn is_server_info(v: JsonValue) -> bool {
    &&& v matches JsonValue::Obj(m)
    &&& m@.len() == 2
    &&& m@[0].0@ == "name"@
    &&& m@[0].1 matches JsonValue::Str(n) && n@ == "telegram-notification-mcp"@
    &&& m@[1].0@ == "version"@
    &&& m@[1].1 matches JsonValue::Str(ver) && ver@ == "0.1.0"@
}

/// The fixed capabilities object: a `tools` capability and nothing else.
pub open spec fn is_capabilities(v: JsonValue) -> bool {
    &&& v matches JsonValue::Obj(m)
    &&& m@.len() == 1
    &&& m@[0].0@ == "tools"@
    &&& m@[0].1 matches JsonValue::Obj(t) && t@.len() == 0
}

/// The JSON-Schema-shaped contract of the one tool's `message` field.
pub open spec fn is_message_schema(v: JsonValue) -> bool {
    &&& v matches JsonValue::Obj(m)
    &&& m@.len() == 2
    &&& m@[0].0@ == "type"@
    &&& m@[0].1 matches JsonValue::Str(t) && t@ == "string"@
    &&& m@[1].0@ == "description"@
    &&& m@[1].1 matches JsonValue::Str(d) && d@
        == "The notification message to send. Include relevant context like: what task completed, what error occurred, what input is needed, etc."@
}

/// The input contract of the one tool: an object with a required string
/// field `message` and no other properties.
pub open spec fn is_input_schema(v: JsonValue) -> bool {
    &&& v matches JsonValue::Obj(m)
    &&& m@.len() == 4
    &&& m@[0].0@ == "type"@
    &&& m@[0].1 matches JsonValue::Str(t) && t@ == "object"@
    &&& m@[1].0@ == "properties"@
    &&& m@[1].1 matches JsonValue::Obj(p) && p@.len() == 1 && p@[0].0@ == "message"@
        && is_message_schema(p@[0].1)
    &&& m@[2].0@ == "required"@
    &&& m@[2].1 matches JsonValue::Arr(req) && req@.len() == 1 && (req@[0] matches JsonValue::Str(
        r,
    ) && r@ == "message"@)
    &&& m@[3].0@ == "additionalProperties"@
    &&& m@[3].1 == JsonValue::Bool(false)
}

/// The catalog entry of the one callable tool.
pub open spec fn is_tool_descriptor(v: JsonValue) -> bool {
    &&& v matches JsonValue::Obj(m)
    &&& m@.len() == 3
    &&& m@[0].0@ == "name"@
    &&& m@[0].1 matches JsonValue::Str(n) && n@ == "notify_telegram"@
    &&& m@[1].0@ == "description"@
    &&& m@[1].1 matches JsonValue::Str(d) && d@
        == "Send a notification to Telegram. Use this when: task completes, error occurs, user input needed, or any important status update."@
    &&& m@[2].0@ == "inputSchema"@
    &&& is_input_schema(m@[2].1)
}

/// The fixed single-element tool catalog `tools/list` answers with.
pub open spec fn is_tools_list_result(v: JsonValue) -> bool {
    &&& v matches JsonValue::Obj(m)
    &&& m@.len() == 1
    &&& m@[0].0@ == "tools"@
    &&& m@[0].1 matches JsonValue::Arr(ts) && ts@.len() == 1 && is_tool_descriptor(ts@[0])
}

/// The fixed content block a successful tool call answers with.
pub open spec fn is_tool_call_success_result(v: JsonValue) -> bool {
    &&& v matches JsonValue::Obj(m)
    &&& m@.len() == 1
    &&& m@[0].0@ == "content"@
    &&& m@[0].1 matches JsonValue::Arr(c) && c@.len() == 1 && (c@[0] matches JsonValue::Obj(b)
        && b@.len() == 2 && b@[0].0@ == "type"@ && (b@[0].1 matches JsonValue::Str(t) && t@
        == "text"@) && b@[1].0@ == "text"@ && (b@[1].1 matches JsonValue::Str(x) && x@
        == "Notification sent successfully"@))
}

/// An empty JSON object.
pub open spec fn is_empty_object(v: JsonValue) -> bool {
    v matches JsonValue::Obj(m) && m@.len() == 0
}

/// Builds the fixed server descriptor.
pub fn initialize_result() -> (r: JsonValue)
    ensures
        is_initialize_result(r),
{
    let mut server_info: Vec<(String, JsonValue)> = Vec::new();
    server_info.push(pair("name", jstr("telegram-notification-mcp")));
    server_info.push(pair("version", jstr("0.1.0")));
    let mut caps: Vec<(String, JsonValue)> = Vec::new();
    caps.push(pair("tools", JsonValue::Obj(Vec::new())));
    let mut m: Vec<(String, JsonValue)> = Vec::new();
    m.push(pair("protocolVersion", jstr("2024-11-05")));
    m.push(pair("serverInfo", JsonValue::Obj(server_info)));
    m.push(pair("capabilities", JsonValue::Obj(caps)));
    JsonValue::Obj(m)
}

/// Builds the fixed tool catalog.
pub fn tools_list_result() -> (r: JsonValue)
    ensures
        is_tools_list_result(r),
{
    let mut msg_schema: Vec<(String, JsonValue)> = Vec::new();
    msg_schema.push(pair("type", jstr("string")));
    msg_schema.push(
        pair(
            "description",
            jstr(
                "The notification message to send. Include relevant context like: what task completed, what error occurred, what input is needed, etc.",
            ),
        ),
    );
    let mut props: Vec<(String, JsonValue)> = Vec::new();
    props.push(pair("message", JsonValue::Obj(msg_schema)));
    let mut required: Vec<JsonValue> = Vec::new();
    required.push(jstr("message"));
    let mut schema: Vec<(String, JsonValue)> = Vec::new();
    schema.push(pair("type", jstr("object")));
    schema.push(pair("properties", JsonValue::Obj(props)));
    schema.push(pair("required", JsonValue::Arr(required)));
    schema.push(pair("additionalProperties", JsonValue::Bool(false)));
    let mut tool: Vec<(String, JsonValue)> = Vec::new();
    tool.push(pair("name", jstr("notify_telegram")));
    tool.push(
        pair(
            "description",
            jstr(
                "Send a notification to Telegram. Use this when: task completes, error occurs, user input needed, or any important status update.",
            ),
        ),
    );
    tool.push(pair("inputSchema", JsonValue::Obj(schema)));
    let mut tools: Vec<JsonValue> = Vec::new();
    tools.push(JsonValue::Obj(tool));
    let mut m: Vec<(String, JsonValue)> = Vec::new();
    m.push(pair("tools", JsonValue::Arr(tools)));
    JsonValue::Obj(m)
}

/// Builds the fixed content block of a successful tool call.
pub fn tool_call_success_result() -> (r: JsonValue)
    ensures
        is_tool_call_success_result(r),
{
    let mut block: Vec<(String, JsonValue)> = Vec::new();
    block.push(pair("type", jstr("text")));
    block.push(pair("text", jstr("Notification sent successfully")));
    let mut content: Vec<JsonValue> = Vec::new();
    content.push(JsonValue::Obj(block));
    let mut m: Vec<(String, JsonValue)> = Vec::new();
    m.push(pair("content", JsonValue::Arr(content)));
    JsonValue::Obj(m)
}

/// The id member a response is encoded with: the echoed id, or null
/// when none was determined.
pub open spec fn spec_id_json(id: Option<JsonValue>) -> JsonValue {
    match id {
        Some(v) => v,
        None => JsonValue::Null,
    }
}

/// The encoded error object of a failure response: code, message, and
/// the data member only when data is present.
pub open spec fn is_error_json(e: JsonValue, err: McpError) -> bool {
    &&& e.spec_get("code"@) == Some(JsonValue::Int(err.code as i64))
    &&& e.spec_get("message"@) matches Some(JsonValue::Str(s)) && s@ == err.message@
    &&& match err.data {
        Some(d) => e.spec_get("data"@) == Some(d),
        None => !e.spec_has_key("data"@),
    }
}

/// Encodes a response as a JSON object: the protocol tag, exactly one
/// of `result`/`error`, and the echoed id (null when absent).
pub fn response_to_json(resp: McpResponse) -> (j: JsonValue)
    ensures
        j.spec_get("jsonrpc"@) matches Some(JsonValue::Str(t)) && t@ == "2.0"@,
        j.spec_has_key("result"@) <==> resp is Success,
        j.spec_has_key("error"@) <==> resp is Failure,
        j.spec_get("id"@) == Some(spec_id_json(resp.spec_id())),
        resp matches McpResponse::Success { result, .. } ==> j.spec_get("result"@) == Some(result),
        resp matches McpResponse::Failure { error, .. } ==> (j.spec_get("error"@) matches Some(e)
            && is_error_json(e, error)),
{
    proof {
        reveal_strlit("jsonrpc");
        reveal_strlit("result");
        reveal_strlit("error");
        reveal_strlit("id");
        reveal_strlit("code");
        reveal_strlit("message");
        reveal_strlit("data");
    }
    match resp {
        McpResponse::Success { result, id } => {
            let id_json = id_to_json(id);
            let mut m: Vec<(String, JsonValue)> = Vec::new();
            m.push(pair("jsonrpc", jstr("2.0")));
            m.push(pair("result", result));
            m.push(pair("id", id_json));
            let j = JsonValue::Obj(m);
            proof {
                lemma_response_members(m@);
            }
            j
        },
        McpResponse::Failure { error, id } => {
            let id_json = id_to_json(id);
            let code64: i64 = error.code as i64;
            let mut e: Vec<(String, JsonValue)> = Vec::new();
            e.push(pair("code", JsonValue::Int(code64)));
            e.push((String::from_str("message"), JsonValue::Str(error.message)));
            match error.data {
                Some(d) => {
                    e.push(pair("data", d));
                    proof {
                        lemma_error_members(e@, true);
                    }
                },
                None => {
                    proof {
                        lemma_error_members(e@, false);
                    }
                },
            }
            let e_json = JsonValue::Obj(e);
            let mut m: Vec<(String, JsonValue)> = Vec::new();
            m.push(pair("jsonrpc", jstr("2.0")));
            m.push(pair("error", e_json));
            m.push(pair("id", id_json));
            let j = JsonValue::Obj(m);
            proof {
                lemma_response_members(m@);
            }
            j
        },
    }
}

/// The echoed id as a JSON value, null standing for an absent id.
fn id_to_json(id: Option<JsonValue>) -> (r: JsonValue)
    ensures
        r == spec_id_json(id),
{
    match id {
        Some(v) => v,
        None => JsonValue::Null,
    }
}

/// Key lookups on the three fixed members of an encoded response.
proof fn lemma_response_members(m: Seq<(String, JsonValue)>)
    requires
        m.len() == 3,
        m[0].0@ == "jsonrpc"@,
        m[2].0@ == "id"@,
        m[1].0@ == "result"@ || m[1].0@ == "error"@,
    ensures
        JsonValue::spec_first_val(m, "jsonrpc"@) == Some(m[0].1),
        JsonValue::spec_first_val(m, m[1].0@) == Some(m[1].1),
        JsonValue::spec_first_val(m, "id"@) == Some(m[2].1),
        m[1].0@ == "result"@ ==> JsonValue::spec_first_val(m, "error"@) is None,
        m[1].0@ == "error"@ ==> JsonValue::spec_first_val(m, "result"@) is None,
{
    reveal_strlit("jsonrpc");
    reveal_strlit("result");
    reveal_strlit("error");
    reveal_strlit("id");
    assert("jsonrpc"@.len() == 7 && "result"@.len() == 6 && "error"@.len() == 5 && "id"@.len()
        == 2);
    JsonValue::lemma_first_val_found(m, "jsonrpc"@, 0);
    JsonValue::lemma_first_val_found(m, m[1].0@, 1);
    JsonValue::lemma_first_val_found(m, "id"@, 2);
    if m[1].0@ == "result"@ {
        JsonValue::lemma_first_val_absent(m, "error"@);
    } else {
        JsonValue::lemma_first_val_absent(m, "result"@);
    }
}

/// Key lookups on the members of an encoded error object.
proof fn lemma_error_members(e: Seq<(String, JsonValue)>, has_data: bool)
    requires
        e.len() == if has_data {
            3int
        } else {
            2int
        },
        e[0].0@ == "code"@,
        e[1].0@ == "message"@,
        has_data ==> e[2].0@ == "data"@,
    ensures
        JsonValue::spec_first_val(e, "code"@) == Some(e[0].1),
        JsonValue::spec_first_val(e, "message"@) == Some(e[1].1),
        has_data ==> JsonValue::spec_first_val(e, "data"@) == Some(e[2].1),
        !has_data ==> JsonValue::spec_first_val(e, "data"@) is None,
{
    reveal_strlit("code");
    reveal_strlit("message");
    reveal_strlit("data");
    assert("code"@.len() == 4 && "message"@.len() == 7 && "data"@.len() == 4);
    assert("code"@[0] == 'c' && "data"@[0] == 'd');
    JsonValue::lemma_first_val_found(e, "code"@, 0);
    JsonValue::lemma_first_val_found(e, "message"@, 1);
    if has_data {
        JsonValue::lemma_first_val_found(e, "data"@, 2);
    } else {
        JsonValue::lemma_first_val_absent(e, "data"@);
    }
}

} // verus!
