//! The method dispatcher: routes a request to its handler by method
//! name, consults the classification policy for notifications, and
//! normalizes every failure into a protocol error response.
use vstd::prelude::*;
use vstd::string::StringExecFns;
use crate::delivery::DeliveryError;
use crate::envelope::McpRequest;
use crate::json::JsonValue;
use crate::notify::classify;
use crate::notify::spec_classification;
use crate::notify::spec_notification_text;
use crate::notify::spec_resolved_message;
use crate::notify::spec_title;
use crate::response::McpError;
use crate::response::McpResponse;
use crate::response::initialize_result;
use crate::response::is_empty_object;
use crate::response::is_initialize_result;
use crate::response::is_tool_call_success_result;
use crate::response::is_tools_list_result;
use crate::response::tool_call_success_result;
use crate::response::tools_list_result;
use crate::text::str_eq;

verus! {

/// What the dispatcher decides for one inbound message: answer at once,
/// call the outbound collaborator and then answer, send a classified
/// notification outward with no answer, or silently acknowledge.
pub enum HandleStep {
    Reply(McpResponse),
    CallTool { message: String, id: Option<JsonValue> },
    Notify { text: String },
    Acknowledge,
}

/// Whether `step` replies with the protocol error `code`, carrying
/// exactly the message `msg`, no data, and the id `id`.
pub open spec fn is_error_step(
    step: HandleStep,
    code: int,
    msg: Seq<char>,
    id: Option<JsonValue>,
) -> bool {
    step matches HandleStep::Reply(McpResponse::Failure { error, id: rid }) && error.code as int
        == code && error.message@ == msg && error.data is None && rid == id
}

/// The decoded shape of `tools/call` parameters: the tool name and its
/// arguments, when both are structurally present.
pub open spec fn spec_tool_call(ps: Option<JsonValue>) -> Option<(Seq<char>, JsonValue)> {
    match ps {
        Some(p) => match (p.spec_get("name"@), p.spec_get("arguments"@)) {
            (Some(JsonValue::Str(n)), Some(a)) => Some((n@, a)),
            _ => None,
        },
        None => None,
    }
}

/// What dispatching a `tools/call` request must decide: an invalid-params
/// error when the shape is wrong or the tool unknown, else the outbound
/// call with the given message.
pub open spec fn tool_call_step_ok(
    ps: Option<JsonValue>,
    id: Option<JsonValue>,
    step: HandleStep,
) -> bool {
    match spec_tool_call(ps) {
        None => is_error_step(
            step,
            -32602,
            "Invalid params: expected {name: string, arguments: object}"@,
            id,
        ),
        Some((n, a)) => if n != "notify_telegram"@ {
            is_error_step(step, -32602, "Unknown tool: "@ + n, id)
        } else {
            match a.spec_get("message"@) {
                Some(JsonValue::Str(msg)) => step matches HandleStep::CallTool {
                    message,
                    id: cid,
                } && message@ == msg@ && cid == id,
                _ => is_error_step(step, -32602, "Invalid parameters for notify_telegram"@, id),
            }
        },
    }
}

/// What dispatching a request (an envelope carrying an id) must decide,
/// method by method.
pub open spec fn request_step_ok(req: McpRequest, step: HandleStep) -> bool {
    let m = req.spec_method();
    let id = req.spec_id();
    let ps = req.spec_params();
    &&& (m == "initialize"@ && id is None) ==> is_error_step(
        step,
        -32600,
        "Invalid Request: initialize requires an id"@,
        None,
    )
    &&& (m == "initialize"@ && id is Some) ==> (step matches HandleStep::Reply(
        McpResponse::Success { result, id: rid },
    ) && is_initialize_result(result) && rid == id)
    &&& m == "tools/list"@ ==> (step matches HandleStep::Reply(
        McpResponse::Success { result, id: rid },
    ) && is_tools_list_result(result) && rid == id)
    &&& (m == "notifications/subscribe"@ || m == "notifications/unsubscribe"@) ==> (step matches
        HandleStep::Reply(McpResponse::Success { result, id: rid }) && is_empty_object(result)
        && rid == id)
    &&& m == "tools/call"@ ==> tool_call_step_ok(ps, id, step)
    &&& !(m == "initialize"@ || m == "tools/list"@ || m == "tools/call"@ || m
        == "notifications/subscribe"@ || m == "notifications/unsubscribe"@) ==> is_error_step(
        step,
        -32601,
        "Method not found: "@ + m,
        id,
    )
}

/// What dispatching a notification (no id) must decide: the classified
/// outbound text, or a silent acknowledgement — never a response body.
pub open spec fn notification_step_ok(req: McpRequest, step: HandleStep) -> bool {
    match spec_classification(req.spec_method()) {
        Some(cat) => step matches HandleStep::Notify { text } && text@ == spec_notification_text(
            cat,
            spec_resolved_message(req.spec_params(), spec_title(cat)),
        ),
        None => step == HandleStep::Acknowledge,
    }
}

/// A protocol error response.
fn error_reply(code: i32, message: String, id: Option<JsonValue>) -> (r: McpResponse)
    ensures
        r == (McpResponse::Failure { error: McpError { code, message, data: None }, id }),
{
    McpResponse::Failure { error: McpError { code, message, data: None }, id }
}

/// Routes one request (an envelope carrying an id, even a null one) by
/// its method name. Unknown methods are answered with a method-not-found
/// error echoing the request's id; `initialize` without an id is
/// refused with an invalid-request error; a well-formed `tools/call` of
/// the known tool asks for the outbound call instead of replying.
pub fn handle_mcp_request(request: McpRequest) -> (step: HandleStep)
    ensures
        request_step_ok(request, step),
        step is Reply || step is CallTool,
{
    proof {
        reveal_strlit("initialize");
        reveal_strlit("tools/list");
        reveal_strlit("tools/call");
        reveal_strlit("notifications/subscribe");
        reveal_strlit("notifications/unsubscribe");
        assert("initialize"@[0] == 'i' && "tools/list"@[0] == 't');
        assert("tools/list"@[6] == 'l' && "tools/call"@[6] == 'c');
        assert("initialize"@.len() == 10 && "notifications/subscribe"@.len() == 23
            && "notifications/unsubscribe"@.len() == 25);
    }
    match request {
        McpRequest::JsonRpc2_0 { method, params, id } => {
            if str_eq(method.as_str(), "initialize") {
                if id.is_none() {
                    HandleStep::Reply(
                        error_reply(
                            -32600,
                            String::from_str("Invalid Request: initialize requires an id"),
                            None,
                        ),
                    )
                } else {
                    HandleStep::Reply(McpResponse::Success { result: initialize_result(), id })
                }
            } else if str_eq(method.as_str(), "tools/list") {
                HandleStep::Reply(McpResponse::Success { result: tools_list_result(), id })
            } else if str_eq(method.as_str(), "notifications/subscribe") || str_eq(
                method.as_str(),
                "notifications/unsubscribe",
            ) {
                HandleStep::Reply(McpResponse::Success { result: JsonValue::Obj(Vec::new()), id })
            } else if str_eq(method.as_str(), "tools/call") {
                match params {
                    Some(p) => {
                        let name_opt: Option<String> = match p.get("name") {
                            Some(v) => match v.as_str() {
                                Some(s) => Some(s.clone()),
                                None => None,
                            },
                            None => None,
                        };
                        match (name_opt, p.get("arguments")) {
                            (Some(name), Some(a)) => {
                                if str_eq(name.as_str(), "notify_telegram") {
                                    let message_opt: Option<String> = match a.get("message") {
                                        Some(v) => match v.as_str() {
                                            Some(s) => Some(s.clone()),
                                            None => None,
                                        },
                                        None => None,
                                    };
                                    match message_opt {
                                        Some(message) => HandleStep::CallTool { message, id },
                                        None => HandleStep::Reply(
                                            error_reply(
                                                -32602,
                                                String::from_str(
                                                    "Invalid parameters for notify_telegram",
                                                ),
                                                id,
                                            ),
                                        ),
                                    }
                                } else {
                                    let mut msg = String::from_str("Unknown tool: ");
                                    msg.append(name.as_str());
                                    HandleStep::Reply(error_reply(-32602, msg, id))
                                }
                            },
                            _ => HandleStep::Reply(
                                error_reply(
                                    -32602,
                                    String::from_str(
                                        "Invalid params: expected {name: string, arguments: object}",
                                    ),
                                    id,
                                ),
                            ),
                        }
                    },
                    None => HandleStep::Reply(
                        error_reply(
                            -32602,
                            String::from_str(
                                "Invalid params: expected {name: string, arguments: object}",
                            ),
                            id,
                        ),
                    ),
                }
            } else {
                let mut msg = String::from_str("Method not found: ");
                msg.append(method.as_str());
                HandleStep::Reply(error_reply(-32601, msg, id))
            }
        },
    }
}

/// Dispatches one inbound envelope. A notification (no id member) never
/// yields a response body: it is classified and either sent outward or
/// silently acknowledged. A request is routed to its handler.
pub fn dispatch(request: McpRequest) -> (step: HandleStep)
    ensures
        request.spec_is_notification() ==> notification_step_ok(request, step),
        request.spec_is_notification() ==> !(step is Reply) && !(step is CallTool),
        !request.spec_is_notification() ==> request_step_ok(request, step) && (step is Reply
            || step is CallTool),
{
    if request.is_notification() {
        match request {
            McpRequest::JsonRpc2_0 { method, params, id: _ } => {
                match classify(method.as_str(), &params) {
                    Some((_, text)) => HandleStep::Notify { text },
                    None => HandleStep::Acknowledge,
                }
            },
        }
    } else {
        handle_mcp_request(request)
    }
}

/// Finishes a `tools/call` after the outbound collaborator returned:
/// success becomes the fixed content-block result echoing the request's
/// id; failure is passed through untouched, a transport-level error
/// rather than a protocol one.
pub fn complete_tool_call(id: Option<JsonValue>, outcome: Result<(), DeliveryError>) -> (r: Result<
    McpResponse,
    DeliveryError,
>)
    ensures
        outcome is Ok ==> (r matches Ok(McpResponse::Success { result, id: rid })
            && is_tool_call_success_result(result) && rid == id),
        outcome matches Err(e) ==> r == Err::<McpResponse, DeliveryError>(e),
{
    match outcome {
        Ok(()) => Ok(McpResponse::Success { result: tool_call_success_result(), id }),
        Err(e) => Err(e),
    }
}

/// The response synthesized when an inbound body cannot be decoded as
/// structured JSON at all: a parse error with a null id, since no
/// request id is recoverable.
pub fn parse_error_response() -> (r: McpResponse)
    ensures
        r matches McpResponse::Failure { error, id } && error.code as int == -32700
            && error.message@ == "Parse error"@ && error.data is None && id is None,
{
    error_reply(-32700, String::from_str("Parse error"), None)
}

} // verus!
