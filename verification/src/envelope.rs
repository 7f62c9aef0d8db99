//! The JSON-RPC 2.0 envelope model: reading a structured JSON value as
//! a request or a notification, and telling the two apart.
use vstd::prelude::*;
use crate::json::JsonValue;
use crate::text::str_eq;

verus! {

/// One inbound JSON-RPC 2.0 message. A message that carries an `id`
/// member (even an explicit null) is a request and is owed a response;
/// one without an `id` member is a notification and is never answered.
pub enum McpRequest {
    JsonRpc2_0 { method: String, params: Option<JsonValue>, id: Option<JsonValue> },
}

impl McpRequest {
    /// The method name of this message.
    pub open spec fn spec_method(self) -> Seq<char> {
        match self {
            McpRequest::JsonRpc2_0 { method, .. } => method@,
        }
    }

    /// The parameters of this message: present (possibly null) or absent.
    pub open spec fn spec_params(self) -> Option<JsonValue> {
        match self {
            McpRequest::JsonRpc2_0 { params, .. } => params,
        }
    }

    /// The correlation id of this message: present (possibly null) or absent.
    pub open spec fn spec_id(self) -> Option<JsonValue> {
        match self {
            McpRequest::JsonRpc2_0 { id, .. } => id,
        }
    }

    /// A message without a correlation id is a notification.
    pub open spec fn spec_is_notification(self) -> bool {
        self.spec_id() is None
    }

    /// Whether this message is a notification (no `id` member).
    pub fn is_notification(&self) -> (r: bool)
        ensures
            r == self.spec_is_notification(),
    {
        match self {
            McpRequest::JsonRpc2_0 { id, .. } => id.is_none(),
        }
    }
}

/// Whether a structured JSON value has the shape of a JSON-RPC 2.0
/// envelope: a protocol tag that is exactly "2.0" and a string method.
pub open spec fn is_envelope(v: JsonValue) -> bool {
    &&& v.spec_get("jsonrpc"@) matches Some(JsonValue::Str(tag)) && tag@ == "2.0"@
    &&& v.spec_get("method"@) matches Some(JsonValue::Str(_))
}

/// Reads a structured JSON value as an envelope. Returns the envelope
/// exactly when the value carries the supported protocol tag and a
/// string method name; `params` and `id` are kept as found, absent
/// members staying absent.
pub fn envelope_from_json(v: JsonValue) -> (r: Option<McpRequest>)
    ensures
        r is Some <==> is_envelope(v),
        r matches Some(req) ==> {
            &&& v.spec_get("method"@) matches Some(JsonValue::Str(m)) && req.spec_method() == m@
            &&& req.spec_params() == v.spec_get("params"@)
            &&& req.spec_id() == v.spec_get("id"@)
        },
{
    let tag_ok = match v.get("jsonrpc") {
        Some(t) => match t.as_str() {
            Some(s) => str_eq(s.as_str(), "2.0"),
            None => false,
        },
        None => false,
    };
    if !tag_ok {
        return None;
    }
    proof {
        reveal_strlit("method");
        reveal_strlit("params");
        reveal_strlit("id");
        assert("method"@[0] == 'm' && "params"@[0] == 'p');
        assert("method"@.len() == 6 && "id"@.len() == 2);
        assert("method"@ != "params"@ && "method"@ != "id"@ && "params"@ != "id"@);
    }
    let (method_v, params, id) = v.take3("method", "params", "id");
    match method_v {
        Some(mv) => match mv {
            JsonValue::Str(method) => Some(McpRequest::JsonRpc2_0 { method, params, id }),
            _ => None,
        },
        None => None,
    }
}

} // verus!
