//! A verified core for a small JSON-RPC 2.0 notification server:
//! envelope model, method dispatch, notification classification,
//! and the server-sent-events session state machine.
use vstd::prelude::*;

mod delivery;
mod dispatch;
mod encode;
mod envelope;
mod json;
mod notify;
mod response;
mod sse;
mod text;

pub use delivery::DeliveryError;
pub use delivery::delivery_error_text;
pub use delivery::delivery_outcome;
pub use dispatch::HandleStep;
pub use dispatch::complete_tool_call;
pub use dispatch::dispatch;
pub use dispatch::handle_mcp_request;
pub use dispatch::parse_error_response;
pub use encode::json_to_string;
pub use envelope::McpRequest;
pub use envelope::envelope_from_json;
pub use envelope::is_envelope;
pub use json::JsonValue;
pub use notify::NotificationCategory;
pub use notify::classify;
pub use notify::icon;
pub use notify::notification_text;
pub use notify::resolve_message;
pub use notify::title;
pub use response::McpError;
pub use response::McpResponse;
pub use response::initialize_result;
pub use response::response_to_json;
pub use response::tool_call_success_result;
pub use response::tools_list_result;
pub use sse::HEARTBEAT_INTERVAL_SECS;
pub use sse::SseSession;
pub use sse::endpoint_url;
pub use sse::lemma_endpoint_url_shape;
pub use sse::lemma_one_endpoint_then_heartbeats;
pub use text::str_eq;
pub use text::u16_to_string;
