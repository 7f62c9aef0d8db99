//! The notification classification policy: which inbound notifications
//! trigger an outbound message, and the text that message carries.
use vstd::prelude::*;
use vstd::string::StringExecFns;
use crate::json::JsonValue;
use crate::text::str_eq;

verus! {

/// The kind of event an inbound notification reports.
pub enum NotificationCategory {
    UserInputRequired,
    Progress,
    ErrorOccurred,
    TaskComplete,
    Generic,
    ClientLifecycle,
}

/// The display icon of a category.
pub open spec fn spec_icon(c: NotificationCategory) -> Seq<char> {
    match c {
        NotificationCategory::UserInputRequired => "⚠️"@,
        NotificationCategory::Progress => "⏳"@,
        NotificationCategory::ErrorOccurred => "❌"@,
        NotificationCategory::TaskComplete => "✅"@,
        NotificationCategory::Generic => "📢"@,
        NotificationCategory::ClientLifecycle => "📢"@,
    }
}

/// The default message text of a category, also used as its title.
pub open spec fn spec_title(c: NotificationCategory) -> Seq<char> {
    match c {
        NotificationCategory::UserInputRequired => "User Input Required"@,
        NotificationCategory::Progress => "Task in Progress"@,
        NotificationCategory::ErrorOccurred => "Error Occurred"@,
        NotificationCategory::TaskComplete => "Task Completed"@,
        NotificationCategory::Generic => "Notification"@,
        NotificationCategory::ClientLifecycle => "Notification"@,
    }
}

/// The display icon of a category.
pub fn icon(c: &NotificationCategory) -> (r: &'static str)
    ensures
        r@ == spec_icon(*c),
{
    match c {
        NotificationCategory::UserInputRequired => "⚠️",
        NotificationCategory::Progress => "⏳",
        NotificationCategory::ErrorOccurred => "❌",
        NotificationCategory::TaskComplete => "✅",
        NotificationCategory::Generic => "📢",
        NotificationCategory::ClientLifecycle => "📢",
    }
}

/// The default message text of a category.
pub fn title(c: &NotificationCategory) -> (r: &'static str)
    ensures
        r@ == spec_title(*c),
{
    match c {
        NotificationCategory::UserInputRequired => "User Input Required",
        NotificationCategory::Progress => "Task in Progress",
        NotificationCategory::ErrorOccurred => "Error Occurred",
        NotificationCategory::TaskComplete => "Task Completed",
        NotificationCategory::Generic => "Notification",
        NotificationCategory::ClientLifecycle => "Notification",
    }
}

/// The category a notification method is classified under, if any.
/// Only the four out-of-band progress-style methods trigger an outbound
/// message; every other notification is silently acknowledged.
pub open spec fn spec_classification(method: Seq<char>) -> Option<NotificationCategory> {
    if method == "$/userInputRequired"@ {
        Some(NotificationCategory::UserInputRequired)
    } else if method == "$/progress"@ {
        Some(NotificationCategory::Progress)
    } else if method == "$/error"@ {
        Some(NotificationCategory::ErrorOccurred)
    } else if method == "$/taskComplete"@ {
        Some(NotificationCategory::TaskComplete)
    } else {
        None
    }
}

/// The text a classified notification resolves to: `params.message`
/// when present and a string, else `params.description` when present
/// and a string, else the given default.
pub open spec fn spec_resolved_message(params: Option<JsonValue>, dflt: Seq<char>) -> Seq<char> {
    match params {
        Some(p) => match p.spec_get("message"@) {
            Some(JsonValue::Str(s)) => s@,
            _ => match p.spec_get("description"@) {
                Some(JsonValue::Str(s)) => s@,
                _ => dflt,
            },
        },
        None => dflt,
    }
}

/// The full outbound text: icon, title, blank line, resolved message.
pub open spec fn spec_notification_text(c: NotificationCategory, msg: Seq<char>) -> Seq<char> {
    spec_icon(c) + " "@ + spec_title(c) + "\n\n"@ + msg
}

/// Resolves the message text of a classified notification.
pub fn resolve_message(params: &Option<JsonValue>, dflt: &str) -> (r: String)
    ensures
        r@ == spec_resolved_message(*params, dflt@),
{
    match params {
        Some(p) => {
            match p.get("message") {
                Some(v) => match v.as_str() {
                    Some(s) => {
                        return s.clone();
                    },
                    None => {},
                },
                None => {},
            }
            match p.get("description") {
                Some(v) => match v.as_str() {
                    Some(s) => {
                        return s.clone();
                    },
                    None => {},
                },
                None => {},
            }
            dflt.to_owned()
        },
        None => dflt.to_owned(),
    }
}

/// Builds the outbound text for a category and a resolved message.
pub fn notification_text(c: &NotificationCategory, msg: &str) -> (r: String)
    ensures
        r@ == spec_notification_text(*c, msg@),
{
    let mut s = String::new();
    s.append(icon(c));
    s.append(" ");
    s.append(title(c));
    s.append("\n\n");
    s.append(msg);
    proof {
        assert(s@ =~= spec_notification_text(*c, msg@));
    }
    s
}

/// Classifies a notification method and, when it is one of the four
/// actionable kinds, resolves the text to send outward.
pub fn classify(method: &str, params: &Option<JsonValue>) -> (r: Option<(
    NotificationCategory,
    String,
)>)
    ensures
        match spec_classification(method@) {
            Some(cat) => r matches Some((c, text)) && c == cat && text@ == spec_notification_text(
                cat,
                spec_resolved_message(*params, spec_title(cat)),
            ),
            None => r is None,
        },
{
    let cat = if str_eq(method, "$/userInputRequired") {
        Some(NotificationCategory::UserInputRequired)
    } else if str_eq(method, "$/progress") {
        Some(NotificationCategory::Progress)
    } else if str_eq(method, "$/error") {
        Some(NotificationCategory::ErrorOccurred)
    } else if str_eq(method, "$/taskComplete") {
        Some(NotificationCategory::TaskComplete)
    } else {
        None
    };
    match cat {
        Some(c) => {
            let msg = resolve_message(params, title(&c));
            let text = notification_text(&c, msg.as_str());
            Some((c, text))
        },
        None => None,
    }
}

} // verus!
