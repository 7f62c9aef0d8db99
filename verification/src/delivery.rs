//! The outbound-delivery interface: how the provider's reply is read,
//! and the error a failed delivery carries.
use vstd::prelude::*;
use vstd::string::StringExecFns;

verus! {

/// A failed outbound delivery, carrying the provider's description of
/// the failure when one was given.
#[derive(Debug)]
pub struct DeliveryError {
    pub description: Option<String>,
}

/// Reads the provider's own `{ok, description}` reply envelope: a reply
/// with `ok` false is a delivery failure carrying the description.
pub fn delivery_outcome(ok: bool, description: Option<String>) -> (r: Result<(), DeliveryError>)
    ensures
        ok ==> r is Ok,
        !ok ==> (r matches Err(e) && e.description == description),
{
    if ok {
        Ok(())
    } else {
        Err(DeliveryError { description })
    }
}

/// The display text of a delivery error.
pub fn delivery_error_text(e: &DeliveryError) -> (r: String)
    ensures
        e.description matches Some(d) ==> r@ == "Telegram API error: "@ + d@,
        e.description is None ==> r@ == "Telegram API error: "@ + "Unknown error"@,
{
    let mut s = String::from_str("Telegram API error: ");
    match &e.description {
        Some(d) => s.append(d.as_str()),
        None => s.append("Unknown error"),
    }
    s
}

} // verus!
