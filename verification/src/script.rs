//! The script that tells a page of an event.

use crate::json::{json_string, json_text, quote, value_text};
use vstd::prelude::*;

verus! {

/// The text of a script that calls the function `function` of the page
/// with an event and a salt. `event` and `payload` are JavaScript already:
/// the name as a string literal, the payload as JSON.
pub open spec fn notification(
    function: Seq<char>,
    event: Seq<char>,
    payload: Seq<char>,
    salt: Seq<char>,
) -> Seq<char> {
    "window['"@ + function + "']({event: "@ + event + ", payload: "@ + payload + "}, '"@ + salt
        + "')"@
}

/// The JSON text that stands for the payload of an event: that of the
/// document where there is one, `null` where there is none.
pub open spec fn payload_text(payload: Option<serde_json::Value>) -> Seq<char> {
    match payload {
        Some(document) => json_text(document),
        None => "null"@,
    }
}

/// The script that tells a page of the event named `event`, with what it
/// carries, for a page whose function for events goes by `function`.
pub open spec fn event_script(
    function: Seq<char>,
    event: Seq<char>,
    payload: Option<serde_json::Value>,
    salt: Seq<char>,
) -> Seq<char> {
    notification(function, json_string(event), payload_text(payload), salt)
}

/// Writes the script that calls the function `function` of the page with
/// an event and a salt.
pub fn notification_script(
    function: &str,
    event: &str,
    payload: &str,
    salt: &str,
) -> (script: String)
    ensures
        script@ == notification(function@, event@, payload@, salt@),
{
    let mut script = "window['".to_string();
    script.append(function);
    script.append("']({event: ");
    script.append(event);
    script.append(", payload: ");
    script.append(payload);
    script.append("}, '");
    script.append(salt);
    script.append("')");
    script
}

/// The name of an event as a JavaScript string literal.
pub fn event_literal(event: &str) -> (literal: String)
    ensures
        literal@ == json_string(event@),
{
    match quote(event) {
        Some(literal) => literal,
        None => String::new(),
    }
}

/// The payload of an event as JSON text.
pub fn payload_literal(payload: &Option<serde_json::Value>) -> (literal: String)
    ensures
        literal@ == payload_text(*payload),
{
    match payload {
        Some(document) => value_text(document),
        None => "null".to_string(),
    }
}

} // verus!
