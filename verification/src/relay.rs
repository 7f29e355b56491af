//! The relay between the two content events: what arrives on the first is
//! passed on under the second if it is a JSON value with a string under
//! `content`, and dropped without a word if it is not.

use vstd::prelude::*;

verus! {

/// The member that a payload must hold, as a string, to be passed on.
pub const CONTENT_FIELD: &'static str = "content";

/// A JSON value of `serde_json`. The library carries it through and looks
/// into it only by the calls below.
#[verifier::external_type_specification]
#[verifier::external_body]
pub struct ExJsonValue(serde_json::Value);

/// What `serde_json::from_str` makes of a text when asked for a
/// `serde_json::Value`: the value, or nothing if the text is not JSON.
pub uninterp spec fn json_parse(text: Seq<char>) -> Option<serde_json::Value>;

/// What `serde_json::Value::get` finds under a string key: the member of
/// that name if the value is an object that has one, nothing otherwise.
pub uninterp spec fn json_member(value: serde_json::Value, key: Seq<char>) -> Option<
    serde_json::Value,
>;

/// What `serde_json::Value::as_str` returns: the text if the value is a
/// string, nothing otherwise.
pub uninterp spec fn json_text(value: serde_json::Value) -> Option<Seq<char>>;

/// Calls `serde_json::from_str` for a `serde_json::Value` and drops the
/// error's detail. The contract names the result and claims nothing else.
#[verifier::external_body]
fn parse_json(text: &str) -> (r: Option<serde_json::Value>)
    ensures
        r == json_parse(text@),
{
    serde_json::from_str::<serde_json::Value>(text).ok()
}

/// Calls `serde_json::Value::get` with a string key. The contract names
/// the result and claims nothing else.
#[verifier::external_body]
fn member<'a>(value: &'a serde_json::Value, key: &str) -> (r: Option<&'a serde_json::Value>)
    ensures
        r matches Some(found) ==> json_member(*value, key@) == Some(*found),
        r is None ==> json_member(*value, key@) is None,
{
    value.get(key)
}

/// Calls `serde_json::Value::as_str`. The contract names the result and
/// claims nothing else.
#[verifier::external_body]
fn text_of<'a>(value: &'a serde_json::Value) -> (r: Option<&'a str>)
    ensures
        r matches Some(text) ==> json_text(*value) == Some(text@),
        r is None ==> json_text(*value) is None,
{
    value.as_str()
}

/// Tells whether a payload is passed on: it is, if it has a member
/// `content` that is a string.
pub open spec fn passes(payload: serde_json::Value) -> bool {
    json_member(payload, CONTENT_FIELD@) matches Some(content) && json_text(content) is Some
}

/// What the relay passes on of what arrived: the payload itself if it
/// parsed and passes, nothing otherwise.
pub open spec fn relayed(parsed: Option<serde_json::Value>) -> Option<serde_json::Value> {
    match parsed {
        Some(payload) => if passes(payload) {
            Some(payload)
        } else {
            None
        },
        None => None,
    }
}

/// Decides on a payload that has been parsed, or on nothing if it did not
/// parse: the payload to pass on, or nothing.
pub fn relay_parsed(parsed: Option<serde_json::Value>) -> (r: Option<serde_json::Value>)
    ensures
        r == relayed(parsed),
{
    match parsed {
        Some(payload) => {
            let keep = match member(&payload, CONTENT_FIELD) {
                Some(content) => text_of(content).is_some(),
                None => false,
            };
            if keep {
                Some(payload)
            } else {
                None
            }
        },
        None => None,
    }
}

/// Decides on the text that arrived on the content event: the payload to
/// pass on under the second event, or nothing if the text is not JSON or
/// holds no string under `content`.
pub fn relay(payload: &str) -> (r: Option<serde_json::Value>)
    ensures
        r == relayed(json_parse(payload@)),
{
    relay_parsed(parse_json(payload))
}

} // verus!
