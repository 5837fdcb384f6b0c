//! The few JSON facts that the library reads from upstream answers.
use vstd::prelude::*;
use crate::error::KisError;

verus! {

#[verifier::external_type_specification]
#[verifier::external_body]
pub struct ExValue(serde_json::Value);

/// Whether a text is one JSON document.
pub uninterp spec fn json_valid(s: Seq<char>) -> bool;

/// Relies on serde_json::from_str into a `Value`: it succeeds exactly on
/// well-formed JSON, which depends on the text alone.
#[verifier::external_body]
fn parse_json(text: &str) -> (r: Option<serde_json::Value>)
    ensures
        r is Some == json_valid(text@),
{
    serde_json::from_str::<serde_json::Value>(text).ok()
}

/// The text of the string member `key` of a JSON document, when the
/// document is an object with such a member whose value is a string.
pub uninterp spec fn json_str_member(text: Seq<char>, key: Seq<char>) -> Option<Seq<char>>;

/// The member `key` of a JSON document written back as JSON text, when the
/// document is an object with such a member.
pub uninterp spec fn json_member_text(text: Seq<char>, key: Seq<char>) -> Option<Seq<char>>;

/// Relies on serde_json::from_str into a `Value`, then Value::get and
/// Value::as_str: the string member `key`, if the text is JSON with one.
#[verifier::external_body]
pub(crate) fn str_member(text: &str, key: &str) -> (r: Option<String>)
    ensures
        match r {
            Some(t) => json_str_member(text@, key@) == Some(t@) && json_valid(text@),
            None => json_str_member(text@, key@) is None,
        },
{
    let v = serde_json::from_str::<serde_json::Value>(text).ok()?;
    v.get(key)?.as_str().map(str::to_owned)
}

/// Relies on serde_json::from_str into a `Value`, then Value::get and the
/// Display of `Value`: the member `key` as JSON text, if the text is JSON
/// with such a member.
#[verifier::external_body]
pub(crate) fn member_text(text: &str, key: &str) -> (r: Option<String>)
    ensures
        match r {
            Some(t) => json_member_text(text@, key@) == Some(t@) && json_valid(text@),
            None => json_member_text(text@, key@) is None,
        },
{
    let v = serde_json::from_str::<serde_json::Value>(text).ok()?;
    v.get(key).map(ToString::to_string)
}

/// The JSON answer of a request, from its status code and body text: any
/// status but 200 is an upstream error, and a body that is not JSON is a
/// decode error.
pub fn decode_response(status: u16, body: &str) -> (r: Result<serde_json::Value, KisError>)
    ensures
        status != 200 ==> (r matches Err(KisError::Upstream { status: s, body: b }) && s == status
            && b@ == body@),
        status == 200 ==> (r is Ok <==> json_valid(body@)),
        status == 200 && !json_valid(body@) ==> r == Err::<serde_json::Value, KisError>(
            KisError::Decode,
        ),
{
    if status != 200 {
        return Err(KisError::Upstream { status, body: body.to_owned() });
    }
    match parse_json(body) {
        Some(v) => Ok(v),
        None => Err(KisError::Decode),
    }
}

} // verus!
