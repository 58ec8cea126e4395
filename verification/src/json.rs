//! JSON documents, read by the `serde_json` crate.
//!
//! Everything in this file but [`JsonMember`] is believed, not proved: it says what
//! the library takes `serde_json` to do.

use vstd::prelude::*;

verus! {

/// `serde_json::Value`: a parsed JSON document.
#[verifier::external_type_specification]
#[verifier::external_body]
pub struct ExValue(serde_json::Value);

/// `serde_json::Error`: why a text is no JSON document.
#[verifier::external_type_specification]
#[verifier::external_body]
pub struct ExJsonError(serde_json::Error);

/// What the library reads of one member of a JSON object.
#[derive(Debug, PartialEq, Eq)]
pub enum JsonMember {
    /// A string.
    Text(String),
    /// A number, with its value where it is an integer from 0 to 2^64 - 1.
    Number(Option<u64>),
    /// Anything else: `null`, a boolean, an array or an object.
    Other,
}

/// A [`JsonMember`] as a mathematical value.
pub enum MemberView {
    Text(Seq<char>),
    Number(Option<u64>),
    Other,
}

impl View for JsonMember {
    type V = MemberView;

    open spec fn view(&self) -> MemberView {
        match *self {
            JsonMember::Text(text) => MemberView::Text(text@),
            JsonMember::Number(value) => MemberView::Number(value),
            JsonMember::Other => MemberView::Other,
        }
    }
}

impl DeepView for JsonMember {
    type V = MemberView;

    open spec fn deep_view(&self) -> MemberView {
        self@
    }
}

/// The members that a document holds, by their keys, where it is an object. Any
/// other document holds none.
pub uninterp spec fn json_members(document: serde_json::Value) -> Map<Seq<char>, MemberView>;

/// What `serde_json::from_str` makes of a text: the members of the document that
/// it reads, or nothing where it refuses the text.
pub uninterp spec fn json_document(text: Seq<char>) -> Option<Map<Seq<char>, MemberView>>;

/// `serde_json::from_str`, asked for a `Value`. It returns a document exactly
/// where [`json_document`] names one, and that document then holds the named
/// members.
#[verifier::external_body]
pub(crate) fn parse_json(text: &str) -> (parsed: Result<serde_json::Value, serde_json::Error>)
    ensures
        match json_document(text@) {
            Some(members) => parsed is Ok && json_members(parsed->Ok_0) == members,
            None => parsed is Err,
        },
{
    serde_json::from_str(text)
}

/// `Value::get` with a string key: the member of that key, where the document is
/// an object and has one. The member is handed out as a [`JsonMember`]; for a
/// number, `Number::as_u64` gives the value.
#[verifier::external_body]
pub(crate) fn json_member(document: &serde_json::Value, key: &str) -> (member: Option<JsonMember>)
    ensures
        member.deep_view() == json_members(*document).get(key@),
{
    match document.get(key) {
        None => None,
        Some(serde_json::Value::String(text)) => Some(JsonMember::Text(text.clone())),
        Some(serde_json::Value::Number(number)) => Some(JsonMember::Number(number.as_u64())),
        Some(_) => Some(JsonMember::Other),
    }
}

} // verus!
