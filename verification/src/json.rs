//! JSON documents as this library reads them: the members of a top-level
//! object, each either a string or something else.
use vstd::prelude::*;

verus! {

#[verifier::external_type_specification]
#[verifier::external_body]
pub struct ExJsonValue(serde_json::Value);

/// A member of a JSON object: a string, or a value of any other kind.
pub enum JsonMember {
    Text(String),
    Other,
}

/// The mathematical view of a `JsonMember`.
pub enum JsonMemberView {
    Text(Seq<char>),
    Other,
}

impl View for JsonMember {
    type V = JsonMemberView;

    open spec fn view(&self) -> JsonMemberView {
        match self {
            JsonMember::Text(s) => JsonMemberView::Text(s@),
            JsonMember::Other => JsonMemberView::Other,
        }
    }
}

/// Keys of a JSON object, mapped to what their members are.
pub type JsonMembers = Map<Seq<char>, JsonMemberView>;

/// The members of a JSON value: for an object, its keys and what each
/// member is; for any other value, no key (`Value::get` finds nothing there).
pub uninterp spec fn json_object_members(value: serde_json::Value) -> Map<Seq<char>, JsonMemberView>;

/// Whether a JSON value is an object (`Value::Object`).
pub uninterp spec fn json_is_object(value: serde_json::Value) -> bool;

/// A parsed JSON document as this library reads it: whether its root is an
/// object, and the members of the root.
pub type JsonDoc = (bool, JsonMembers);

/// What `serde_json::from_str::<Value>` makes of a text: whether the parsed
/// root is an object and its members, or the text of the error it reports.
pub uninterp spec fn json_parse_outcome(text: Seq<char>) -> Result<(bool, Map<Seq<char>, JsonMemberView>), Seq<char>>;

/// Parses `text` with `serde_json::from_str` into a `serde_json::Value`; on
/// failure gives the `Display` text of `serde_json::Error`.  Trusted: the
/// kind of the root (object or not), what it holds, and the error text are
/// named by `json_parse_outcome` and not stated further.
#[verifier::external_body]
pub(crate) fn parse_json_text(text: &str) -> (r: Result<serde_json::Value, String>)
    ensures
        match r {
            Ok(v) => json_parse_outcome(text@) == Ok::<JsonDoc, Seq<char>>(
                (json_is_object(v), json_object_members(v)),
            ),
            Err(m) => json_parse_outcome(text@) == Err::<JsonDoc, Seq<char>>(m@),
        },
{
    match serde_json::from_str::<serde_json::Value>(text) {
        Ok(v) => Ok(v),
        Err(e) => Err(e.to_string()),
    }
}

/// Looks `key` up with `serde_json::Value::get` and tells a string member
/// (`Value::as_str`) from any other.  Trusted: the answer is what
/// `json_object_members` holds for `key`, and a value that is not an object
/// has no member (`Index for str` looks keys up in objects only).
#[verifier::external_body]
pub(crate) fn json_member(value: &serde_json::Value, key: &str) -> (r: Option<JsonMember>)
    ensures
        match r {
            Some(m) => json_object_members(*value).dom().contains(key@) && json_object_members(
                *value,
            )[key@] == m@,
            None => !json_object_members(*value).dom().contains(key@),
        },
        !json_is_object(*value) ==> r is None,
{
    match value.get(key) {
        Some(member) => match member.as_str() {
            Some(s) => Some(JsonMember::Text(s.to_string())),
            None => Some(JsonMember::Other),
        },
        None => None,
    }
}

/// The string held under `key`, if the member is there and is a string
/// (`value.get(key).and_then(Value::as_str)`).
pub open spec fn member_text(members: JsonMembers, key: Seq<char>) -> Option<Seq<char>> {
    if members.dom().contains(key) {
        match members[key] {
            JsonMemberView::Text(t) => Some(t),
            JsonMemberView::Other => None,
        }
    } else {
        None
    }
}

/// The string held under `key` in `value`, if there is one.
pub fn json_member_text(value: &serde_json::Value, key: &str) -> (r: Option<String>)
    ensures
        crate::text::opt_view(r) == member_text(json_object_members(*value), key@),
        !json_is_object(*value) ==> r is None,
{
    match json_member(value, key) {
        Some(JsonMember::Text(s)) => Some(s),
        _ => None,
    }
}

} // verus!
