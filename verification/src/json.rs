//! JSON as `serde_json` writes and reads it.

use vstd::prelude::*;

verus! {

/// A JSON value of `serde_json`. Nothing of its inside is known here but what
/// `text_members` names.
#[verifier::external_type_specification]
#[verifier::external_body]
pub struct ExJsonValue(serde_json::Value);

/// The JSON string literal (quotes and escapes included) that `serde_json::to_string`
/// writes for the text `s`, or `None` where it reports an error.
pub uninterp spec fn json_string(s: Seq<char>) -> Option<Seq<char>>;

/// The members of a JSON value that are texts, by their names: the members of an
/// object whose values are strings. A value that is no object has none.
pub uninterp spec fn text_members(value: serde_json::Value) -> Map<Seq<char>, Seq<char>>;

/// The text members of the JSON value that `serde_json::from_str` reads from `text`,
/// or `None` where it reports an error.
pub uninterp spec fn document_members(text: Seq<char>) -> Option<Map<Seq<char>, Seq<char>>>;

/// The text member of `members` with the given name, if there is one.
pub open spec fn member(members: Map<Seq<char>, Seq<char>>, name: Seq<char>) -> Option<
    Seq<char>,
> {
    if members.contains_key(name) {
        Some(members[name])
    } else {
        None
    }
}

/// Writes `s` as a JSON string literal by `serde_json::to_string`. The escaping rules
/// are those of `serde_json` and are not restated: the contract only names the result,
/// and an error of the serialiser comes back as `None`.
#[verifier::external_body]
pub(crate) fn quote(s: &str) -> (r: Option<String>)
    ensures
        match r {
            Some(literal) => json_string(s@) == Some(literal@),
            None => json_string(s@) is None,
        },
{
    serde_json::to_string(s).ok()
}

/// Reads `text` as one JSON value by `serde_json::from_str`. The grammar is that of
/// `serde_json` and is not restated: the contract only says that the text members of
/// the value are those that `document_members` names for the text, and that an
/// error of the parser comes back as `None`.
#[verifier::external_body]
pub(crate) fn parse(text: &str) -> (r: Option<serde_json::Value>)
    ensures
        match r {
            Some(value) => document_members(text@) == Some(text_members(value)),
            None => document_members(text@) is None,
        },
{
    serde_json::from_str::<serde_json::Value>(text).ok()
}

/// Looks `name` up in `value` by `serde_json::Value::get` and hands out the member
/// as a text: `Some` exactly where `value` is an object with a member of that name
/// whose value is a string.
#[verifier::external_body]
pub(crate) fn member_text(value: &serde_json::Value, name: &str) -> (r: Option<String>)
    ensures
        match r {
            Some(text) => member(text_members(*value), name@) == Some(text@),
            None => member(text_members(*value), name@) is None,
        },
{
    value.get(name).and_then(serde_json::Value::as_str).map(str::to_owned)
}

} // verus!
