//! The JSON reader and writer under the envelope codec. Reading and writing
//! JSON is `serde_json`'s work; the functions here hand it text and take text
//! back. Their contracts are taken on trust: Verus does not look into them.

use vstd::prelude::*;

verus! {

/// The member `key` of the JSON text `text`, written out again as compact
/// JSON text: what `serde_json::from_str` followed by indexing with `key`
/// and `serde_json::to_string` gives; `None` where one of the two fails.
pub uninterp spec fn json_member_text(text: Seq<char>, key: Seq<char>) -> Option<Seq<char>>;

/// The content of the member `key` of the JSON text `text` where that member
/// is a JSON string: what `serde_json::from_str` followed by indexing with
/// `key` and `Value::as_str` gives; `None` where the first fails or the last
/// finds no string.
pub uninterp spec fn json_member_string(text: Seq<char>, key: Seq<char>) -> Option<Seq<char>>;

/// The JSON string literal for `s`, quotes and escapes included: what
/// `serde_json::to_string` gives for a string slice.
pub uninterp spec fn json_string_text(s: Seq<char>) -> Seq<char>;

/// Calls `serde_json::from_str` to read `text` as a `serde_json::Value`,
/// indexes the value with `key`, and calls `serde_json::to_string` on what it
/// finds. A text that is no JSON gives `None`. Indexing a `Value` by a string
/// never panics: it yields the null value where the value is no object or
/// has no such member. The contract claims only that the outcome is the one
/// that `json_member_text` names, that is, that it depends on the two texts
/// and on nothing else.
#[verifier::external_body]
pub(crate) fn json_member(text: &str, key: &str) -> (r: Option<String>)
    ensures
        r matches Some(t) ==> json_member_text(text@, key@) == Some(t@),
        r is None ==> json_member_text(text@, key@) is None,
{
    let value: serde_json::Value = serde_json::from_str(text).ok()?;
    serde_json::to_string(&value[key]).ok()
}

/// Calls `serde_json::from_str` to read `text` as a `serde_json::Value`,
/// indexes the value with `key`, and calls `Value::as_str` on what it finds.
/// The contract claims only that the outcome is the one that
/// `json_member_string` names.
#[verifier::external_body]
pub(crate) fn json_member_str(text: &str, key: &str) -> (r: Option<String>)
    ensures
        r matches Some(t) ==> json_member_string(text@, key@) == Some(t@),
        r is None ==> json_member_string(text@, key@) is None,
{
    let value: serde_json::Value = serde_json::from_str(text).ok()?;
    value[key].as_str().map(str::to_owned)
}

/// Calls `serde_json::to_string` on a string slice. Writing a string into
/// memory cannot fail in `serde_json`, so the error arm is never taken. The
/// contract claims only that the outcome is the one that `json_string_text`
/// names.
#[verifier::external_body]
pub(crate) fn json_quote(s: &str) -> (r: String)
    ensures
        r@ == json_string_text(s@),
{
    serde_json::to_string(s).unwrap_or_default()
}

} // verus!
