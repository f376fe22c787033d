//! JSON text of string lists, read and written by `serde_json`.

use vstd::prelude::*;
use crate::error::opt_view;

verus! {

/// What `serde_json::from_str::<Vec<String>>` gives for a text: `None` where
/// the text is not a JSON array of strings.
pub uninterp spec fn json_string_array(text: Seq<char>) -> Option<Seq<Seq<char>>>;

/// What `serde_json::to_string` writes for a list of strings.
pub uninterp spec fn json_of_strings(items: Seq<Seq<char>>) -> Seq<char>;

/// What `serde_json::to_string_pretty` writes for a list of strings.
pub uninterp spec fn json_of_strings_pretty(items: Seq<Seq<char>>) -> Seq<char>;

/// The texts of a list of strings.
pub open spec fn strings_view(v: Seq<String>) -> Seq<Seq<char>> {
    v.map_values(|s: String| s@)
}

/// Trusted: `serde_json::from_str::<Vec<String>>`. The result is the name
/// `json_string_array` of the text.
#[verifier::external_body]
pub(crate) fn parse_string_array(text: &str) -> (r: Option<Vec<String>>)
    ensures
        match r {
            Some(v) => json_string_array(text@) == Some(strings_view(v@)),
            None => json_string_array(text@) is None,
        },
{
    match serde_json::from_str::<Vec<String>>(text) {
        Ok(v) => Some(v),
        Err(_) => None,
    }
}

/// Trusted: `serde_json::to_string` on a list of strings, which cannot fail
/// for strings. The result is the name `json_of_strings` of the list, and
/// reading it back gives the list.
#[verifier::external_body]
pub(crate) fn print_strings(items: &Vec<String>) -> (r: String)
    ensures
        r@ == json_of_strings(strings_view(items@)),
        json_string_array(r@) == Some(strings_view(items@)),
{
    match serde_json::to_string(items) {
        Ok(s) => s,
        Err(_) => String::new(),
    }
}

/// Trusted: `serde_json::to_string_pretty` on a list of strings, which
/// cannot fail for strings. The result is the name `json_of_strings_pretty`
/// of the list, and reading it back gives the list.
#[verifier::external_body]
pub(crate) fn print_strings_pretty(items: &Vec<String>) -> (r: String)
    ensures
        r@ == json_of_strings_pretty(strings_view(items@)),
        json_string_array(r@) == Some(strings_view(items@)),
{
    match serde_json::to_string_pretty(items) {
        Ok(s) => s,
        Err(_) => String::new(),
    }
}

/// What `serde_json::from_str::<Value>` followed by `get(outer)`,
/// `get(inner)` and `as_str` gives for a text: the string at that place of
/// the JSON document, or `None` where the text is not JSON or holds no
/// string there.
pub uninterp spec fn json_nested_string(text: Seq<char>, outer: Seq<char>, inner: Seq<char>) -> Option<Seq<char>>;

/// What `serde_json::from_str::<Value>` followed by `get(key)`, `as_object`
/// and a walk over the object's members gives for a text: each member's
/// name with its value where that is a string, in the order the object
/// keeps them; `None` where the text is not JSON or holds no object under
/// the key.
pub uninterp spec fn json_object_members(text: Seq<char>, key: Seq<char>) -> Option<
    Seq<(Seq<char>, Option<Seq<char>>)>,
>;

/// A list of names with optional values, as texts.
pub open spec fn members_view(v: Seq<(String, Option<String>)>) -> Seq<(Seq<char>, Option<Seq<char>>)> {
    v.map_values(|m: (String, Option<String>)| (m.0@, opt_view(m.1)))
}

/// Trusted: `serde_json::from_str::<Value>`, then `Value::get` twice and
/// `Value::as_str`. The result is the name `json_nested_string` of the
/// text and the two keys.
#[verifier::external_body]
pub(crate) fn nested_string(text: &str, outer: &str, inner: &str) -> (r: Option<String>)
    ensures
        opt_view(r) == json_nested_string(text@, outer@, inner@),
{
    let value: serde_json::Value = match serde_json::from_str(text) {
        Ok(v) => v,
        Err(_) => return None,
    };
    let found = match value.get(outer) {
        Some(o) => o.get(inner),
        None => None,
    };
    match found {
        Some(v) => v.as_str().map(String::from),
        None => None,
    }
}

/// Trusted: `serde_json::from_str::<Value>`, then `Value::get`,
/// `Value::as_object` and the object's members with `Value::as_str`. The
/// result is the name `json_object_members` of the text and the key.
#[verifier::external_body]
pub(crate) fn object_members(text: &str, key: &str) -> (r: Option<Vec<(String, Option<String>)>>)
    ensures
        match r {
            Some(v) => json_object_members(text@, key@) == Some(members_view(v@)),
            None => json_object_members(text@, key@) is None,
        },
{
    let value: serde_json::Value = match serde_json::from_str(text) {
        Ok(v) => v,
        Err(_) => return None,
    };
    let object = match value.get(key) {
        Some(m) => m.as_object()?,
        None => return None,
    };
    let mut members = Vec::new();
    for (name, version) in object {
        members.push((name.clone(), version.as_str().map(String::from)));
    }
    Some(members)
}

} // verus!
