//! The calls into `serde_json` that read a reply of the daemon. Nothing in
//! this file is proved: each contract states what the library takes on trust
//! of the function it names. What a call returns is a function of its
//! arguments alone, and is given a name; what the name is on a given text is
//! not stated.

use vstd::prelude::*;

verus! {

/// A parsed JSON document, `serde_json::Value`. The library carries it
/// without looking inside.
#[verifier::external_type_specification]
#[verifier::external_body]
pub struct ExValue(serde_json::Value);

/// The error of a failed parse or conversion, `serde_json::Error`.
#[verifier::external_type_specification]
#[verifier::external_body]
pub struct ExError(serde_json::Error);

/// What `serde_json::from_str` makes of `body` when asked for a `Value`: the
/// document, or the error where `body` is not one JSON document.
pub uninterp spec fn parsed(body: Seq<char>) -> Result<serde_json::Value, serde_json::Error>;

/// What `Value::get` finds in `value` under the string index `key`.
pub uninterp spec fn member_of(value: serde_json::Value, key: Seq<char>) -> Option<
    serde_json::Value,
>;

/// The strings that `serde_json::from_value` reads from `value` when asked
/// for a `Vec<String>`; `None` where it gives an error.
pub uninterp spec fn strings_of(value: serde_json::Value) -> Option<Seq<Seq<char>>>;

/// The text that a `serde_json::Error` displays.
pub uninterp spec fn error_message(error: serde_json::Error) -> Seq<char>;

/// The texts of a list of strings.
pub open spec fn texts(list: Seq<String>) -> Seq<Seq<char>> {
    list.map_values(|s: String| s@)
}

/// `serde_json::from_str::<Value>`: parses `body` as one JSON document. The
/// same text always gives the same outcome.
#[verifier::external_body]
pub(crate) fn parse(body: &str) -> (r: Result<serde_json::Value, serde_json::Error>)
    ensures
        r == parsed(body@),
{
    serde_json::from_str::<serde_json::Value>(body)
}

/// `Value::get` with a string index: the member `key` of a JSON object, and
/// `None` for a missing member or a value that is no object. The same value
/// and key always give the same member.
#[verifier::external_body]
pub(crate) fn member<'a>(value: &'a serde_json::Value, key: &str) -> (r: Option<
    &'a serde_json::Value,
>)
    ensures
        match r {
            Some(found) => member_of(*value, key@) == Some(*found),
            None => member_of(*value, key@) is None,
        },
{
    value.get(key)
}

/// `serde_json::from_value::<Vec<String>>` on a copy of `value`: the strings
/// of a JSON array of strings, an error for any other value. The same value
/// always gives the same strings.
#[verifier::external_body]
pub(crate) fn string_list(value: &serde_json::Value) -> (r: Result<Vec<String>, serde_json::Error>)
    ensures
        match r {
            Ok(list) => strings_of(*value) == Some(texts(list@)),
            Err(_) => strings_of(*value) is None,
        },
{
    serde_json::from_value::<Vec<String>>(value.clone())
}

/// `to_string` of a `serde_json::Error`: the message that it displays.
#[verifier::external_body]
pub(crate) fn error_text(error: &serde_json::Error) -> (r: String)
    ensures
        r@ == error_message(*error),
{
    error.to_string()
}

} // verus!
