//! Members of JSON values.

use crate::text;
use vstd::prelude::*;
use vstd::string::*;

verus! {

/// What is wrong with a text as JSON, as `serde_json` says it, if anything is.
pub uninterp spec fn json_fault(text: Seq<char>) -> Option<Seq<char>>;

/// The characters of the member of an object that is a string.
pub uninterp spec fn json_text(text: Seq<char>, key: Seq<char>) -> Option<Seq<char>>;

/// The number of the member of an object that is one without sign and fraction.
pub uninterp spec fn json_number(text: Seq<char>, key: Seq<char>) -> Option<u64>;

/// The truth value of the member of an object that is one.
pub uninterp spec fn json_flag(text: Seq<char>, key: Seq<char>) -> Option<bool>;

/// The member of an object, as JSON.
pub uninterp spec fn json_part(text: Seq<char>, key: Seq<char>) -> Option<Seq<char>>;

/// The items of the member of an object that is an array: of each one that is a
/// string, its characters.
pub uninterp spec fn json_texts(text: Seq<char>, key: Seq<char>) -> Option<
    Seq<Option<Seq<char>>>,
>;

/// The values of texts that may be absent.
pub open spec fn optional_values(texts: Seq<Option<String>>) -> Seq<Option<Seq<char>>> {
    Seq::new(texts.len(), |i: int| text::optional(texts[i]))
}

/// `serde_json::from_str` into a `serde_json::Value`.
///
/// Claimed: whether it fails, and with which text, depends on the text alone.
#[verifier::external_body]
pub(crate) fn check_json(text: &str) -> (checked: Result<(), String>)
    ensures
        match checked {
            Ok(_) => json_fault(text@) is None,
            Err(message) => json_fault(text@) == Some(message@),
        },
{
    let parsed = serde_json::from_str::<serde_json::Value>(text);
    parsed.map(|_| ()).map_err(|err| err.to_string())
}

/// `serde_json::from_str`, then `Value::get` and `Value::as_str`.
///
/// Claimed: what is found depends on the text and the key alone, and it fails where
/// the text is no JSON.
#[verifier::external_body]
pub(crate) fn text_member(text: &str, key: &str) -> (member: Result<Option<String>, String>)
    ensures
        match member {
            Ok(found) => json_fault(text@) is None && text::optional(found) == json_text(
                text@,
                key@,
            ),
            Err(message) => json_fault(text@) == Some(message@),
        },
{
    let parsed = serde_json::from_str::<serde_json::Value>(text);
    let value = parsed.map_err(|err| err.to_string())?;
    Ok(value.get(key).and_then(|found| found.as_str()).map(|found| found.to_owned()))
}

/// `serde_json::from_str`, then `Value::get` and `Value::as_u64`.
///
/// Claimed: what is found depends on the text and the key alone, and it fails where
/// the text is no JSON.
#[verifier::external_body]
pub(crate) fn number_member(text: &str, key: &str) -> (member: Result<Option<u64>, String>)
    ensures
        match member {
            Ok(found) => json_fault(text@) is None && found == json_number(text@, key@),
            Err(message) => json_fault(text@) == Some(message@),
        },
{
    let parsed = serde_json::from_str::<serde_json::Value>(text);
    let value = parsed.map_err(|err| err.to_string())?;
    Ok(value.get(key).and_then(|found| found.as_u64()))
}

/// `serde_json::from_str`, then `Value::get` and `Value::as_bool`.
///
/// Claimed: what is found depends on the text and the key alone, and it fails where
/// the text is no JSON.
#[verifier::external_body]
pub(crate) fn flag_member(text: &str, key: &str) -> (member: Result<Option<bool>, String>)
    ensures
        match member {
            Ok(found) => json_fault(text@) is None && found == json_flag(text@, key@),
            Err(message) => json_fault(text@) == Some(message@),
        },
{
    let parsed = serde_json::from_str::<serde_json::Value>(text);
    let value = parsed.map_err(|err| err.to_string())?;
    Ok(value.get(key).and_then(|found| found.as_bool()))
}

/// `serde_json::from_str`, then `Value::get`, and what is found by
/// `Value::to_string`.
///
/// Claimed: what is found depends on the text and the key alone, and it fails where
/// the text is no JSON.
#[verifier::external_body]
pub(crate) fn part_member(text: &str, key: &str) -> (member: Result<Option<String>, String>)
    ensures
        match member {
            Ok(found) => json_fault(text@) is None && text::optional(found) == json_part(
                text@,
                key@,
            ),
            Err(message) => json_fault(text@) == Some(message@),
        },
{
    let parsed = serde_json::from_str::<serde_json::Value>(text);
    let value = parsed.map_err(|err| err.to_string())?;
    Ok(value.get(key).map(|found| found.to_string()))
}

/// `serde_json::from_str`, then `Value::get` and `Value::as_array`, and each item by
/// `Value::as_str`.
///
/// Claimed: what is found depends on the text and the key alone, and it fails where
/// the text is no JSON.
#[verifier::external_body]
pub(crate) fn texts_member(text: &str, key: &str) -> (member: Result<
    Option<Vec<Option<String>>>,
    String,
>)
    ensures
        match member {
            Ok(Some(found)) => json_fault(text@) is None && json_texts(text@, key@) == Some(
                optional_values(found@),
            ),
            Ok(None) => json_fault(text@) is None && json_texts(text@, key@) is None,
            Err(message) => json_fault(text@) == Some(message@),
        },
{
    let parsed = serde_json::from_str::<serde_json::Value>(text);
    let value = parsed.map_err(|err| err.to_string())?;
    let items = value.get(key).and_then(|found| found.as_array());
    Ok(items.map(|all| all.iter().map(|item| item.as_str().map(|s| s.to_owned())).collect()))
}

} // verus!
