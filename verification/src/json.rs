//! JSON values as cargo's `--message-format=json` lines carry them, parsed by
//! `serde_json`, and the lookups the build reads them with.
use vstd::prelude::*;
use vstd::string::*;

use crate::text::str_eq;

verus! {

/// A parsed JSON value. Numbers are held in their printed form; an object's
/// members keep the order and the keys `serde_json` gives them (unique keys).
#[derive(Debug)]
pub enum JsonValue {
    Null,
    Bool(bool),
    Number(String),
    String(String),
    Array(Vec<JsonValue>),
    Object(Vec<(String, JsonValue)>),
}

/// The value `serde_json::from_str` gives for `text`, or `None` when `text`
/// is not a JSON document.
pub uninterp spec fn json_parse(text: Seq<char>) -> Option<JsonValue>;

#[verifier::external_type_specification]
#[verifier::external_body]
pub struct ExSerdeValue(serde_json::Value);

/// Parses one JSON document with `serde_json::from_str` into a
/// `serde_json::Value`, then converts it member for member. The claim is only
/// that the same text always gives the same value.
#[verifier::external_body]
pub(crate) fn parse_json(text: &str) -> (r: Option<JsonValue>)
    ensures
        r == json_parse(text@),
{
    match serde_json::from_str::<serde_json::Value>(text) {
        Ok(value) => Some(from_serde(value)),
        Err(_) => None,
    }
}

/// Converts a `serde_json::Value` into a `JsonValue`, one node for one node;
/// numbers keep `serde_json`'s printed form.
#[verifier::external_body]
fn from_serde(value: serde_json::Value) -> JsonValue {
    match value {
        serde_json::Value::Null => JsonValue::Null,
        serde_json::Value::Bool(b) => JsonValue::Bool(b),
        serde_json::Value::Number(n) => JsonValue::Number(n.to_string()),
        serde_json::Value::String(s) => JsonValue::String(s),
        serde_json::Value::Array(items) => JsonValue::Array(items.into_iter().map(from_serde).collect()),
        serde_json::Value::Object(map) => JsonValue::Object(
            map.into_iter().map(|(k, v)| (k, from_serde(v))).collect(),
        ),
    }
}

/// The first member of `entries` named `key`.
pub open spec fn entry_of(entries: Seq<(String, JsonValue)>, key: Seq<char>) -> Option<JsonValue>
    decreases entries.len(),
{
    if entries.len() == 0 {
        None
    } else if entries[0].0@ == key {
        Some(entries[0].1)
    } else {
        entry_of(entries.drop_first(), key)
    }
}

/// `value.get(key)`: the member named `key` of an object; nothing for other
/// values.
pub open spec fn field(value: JsonValue, key: Seq<char>) -> Option<JsonValue> {
    match value {
        JsonValue::Object(entries) => entry_of(entries@, key),
        _ => None,
    }
}

/// `value.as_str()`: the text of a JSON string.
pub open spec fn text_of(value: Option<JsonValue>) -> Option<Seq<char>> {
    match value {
        Some(JsonValue::String(s)) => Some(s@),
        _ => None,
    }
}

/// The member named `key` of a JSON object, if present.
pub fn get_field<'a>(value: &'a JsonValue, key: &str) -> (r: Option<&'a JsonValue>)
    ensures
        match r {
            Some(v) => field(*value, key@) == Some(*v),
            None => field(*value, key@) is None,
        },
{
    match value {
        JsonValue::Object(entries) => {
            let mut i: usize = 0;
            assert(entries@.skip(0) =~= entries@);
            while i < entries.len()
                invariant
                    0 <= i <= entries.len(),
                    *value == JsonValue::Object(*entries),
                    entry_of(entries@, key@) == entry_of(entries@.skip(i as int), key@),
                decreases entries.len() - i,
            {
                assert(entries@.skip(i as int).drop_first() =~= entries@.skip(i + 1));
                if str_eq(entries[i].0.as_str(), key) {
                    return Some(&entries[i].1);
                }
                i = i + 1;
            }
            None
        },
        _ => None,
    }
}

/// The text of a JSON string value.
pub fn as_text(value: Option<&JsonValue>) -> (r: Option<&str>)
    ensures
        match r {
            Some(s) => text_of(match value {
                Some(v) => Some(*v),
                None => None,
            }) == Some(s@),
            None => text_of(match value {
                Some(v) => Some(*v),
                None => None,
            }) is None,
        },
{
    match value {
        Some(JsonValue::String(s)) => Some(s.as_str()),
        _ => None,
    }
}

} // verus!
