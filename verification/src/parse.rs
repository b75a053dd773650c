//! Reading JSON text, by `serde_json`.
//!
//! The text is parsed by `serde_json` into its own `Value`; the functions
//! here walk that value and rebuild it as a [`Json`] of plain data.

use crate::error::DecodeError;
use crate::json::{lemma_array_view, lemma_object_view, Json, JsonNumber, JsonNumberView, JsonView};
use vstd::prelude::*;

verus! {

/// `serde_json::Value`, a parsed JSON value, opaque to the verifier.
#[verifier::external_type_specification]
#[verifier::external_body]
pub struct ExValue(serde_json::Value);

/// `serde_json::Error`, opaque to the verifier.
#[verifier::external_type_specification]
#[verifier::external_body]
pub struct ExError(serde_json::Error);

/// What a `serde_json::Value` holds: null, a boolean, a number, a string,
/// the items of an array, or the members of an object in the order in which
/// its map hands them out.
pub uninterp spec fn value_contents(value: serde_json::Value) -> JsonView;

/// What `serde_json::from_str` reads from a text as a `serde_json::Value`,
/// and nothing where it reports an error.
pub uninterp spec fn text_contents(text: Seq<char>) -> Option<JsonView>;

/// `serde_json::from_str::<serde_json::Value>`. The outcome is the one named
/// by [`text_contents`]: an error where that is nothing, else a value that
/// holds what it names. Nothing more is claimed of the grammar.
#[verifier::external_body]
fn value_from_text(text: &str) -> (read: Result<serde_json::Value, serde_json::Error>)
    ensures
        match read {
            Ok(value) => text_contents(text@) == Some(value_contents(value)),
            Err(_) => text_contents(text@) is None,
        },
{
    serde_json::from_str::<serde_json::Value>(text)
}

/// `serde_json::Value::as_bool`: the boolean of a boolean value, nothing of
/// any other value.
pub assume_specification[ serde_json::Value::as_bool ](value: &serde_json::Value) -> (flag:
    Option<bool>)
    ensures
        flag == match value_contents(*value) {
            JsonView::Bool(b) => Some(b),
            _ => None,
        },
;

/// `serde_json::Value::as_str`: the text of a string value, nothing of any
/// other value.
pub assume_specification<'a>[ serde_json::Value::as_str ](value: &'a serde_json::Value) -> (text:
    Option<&'a str>)
    ensures
        match value_contents(*value) {
            JsonView::Text(t) => text matches Some(s) && s@ == t,
            _ => text is None,
        },
;

/// `serde_json::Value::as_u64`: the integer of a number that is held as a
/// non-negative integer, nothing of any other value.
pub assume_specification[ serde_json::Value::as_u64 ](value: &serde_json::Value) -> (number:
    Option<u64>)
    ensures
        number == match value_contents(*value) {
            JsonView::Number(JsonNumberView::Unsigned(n)) => Some(n),
            _ => None,
        },
;

/// `serde_json::Value::as_i64`: the integer of a number that is held as a
/// negative integer, or as a non-negative one that an `i64` can hold;
/// nothing of any other value.
pub assume_specification[ serde_json::Value::as_i64 ](value: &serde_json::Value) -> (number:
    Option<i64>)
    ensures
        number == match value_contents(*value) {
            JsonView::Number(JsonNumberView::Unsigned(n)) => if n <= i64::MAX {
                Some(n as i64)
            } else {
                None
            },
            JsonView::Number(JsonNumberView::Signed(n)) => Some(n),
            _ => None,
        },
;

/// `serde_json::Value::as_number` and the number's `to_string`: the decimal
/// text of a number, nothing of any other value. Of a number that is not
/// held as an integer, the text is the one that [`value_contents`] holds.
#[verifier::external_body]
fn value_number_text(value: &serde_json::Value) -> (text: Option<String>)
    ensures
        match value_contents(*value) {
            JsonView::Number(JsonNumberView::Real(t)) => text matches Some(s) && s@ == t,
            JsonView::Number(_) => text is Some,
            _ => text is None,
        },
{
    value.as_number().map(|number| number.to_string())
}

/// `serde_json::Value::as_array`: the items of an array, one by one and in
/// their order, nothing of any other value.
pub assume_specification<'a>[ serde_json::Value::as_array ](value: &'a serde_json::Value) -> (array:
    Option<&'a Vec<serde_json::Value>>)
    ensures
        match value_contents(*value) {
            JsonView::Array(items) => array matches Some(held) && held@.len() == items.len()
                && forall|i: int|
                0 <= i < items.len() ==> value_contents(#[trigger] held@[i]) == items[i],
            _ => array is None,
        },
;

/// `serde_json::Value::as_object` and the map's `iter`: the members of an
/// object, each as its key and its value, in the order in which the map
/// hands them out; nothing of any other value.
#[verifier::external_body]
fn value_members(value: &serde_json::Value) -> (members: Option<Vec<(&String, &serde_json::Value)>>)
    ensures
        match value_contents(*value) {
            JsonView::Object(held) => members matches Some(pairs) && pairs@.len() == held.len()
                && forall|i: int|
                0 <= i < held.len() ==> (#[trigger] pairs@[i]).0@ == held[i].0 && value_contents(
                    *pairs@[i].1,
                ) == held[i].1,
            _ => members is None,
        },
{
    value.as_object().map(|map| map.iter().collect())
}

/// Rebuilds a parsed value as plain data.
fn json_from_value(value: &serde_json::Value) -> (json: Json)
    ensures
        json@ == value_contents(*value),
    decreases value_contents(*value),
{
    if let Some(flag) = value.as_bool() {
        return Json::Bool(flag);
    }
    if let Some(text) = value.as_str() {
        return Json::Text(text.to_owned());
    }
    if let Some(number) = value.as_u64() {
        return Json::Number(JsonNumber::Unsigned(number));
    }
    if let Some(number) = value.as_i64() {
        return Json::Number(JsonNumber::Signed(number));
    }
    if let Some(text) = value_number_text(value) {
        return Json::Number(JsonNumber::Real(text));
    }
    if let Some(array) = value.as_array() {
        let ghost held = value_contents(*value)->Array_0;
        let mut items: Vec<Json> = Vec::new();
        let mut i: usize = 0;
        while i < array.len()
            invariant
                i <= array.len(),
                items.len() == i,
                value_contents(*value) == JsonView::Array(held),
                array@.len() == held.len(),
                forall|k: int| 0 <= k < held.len() ==> value_contents(#[trigger] array@[k]) == held[k],
                forall|k: int| 0 <= k < i ==> (#[trigger] items@[k])@ == held[k],
            decreases array.len() - i,
        {
            assert(decreases_to!(value_contents(*value) => value_contents(*value)->Array_0));
            items.push(json_from_value(&array[i]));
            i += 1;
        }
        proof {
            lemma_array_view(items);
            assert(items.deep_view() =~= held);
        }
        return Json::Array(items);
    }
    if let Some(pairs) = value_members(value) {
        let ghost held = value_contents(*value)->Object_0;
        let mut members: Vec<(String, Json)> = Vec::new();
        let mut i: usize = 0;
        while i < pairs.len()
            invariant
                i <= pairs.len(),
                members.len() == i,
                value_contents(*value) == JsonView::Object(held),
                pairs@.len() == held.len(),
                forall|k: int|
                    0 <= k < held.len() ==> (#[trigger] pairs@[k]).0@ == held[k].0 && value_contents(
                        *pairs@[k].1,
                    ) == held[k].1,
                forall|k: int| 0 <= k < i ==> (#[trigger] members@[k]).deep_view() == held[k],
            decreases pairs.len() - i,
        {
            assert(decreases_to!(value_contents(*value) => value_contents(*value)->Object_0));
            let key = pairs[i].0.clone();
            let member = json_from_value(pairs[i].1);
            members.push((key, member));
            i += 1;
        }
        proof {
            lemma_object_view(members);
            assert(members.deep_view() =~= held);
        }
        return Json::Object(members);
    }
    Json::Null
}

/// Reads a text as JSON.
///
/// The value is the one that `serde_json` reads from the text; a text that
/// it does not take is a syntax error.
pub fn parse_json(text: &str) -> (read: Result<Json, DecodeError>)
    ensures
        match text_contents(text@) {
            Some(value) => read matches Ok(json) && json@ == value,
            None => read == Err::<Json, DecodeError>(DecodeError::Syntax),
        },
{
    match value_from_text(text) {
        Ok(value) => Ok(json_from_value(&value)),
        Err(_) => Err(DecodeError::Syntax),
    }
}

} // verus!
