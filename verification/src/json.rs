//! Reading JSON through `serde_json`.
//!
//! A [`Value`] is opaque to the proofs. What they know of one is what the
//! functions [`json_member`], [`json_text`] and [`json_items`] name, and they
//! know of those only what the wrappers in this file state.

use crate::text::{list_view, text_view, views};
use serde_json::Value;
use vstd::prelude::*;

verus! {

/// `serde_json::Value`, a JSON value of any kind.
#[verifier::external_type_specification]
#[verifier::external_body]
pub struct ExValue(serde_json::Value);

/// What `serde_json::from_slice` makes of `body`: the value that it reads, or
/// the text by which its error describes why it reads none.
pub uninterp spec fn json_parsed(body: Seq<u8>) -> std::result::Result<Value, Seq<char>>;

/// What `Value::get` finds in `value` under the key `key`.
pub uninterp spec fn json_member(value: Value, key: Seq<char>) -> Option<Value>;

/// What `Value::as_str` gives for `value`: its text, where it is a JSON string.
pub uninterp spec fn json_text(value: Value) -> Option<Seq<char>>;

/// What `Value::as_array` gives for `value`: its elements in order, where it
/// is a JSON array.
pub uninterp spec fn json_items(value: Value) -> Option<Seq<Value>>;

/// Calls `serde_json::from_slice` for a `Value` and, where that fails,
/// `to_string` on its error. Claimed: whether a value is read, which value,
/// and how the error describes itself depend on the bytes alone, and are what
/// [`json_parsed`] names.
#[verifier::external_body]
pub(crate) fn parse(body: &[u8]) -> (parsed: std::result::Result<Value, String>)
    ensures
        match parsed {
            Ok(value) => json_parsed(body@) == Ok::<Value, Seq<char>>(value),
            Err(fault) => json_parsed(body@) == Err::<Value, Seq<char>>(fault@),
        },
{
    match serde_json::from_slice::<Value>(body) {
        Ok(value) => Ok(value),
        Err(fault) => Err(fault.to_string()),
    }
}

/// Calls `Value::get` with a string key, which finds the member of that name
/// in an object and nothing in any other value. Claimed: the outcome is the
/// one that [`json_member`] names.
#[verifier::external_body]
pub(crate) fn member<'a>(value: &'a Value, key: &str) -> (found: Option<&'a Value>)
    ensures
        match found {
            Some(inner) => json_member(*value, key@) == Some(*inner),
            None => json_member(*value, key@) is None,
        },
{
    value.get(key)
}

/// Calls `Value::as_str`. Claimed: the outcome is the one that [`json_text`]
/// names.
#[verifier::external_body]
pub(crate) fn as_text<'a>(value: &'a Value) -> (found: Option<&'a str>)
    ensures
        match found {
            Some(text) => json_text(*value) == Some(text@),
            None => json_text(*value) is None,
        },
{
    value.as_str()
}

/// Calls `Value::as_array`. Claimed: the outcome is the one that
/// [`json_items`] names.
#[verifier::external_body]
pub(crate) fn as_items<'a>(value: &'a Value) -> (found: Option<&'a Vec<Value>>)
    ensures
        match found {
            Some(items) => json_items(*value) == Some(items@),
            None => json_items(*value) is None,
        },
{
    value.as_array()
}

/// The text under `key` in `value`, where there is one.
pub open spec fn text_at(value: Value, key: Seq<char>) -> Option<Seq<char>> {
    match json_member(value, key) {
        Some(inner) => json_text(inner),
        None => None,
    }
}

/// Whether every one of `items` is a JSON string.
pub open spec fn all_text(items: Seq<Value>) -> bool {
    forall|i: int| 0 <= i < items.len() ==> (#[trigger] json_text(items[i])) is Some
}

/// The texts of `items`, in their order.
pub open spec fn texts_of(items: Seq<Value>) -> Seq<Seq<char>> {
    Seq::new(items.len(), |i: int| json_text(items[i]).unwrap())
}

/// The list of texts under `key` in `value`: there is one where the member
/// exists, is an array, and holds strings only.
pub open spec fn list_at(value: Value, key: Seq<char>) -> Option<Seq<Seq<char>>> {
    match json_member(value, key) {
        Some(inner) => match json_items(inner) {
            Some(items) => if all_text(items) {
                Some(texts_of(items))
            } else {
                None
            },
            None => None,
        },
        None => None,
    }
}

/// Reads the string under `key`.
pub fn read_text(value: &Value, key: &str) -> (text: Option<String>)
    ensures
        text_view(text) == text_at(*value, key@),
{
    match member(value, key) {
        Some(inner) => match as_text(inner) {
            Some(text) => Some(text.to_owned()),
            None => None,
        },
        None => None,
    }
}

/// Reads the array of strings under `key`.
pub fn read_list(value: &Value, key: &str) -> (list: Option<Vec<String>>)
    ensures
        list_view(list) == list_at(*value, key@),
{
    let inner = match member(value, key) {
        Some(inner) => inner,
        None => { return None; },
    };
    let items = match as_items(inner) {
        Some(items) => items,
        None => { return None; },
    };
    let mut strings: Vec<String> = Vec::new();
    let mut at: usize = 0;
    while at < items.len()
        invariant
            at <= items.len(),
            strings.len() == at,
            json_member(*value, key@) == Some(*inner),
            json_items(*inner) == Some(items@),
            forall|i: int|
                0 <= i < at ==> (#[trigger] json_text(items@[i])) == Some(strings@[i]@),
        decreases items.len() - at,
    {
        match as_text(&items[at]) {
            Some(text) => {
                strings.push(text.to_owned());
            },
            None => {
                assert(!all_text(items@));
                return None;
            },
        }
        at += 1;
    }
    assert(all_text(items@));
    assert(views(strings@) =~= texts_of(items@));
    Some(strings)
}

} // verus!
