//! JSON documents, as far as compositor reports are read from them.
//!
//! Documents are parsed and held by serde_json. What a document holds is a
//! [`JsonView`]; the functions below read it out of a value.

use serde_json::Value;
use vstd::prelude::*;

verus! {

/// `serde_json::Value`, a parsed JSON document or a part of one.
#[verifier::external_type_specification]
#[verifier::external_body]
pub struct ExValue(Value);

/// A JSON document as a mathematical value.
pub enum JsonView {
    Null,
    Bool(bool),
    /// A number: its value, where it is written as an integer and fits, and the bits
    /// of its nearest double.
    Number { integer: Option<i64>, float_bits: Option<u64> },
    Text(Seq<char>),
    List(Seq<JsonView>),
    Object(Map<Seq<char>, JsonView>),
}

/// What a JSON value holds.
pub uninterp spec fn json_contents(value: Value) -> JsonView;

/// What a JSON document holds, where the bytes are one.
pub uninterp spec fn json_document(bytes: Seq<u8>) -> Option<JsonView>;

/// What the items of a JSON list hold.
pub open spec fn items_view(items: Seq<Value>) -> Seq<JsonView> {
    Seq::new(items.len(), |i: int| json_contents(items[i]))
}

/// `serde_json::from_slice`: the document that the bytes hold. Fails exactly when
/// they hold none.
#[verifier::external_body]
pub(crate) fn parse_json(bytes: &Vec<u8>) -> (document: Option<Value>)
    ensures
        document is Some == json_document(bytes@) is Some,
        document matches Some(value) ==> Some(json_contents(value)) == json_document(bytes@),
{
    serde_json::from_slice::<Value>(bytes).ok()
}

/// `Value::as_array`: the items of a list, and nothing for any other value.
#[verifier::external_body]
pub(crate) fn as_list(value: &Value) -> (items: Option<&Vec<Value>>)
    ensures
        items is Some == json_contents(*value) is List,
        items matches Some(list) ==> json_contents(*value) == JsonView::List(items_view(list@)),
{
    value.as_array()
}

/// `Value::get` with a key: the member of an object with that key, and nothing where
/// there is none or for any other value.
#[verifier::external_body]
pub(crate) fn member<'a>(value: &'a Value, key: &str) -> (found: Option<&'a Value>)
    ensures
        found is Some == member_view(json_contents(*value), key@) is Some,
        found matches Some(inner) ==> Some(json_contents(*inner)) == member_view(
            json_contents(*value),
            key@,
        ),
{
    value.get(key)
}

/// `Value::as_str`: the text of a string, and nothing for any other value.
#[verifier::external_body]
pub(crate) fn as_text(value: &Value) -> (text: Option<&str>)
    ensures
        text is Some == json_contents(*value) is Text,
        text matches Some(chars) ==> json_contents(*value) == JsonView::Text(chars@),
{
    value.as_str()
}

/// `Value::as_i64`: the value of a number that is written as an integer and fits, and
/// nothing for any other value.
#[verifier::external_body]
pub(crate) fn as_integer(value: &Value) -> (integer: Option<i64>)
    ensures
        integer == integer_view(json_contents(*value)),
{
    value.as_i64()
}

/// `Value::as_f64`, as bits: the nearest double of a number, and nothing for any other
/// value.
#[verifier::external_body]
pub(crate) fn as_float_bits(value: &Value) -> (bits: Option<u64>)
    ensures
        bits == float_view(json_contents(*value)),
{
    value.as_f64().map(|number| number.to_bits())
}

/// `Value::as_bool`: a truth value, and nothing for any other value.
#[verifier::external_body]
pub(crate) fn as_truth(value: &Value) -> (truth: Option<bool>)
    ensures
        truth == truth_view(json_contents(*value)),
{
    value.as_bool()
}

/// The member of an object with a key.
pub open spec fn member_view(json: JsonView, key: Seq<char>) -> Option<JsonView> {
    match json {
        JsonView::Object(members) => if members.contains_key(key) {
            Some(members[key])
        } else {
            None
        },
        _ => None,
    }
}

/// The value of a number that is written as an integer and fits.
pub open spec fn integer_view(json: JsonView) -> Option<i64> {
    match json {
        JsonView::Number { integer, float_bits } => integer,
        _ => None,
    }
}

/// The bits of the nearest double of a number.
pub open spec fn float_view(json: JsonView) -> Option<u64> {
    match json {
        JsonView::Number { integer, float_bits } => float_bits,
        _ => None,
    }
}

/// A truth value.
pub open spec fn truth_view(json: JsonView) -> Option<bool> {
    match json {
        JsonView::Bool(flag) => Some(flag),
        _ => None,
    }
}

/// The text of a string.
pub open spec fn text_view(json: JsonView) -> Option<Seq<char>> {
    match json {
        JsonView::Text(chars) => Some(chars),
        _ => None,
    }
}

/// A 32-bit number.
pub open spec fn small_view(json: JsonView) -> Option<i32> {
    match integer_view(json) {
        Some(n) => if i32::MIN <= n <= i32::MAX {
            Some(n as i32)
        } else {
            None
        },
        None => None,
    }
}

/// A member that is a 32-bit number.
pub open spec fn small_member(json: JsonView, key: Seq<char>) -> Option<i32> {
    match member_view(json, key) {
        Some(inner) => small_view(inner),
        None => None,
    }
}

/// A member that is a text.
pub open spec fn text_member(json: JsonView, key: Seq<char>) -> Option<Seq<char>> {
    match member_view(json, key) {
        Some(inner) => text_view(inner),
        None => None,
    }
}

/// The first two items of a member that is a list, where both are 32-bit numbers.
pub open spec fn pair_member(json: JsonView, key: Seq<char>) -> Option<(i32, i32)> {
    match member_view(json, key) {
        Some(JsonView::List(items)) => if items.len() >= 2 {
            match (small_view(items[0]), small_view(items[1])) {
                (Some(a), Some(b)) => Some((a, b)),
                _ => None,
            }
        } else {
            None
        },
        _ => None,
    }
}

fn read_small(value: &Value) -> (number: Option<i32>)
    ensures
        number == small_view(json_contents(*value)),
{
    match as_integer(value) {
        Some(n) => {
            if n >= i32::MIN as i64 && n <= i32::MAX as i64 {
                Some(n as i32)
            } else {
                None
            }
        },
        None => None,
    }
}

pub(crate) fn read_small_member(value: &Value, key: &str) -> (number: Option<i32>)
    ensures
        number == small_member(json_contents(*value), key@),
{
    match member(value, key) {
        Some(inner) => read_small(inner),
        None => None,
    }
}

pub(crate) fn read_text_member(value: &Value, key: &str) -> (text: Option<String>)
    ensures
        text is Some == text_member(json_contents(*value), key@) is Some,
        text matches Some(chars) ==> Some(chars@) == text_member(json_contents(*value), key@),
{
    match member(value, key) {
        Some(inner) => match as_text(inner) {
            Some(chars) => Some(chars.to_owned()),
            None => None,
        },
        None => None,
    }
}

pub(crate) fn read_pair_member(value: &Value, key: &str) -> (pair: Option<(i32, i32)>)
    ensures
        pair == pair_member(json_contents(*value), key@),
{
    match member(value, key) {
        Some(inner) => match as_list(inner) {
            Some(items) => {
                if items.len() >= 2 {
                    assert(items_view(items@)[0] == json_contents(items@[0]));
                    assert(items_view(items@)[1] == json_contents(items@[1]));
                    match (read_small(&items[0]), read_small(&items[1])) {
                        (Some(a), Some(b)) => Some((a, b)),
                        _ => None,
                    }
                } else {
                    None
                }
            },
            None => None,
        },
        None => None,
    }
}

/// A member is found only in an object that has it, and a number only where it is
/// written as an integer of 32 bits; nothing else is taken for one.
pub proof fn members_are_read_as_they_are(members: Map<Seq<char>, JsonView>, key: Seq<char>)
    ensures
        ({
            let json = JsonView::Object(members);
            if members.contains_key(key) {
                &&& match members[key] {
                    JsonView::Number { integer: Some(n), float_bits } => if -0x8000_0000 <= n
                        <= 0x7fff_ffff {
                        small_member(json, key) is Some && small_member(json, key)->0 == n
                    } else {
                        small_member(json, key) is None
                    },
                    _ => small_member(json, key) is None,
                }
                &&& match members[key] {
                    JsonView::Text(chars) => text_member(json, key) == Some(chars),
                    _ => text_member(json, key) is None,
                }
                &&& member_view(json, key) == Some(members[key])
            } else {
                small_member(json, key) is None && text_member(json, key) is None && pair_member(
                    json,
                    key,
                ) is None && member_view(json, key) is None
            }
        }),
{
}

/// A pair is a list that starts with two integers of 32 bits: the first one comes
/// first, and what follows does not count.
pub proof fn pairs_are_read_in_order(
    members: Map<Seq<char>, JsonView>,
    key: Seq<char>,
    first: i32,
    second: i32,
    first_bits: Option<u64>,
    second_bits: Option<u64>,
    rest: Seq<JsonView>,
)
    requires
        members.contains_key(key),
        members[key] == JsonView::List(
            seq![
                (JsonView::Number { integer: Some(first as i64), float_bits: first_bits }),
                (JsonView::Number { integer: Some(second as i64), float_bits: second_bits }),
            ] + rest,
        ),
    ensures
        pair_member(JsonView::Object(members), key) == Some((first, second)),
{
}

/// A member that is no list, or a list of fewer than two items, is no pair.
pub proof fn short_lists_are_no_pairs(json: JsonView, key: Seq<char>)
    ensures
        pair_member(json, key) is Some ==> match json {
            JsonView::Object(members) => members.contains_key(key) && match members[key] {
                JsonView::List(items) => items.len() >= 2 && items[0] is Number
                    && items[1] is Number,
                _ => false,
            },
            _ => false,
        },
{
}

/// Truth values and doubles are read from values of their own kind only.
pub proof fn values_keep_their_kinds(json: JsonView)
    ensures
        truth_view(json) == Some(true) <==> json == JsonView::Bool(true),
        truth_view(json) == Some(false) <==> json == JsonView::Bool(false),
        float_view(json) is Some ==> json is Number,
        json matches JsonView::Number { integer, float_bits } ==> float_view(json) == float_bits
            && integer_view(json) == integer,
{
}

} // verus!
