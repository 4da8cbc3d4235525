//! JSON values as `serde_json` holds them, and the mathematical model that the
//! contracts of this crate speak of.
//!
//! A `serde_json::Value` is opaque to the verifier. What it holds is named by
//! [`json_of`], and what an object's member table holds by [`members`]; every
//! call into `serde_json` that the crate makes is declared here, with what it
//! does to those two.
use vstd::prelude::*;

use crate::decimal::signed_decimal;
use crate::quoting::{bracketed, quoted};
use crate::text::texts_of;

verus! {

/// A JSON value.
///
/// `Integer` is any number that `serde_json` keeps as a 64-bit integer, signed or
/// not. `Float` is any other number, told apart by the bit pattern of its double.
/// The members of an object have no order and no name occurs twice.
pub enum Json {
    Null,
    Bool(bool),
    Integer(int),
    Float(u64),
    Text(Seq<char>),
    Array(Seq<Json>),
    Object(Map<Seq<char>, Json>),
}

/// `serde_json::Value`, carried through as it is.
#[verifier::external_type_specification]
#[verifier::external_body]
pub struct ExValue(serde_json::Value);

/// `serde_json::Map`, the member table of a JSON object.
#[verifier::external_type_specification]
#[verifier::external_body]
#[verifier::reject_recursive_types(K)]
#[verifier::reject_recursive_types(V)]
pub struct ExMap<K, V>(serde_json::Map<K, V>);

/// `serde_json::Error`, carried through as it is.
#[verifier::external_type_specification]
#[verifier::external_body]
pub struct ExError(serde_json::Error);

/// What a `serde_json::Value` holds.
pub uninterp spec fn json_of(value: serde_json::Value) -> Json;

/// What a `serde_json::Map` holds, by member name.
pub uninterp spec fn members(map: serde_json::Map<String, serde_json::Value>) -> Map<
    Seq<char>,
    Json,
>;

/// The text that `serde_json::to_string` makes of a value that is no integer, no string
/// and no array of strings.
pub uninterp spec fn compact_text(json: Json) -> Seq<char>;

/// Every element of an array is a string.
pub open spec fn all_texts(elements: Seq<Json>) -> bool {
    forall|i: int| 0 <= i < elements.len() ==> #[trigger] elements[i] is Text
}

/// The strings that an array of strings holds.
pub open spec fn texts_in(elements: Seq<Json>) -> Seq<Seq<char>> {
    elements.map_values(|element: Json| element->Text_0)
}

/// The text of a value: the numeral of an integer, a string in quotes, an array of
/// strings in brackets, and the compact text of any other value.
pub open spec fn json_text(json: Json) -> Seq<char> {
    match json {
        Json::Integer(number) => signed_decimal(number),
        Json::Text(text) => quoted(text),
        Json::Array(elements) if all_texts(elements) => bracketed(texts_in(elements)),
        _ => compact_text(json),
    }
}

/// What each value of a sequence holds.
pub open spec fn jsons_of(values: Seq<serde_json::Value>) -> Seq<Json> {
    values.map_values(|value: serde_json::Value| json_of(value))
}

/// What an optional value holds.
pub open spec fn payload_of(value: Option<serde_json::Value>) -> Option<Json> {
    match value {
        Some(value) => Some(json_of(value)),
        None => None,
    }
}

/// A JSON array of strings.
pub open spec fn text_array(texts: Seq<Seq<char>>) -> Json {
    Json::Array(texts.map_values(|text: Seq<char>| Json::Text(text)))
}

/// The text of an array of strings.
pub proof fn lemma_text_array(texts: Seq<Seq<char>>)
    ensures
        json_text(text_array(texts)) == bracketed(texts),
{
    let elements = text_array(texts)->Array_0;
    assert(all_texts(elements));
    assert(texts_in(elements) =~= texts);
}

/// An object without members.
pub open spec fn no_members() -> Map<Seq<char>, Json> {
    Map::empty()
}

/// An object has `count` members.
pub open spec fn has_count(object: Map<Seq<char>, Json>, count: nat) -> bool {
    object.dom().finite() && object.dom().len() == count
}

/// The member called `name`, if the object has one.
pub open spec fn member_of(object: Map<Seq<char>, Json>, name: Seq<char>) -> Option<Json> {
    if object.contains_key(name) {
        Some(object[name])
    } else {
        None
    }
}

/// `json` is an integer that fits in an `i64`.
pub open spec fn is_i64(json: Json) -> bool {
    json matches Json::Integer(n) && i64::MIN <= n <= i64::MAX
}

/// `Value::as_str`: the string that a JSON string holds, and `None` of any other
/// value.
pub assume_specification[ serde_json::Value::as_str ](value: &serde_json::Value) -> (text: Option<
    &str,
>)
    ensures
        match text {
            Some(text) => json_of(*value) == Json::Text(text@),
            None => !(json_of(*value) is Text),
        },
;

/// `Value::as_i64`: an integer that an `i64` can represent, and `None` of any other
/// value, a larger integer and a number with a fraction or an exponent included.
pub assume_specification[ serde_json::Value::as_i64 ](value: &serde_json::Value) -> (number: Option<
    i64,
>)
    ensures
        match number {
            Some(number) => json_of(*value) == Json::Integer(number as int),
            None => !is_i64(json_of(*value)),
        },
;

/// `Value::is_null`: whether the value is `null`.
pub assume_specification[ serde_json::Value::is_null ](value: &serde_json::Value) -> (null: bool)
    ensures
        null == (json_of(*value) is Null),
;

/// `Value::as_array`: the elements of an array in their order, and `None` of any
/// other value.
pub assume_specification[ serde_json::Value::as_array ](value: &serde_json::Value) -> (array:
    Option<&Vec<serde_json::Value>>)
    ensures
        match array {
            Some(array) => json_of(*value) == Json::Array(jsons_of(array@)),
            None => !(json_of(*value) is Array),
        },
;

/// `Value::as_object`: the member table of an object, and `None` of any other value.
pub assume_specification[ serde_json::Value::as_object ](value: &serde_json::Value) -> (object:
    Option<&serde_json::Map<String, serde_json::Value>>)
    ensures
        match object {
            Some(object) => json_of(*value) == Json::Object(members(*object)),
            None => !(json_of(*value) is Object),
        },
;

/// `Value::clone`: a value that holds the same.
pub assume_specification[ <serde_json::Value as Clone>::clone ](value: &serde_json::Value) -> (copy:
    serde_json::Value)
    ensures
        json_of(copy) == json_of(*value),
;

/// `Map::new`: a table without members.
pub assume_specification[ serde_json::Map::<String, serde_json::Value>::new ]() -> (map:
    serde_json::Map<String, serde_json::Value>)
    ensures
        members(map) == no_members(),
;

/// `Map::len`: the number of members.
pub assume_specification[ serde_json::Map::<String, serde_json::Value>::len ](
    map: &serde_json::Map<String, serde_json::Value>,
) -> (count: usize)
    ensures
        has_count(members(*map), count as nat),
;

/// `Map::insert`: the table then holds `v` under `k`, and every other member as
/// before; what it held under `k` is returned.
pub assume_specification[ serde_json::Map::<String, serde_json::Value>::insert ](
    map: &mut serde_json::Map<String, serde_json::Value>,
    k: String,
    v: serde_json::Value,
) -> (previous: Option<serde_json::Value>)
    ensures
        members(*final(map)) == members(*old(map)).insert(k@, json_of(v)),
        payload_of(previous) == member_of(members(*old(map)), k@),
;

/// `Map::get` with a `str` key: the value under `name`, if there is one.
#[verifier::external_body]
pub(crate) fn member<'a>(
    map: &'a serde_json::Map<String, serde_json::Value>,
    name: &str,
) -> (value: Option<&'a serde_json::Value>)
    ensures
        match value {
            Some(value) => member_of(members(*map), name@) == Some(json_of(*value)),
            None => member_of(members(*map), name@) is None,
        },
{
    map.get(name)
}

/// `Value::from` a `String`: a JSON string with those characters.
#[verifier::external_body]
pub(crate) fn text_value(text: String) -> (value: serde_json::Value)
    ensures
        json_of(value) == Json::Text(text@),
{
    serde_json::Value::from(text)
}

/// `Value::from` an `i64`: that integer.
#[verifier::external_body]
pub(crate) fn integer_value(number: i64) -> (value: serde_json::Value)
    ensures
        json_of(value) == Json::Integer(number as int),
{
    serde_json::Value::from(number)
}

/// `Value::from` a `Vec<Value>`: a JSON array of those values in their order.
#[verifier::external_body]
pub(crate) fn array_value(values: Vec<serde_json::Value>) -> (value: serde_json::Value)
    ensures
        json_of(value) == Json::Array(jsons_of(values@)),
{
    serde_json::Value::from(values)
}

/// A JSON array of the strings in their order.
pub(crate) fn text_array_value(texts: &Vec<String>) -> (value: serde_json::Value)
    ensures
        json_of(value) == text_array(texts_of(texts@)),
{
    let ghost all = texts_of(texts@);
    let mut values: Vec<serde_json::Value> = Vec::new();
    let mut i: usize = 0;
    while i < texts.len()
        invariant
            i <= texts.len(),
            all == texts_of(texts@),
            jsons_of(values@) == text_array(all.take(i as int))->Array_0,
        decreases texts.len() - i,
    {
        let ghost before = values@;
        let value = text_value(texts[i].clone());
        values.push(value);
        proof {
            assert(all.take(i + 1) =~= all.take(i as int).push(texts@[i as int]@));
            assert(jsons_of(values@) =~= jsons_of(before).push(json_of(value)));
            assert(text_array(all.take(i + 1))->Array_0 =~= text_array(
                all.take(i as int),
            )->Array_0.push(json_of(value)));
        }
        i += 1;
    }
    assert(all.take(i as int) =~= all);
    array_value(values)
}

/// `Value::from` a `Map`: an object with those members.
#[verifier::external_body]
pub(crate) fn object_value(map: serde_json::Map<String, serde_json::Value>) -> (value:
    serde_json::Value)
    ensures
        json_of(value) == Json::Object(members(map)),
{
    serde_json::Value::from(map)
}

/// `serde_json::to_string`: the compact text of a value. Every value has one: no
/// step of writing a value into a string reports an error. The text of an integer is
/// its decimal numeral, with a minus sign where it is negative. The text of a string
/// stands in quotes, where quotes, backslashes and the characters below the space are
/// escaped, the latter by their short form or else by four hexadecimal digits. An
/// array of strings is their texts in brackets, with commas between them and no white
/// space. Any other text is a function of what the value holds alone, for the member
/// table keeps its names sorted.
#[verifier::external_body]
pub(crate) fn value_text(value: &serde_json::Value) -> (text: Result<String, serde_json::Error>)
    ensures
        text matches Ok(text) && match json_of(*value) {
            Json::Integer(number) => text@ == signed_decimal(number),
            Json::Text(string) => text@ == quoted(string),
            Json::Array(elements) if all_texts(elements) => text@ == bracketed(
                texts_in(elements),
            ),
            json => text@ == compact_text(json),
        },
{
    serde_json::to_string(value)
}

} // verus!
