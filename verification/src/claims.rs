//! The claims of a token as a JSON object: how they are written and read.

use vstd::prelude::*;
use serde_json::Value;

verus! {

/// `serde_json::Value`: a JSON value.
#[verifier::external_type_specification]
#[verifier::external_body]
pub struct ExJsonValue(serde_json::Value);

/// `serde_json::Map`: a JSON object, here the claims of a token.
#[verifier::external_type_specification]
#[verifier::external_body]
#[verifier::reject_recursive_types(K)]
#[verifier::reject_recursive_types(V)]
pub struct ExJsonMap<K, V>(serde_json::Map<K, V>);

/// A JSON value as plain values. A number is whole where it is kept as an integer;
/// what an object holds is not looked into.
pub enum Json {
    Null,
    Flag(bool),
    Whole(int),
    Fraction,
    Text(Seq<char>),
    List(Seq<Json>),
    Object,
}

/// What a `serde_json::Value` holds.
pub uninterp spec fn json_view(value: serde_json::Value) -> Json;

/// What a `serde_json::Map` holds: the value under each of its keys.
pub uninterp spec fn claims_content(claims: serde_json::Map<String, Value>) -> Map<Seq<char>, Json>;

/// The JSON strings of a list of texts.
pub open spec fn text_items(texts: Seq<Seq<char>>) -> Seq<Json> {
    Seq::new(texts.len(), |i: int| Json::Text(texts[i]))
}

/// Whether every item is a JSON string.
pub open spec fn all_text(items: Seq<Json>) -> bool {
    forall|i: int| 0 <= i < items.len() ==> (#[trigger] items[i]) is Text
}

/// The text of a JSON string; the empty text for any other value.
pub open spec fn text_of(item: Json) -> Seq<char> {
    match item {
        Json::Text(t) => t,
        _ => Seq::empty(),
    }
}

/// The texts of a list of JSON strings.
pub open spec fn texts_of(items: Seq<Json>) -> Seq<Seq<char>> {
    Seq::new(items.len(), |i: int| text_of(items[i]))
}

/// The count under `key`: there is one where the key holds a whole number from 0 to
/// the largest that 64 bits hold.
pub open spec fn number_in(content: Map<Seq<char>, Json>, key: Seq<char>) -> Option<u64> {
    if content.contains_key(key) {
        match content[key] {
            Json::Whole(n) => if 0 <= n <= u64::MAX {
                Some(n as u64)
            } else {
                None
            },
            _ => None,
        }
    } else {
        None
    }
}

/// The text under `key`: there is one where the key holds a JSON string.
pub open spec fn text_in(content: Map<Seq<char>, Json>, key: Seq<char>) -> Option<Seq<char>> {
    if content.contains_key(key) {
        match content[key] {
            Json::Text(t) => Some(t),
            _ => None,
        }
    } else {
        None
    }
}

/// The truth value under `key`: there is one where the key holds `true` or `false`.
pub open spec fn flag_in(content: Map<Seq<char>, Json>, key: Seq<char>) -> Option<bool> {
    if content.contains_key(key) {
        match content[key] {
            Json::Flag(b) => Some(b),
            _ => None,
        }
    } else {
        None
    }
}

/// The list of texts under `key`: there is one where the key holds an array of JSON
/// strings and nothing else.
pub open spec fn texts_in(content: Map<Seq<char>, Json>, key: Seq<char>) -> Option<Seq<Seq<char>>> {
    if content.contains_key(key) {
        match content[key] {
            Json::List(items) => if all_text(items) {
                Some(texts_of(items))
            } else {
                None
            },
            _ => None,
        }
    } else {
        None
    }
}

/// A list of texts, written as JSON strings, reads back as it was written.
pub proof fn lemma_texts_read_back(texts: Seq<Seq<char>>)
    ensures
        all_text(text_items(texts)),
        texts_of(text_items(texts)) == texts,
{
    assert(texts_of(text_items(texts)) =~= texts);
}

/// What an object without keys holds.
pub open spec fn nothing() -> Map<Seq<char>, Json> {
    Map::empty()
}

/// `serde_json::Map::new`: an object that holds nothing.
#[verifier::external_body]
pub(crate) fn empty_claims() -> (claims: serde_json::Map<String, Value>)
    ensures
        claims_content(claims) == nothing(),
{
    serde_json::Map::new()
}

/// `serde_json::Map::insert`: afterwards the key holds the value, whatever it held
/// before, and every other key holds what it held.
#[verifier::external_body]
fn put(claims: &mut serde_json::Map<String, Value>, key: &str, value: Value)
    ensures
        claims_content(*final(claims)) == claims_content(*old(claims)).insert(
            key@,
            json_view(value),
        ),
{
    claims.insert(key.to_string(), value);
}

/// `Value::from` a count: the whole number.
#[verifier::external_body]
fn number_value(n: usize) -> (value: Value)
    ensures
        json_view(value) == Json::Whole(n as int),
{
    Value::from(n)
}

/// `Value::from` a text: the JSON string of that text.
#[verifier::external_body]
fn text_value(text: &str) -> (value: Value)
    ensures
        json_view(value) == Json::Text(text@),
{
    Value::from(text)
}

/// `Value::from` a list of texts: the array of their JSON strings, in order.
#[verifier::external_body]
fn texts_value(texts: &Vec<String>) -> (value: Value)
    ensures
        json_view(value) == Json::List(text_items(texts.deep_view())),
{
    Value::from(texts.clone())
}

/// `serde_json::Map::get`: the value under a key, where the object holds the key.
#[verifier::external_body]
fn get<'a>(claims: &'a serde_json::Map<String, Value>, key: &str) -> (value: Option<&'a Value>)
    ensures
        match value {
            Some(v) => claims_content(*claims).contains_key(key@) && json_view(*v)
                == claims_content(*claims)[key@],
            None => !claims_content(*claims).contains_key(key@),
        },
{
    claims.get(key)
}

/// `Value::as_u64`: the number that a value is, where it is a whole number from 0 to
/// the largest that 64 bits hold.
#[verifier::external_body]
fn as_number(value: &Value) -> (n: Option<u64>)
    ensures
        n == (match json_view(*value) {
            Json::Whole(w) => if 0 <= w <= u64::MAX {
                Some(w as u64)
            } else {
                None
            },
            _ => None,
        }),
{
    value.as_u64()
}

/// `Value::as_str`: the text that a value is, where it is a JSON string.
#[verifier::external_body]
fn as_text(value: &Value) -> (text: Option<String>)
    ensures
        match text {
            Some(t) => json_view(*value) == Json::Text(t@),
            None => !(json_view(*value) is Text),
        },
{
    value.as_str().map(String::from)
}

/// `Value::as_bool`: the truth value that a value is, where it is one.
#[verifier::external_body]
fn as_flag(value: &Value) -> (flag: Option<bool>)
    ensures
        match flag {
            Some(b) => json_view(*value) == Json::Flag(b),
            None => !(json_view(*value) is Flag),
        },
{
    value.as_bool()
}

/// The values that a list of `serde_json::Value` holds, in order.
pub open spec fn item_views(items: Seq<Value>) -> Seq<Json> {
    Seq::new(items.len(), |i: int| json_view(items[i]))
}

/// `Value::as_array`: the items of a value, where it is an array.
#[verifier::external_body]
fn as_items<'a>(value: &'a Value) -> (items: Option<&'a Vec<Value>>)
    ensures
        match items {
            Some(list) => json_view(*value) == Json::List(item_views(list@)),
            None => !(json_view(*value) is List),
        },
{
    value.as_array()
}

/// Writes a count under `key`.
pub(crate) fn set_number(claims: &mut serde_json::Map<String, Value>, key: &str, n: usize)
    ensures
        claims_content(*final(claims)) == claims_content(*old(claims)).insert(
            key@,
            Json::Whole(n as int),
        ),
{
    put(claims, key, number_value(n));
}

/// Writes a text under `key`.
pub(crate) fn set_text(claims: &mut serde_json::Map<String, Value>, key: &str, text: &str)
    ensures
        claims_content(*final(claims)) == claims_content(*old(claims)).insert(
            key@,
            Json::Text(text@),
        ),
{
    put(claims, key, text_value(text));
}

/// Writes a list of texts under `key`.
pub(crate) fn set_texts(claims: &mut serde_json::Map<String, Value>, key: &str, texts: &Vec<String>)
    ensures
        claims_content(*final(claims)) == claims_content(*old(claims)).insert(
            key@,
            Json::List(text_items(texts.deep_view())),
        ),
{
    put(claims, key, texts_value(texts));
}

/// The count under `key`; `None` where the key is missing or holds something else.
pub(crate) fn number_at(claims: &serde_json::Map<String, Value>, key: &str) -> (n: Option<u64>)
    ensures
        n == number_in(claims_content(*claims), key@),
{
    match get(claims, key) {
        Some(value) => as_number(value),
        None => None,
    }
}

/// The text under `key`; `None` where the key is missing or holds something else.
pub(crate) fn text_at(claims: &serde_json::Map<String, Value>, key: &str) -> (text: Option<String>)
    ensures
        match text {
            Some(t) => text_in(claims_content(*claims), key@) == Some(t@),
            None => text_in(claims_content(*claims), key@) is None,
        },
{
    match get(claims, key) {
        Some(value) => as_text(value),
        None => None,
    }
}

/// The truth value under `key`; `None` where the key is missing or holds something
/// else.
pub(crate) fn flag_at(claims: &serde_json::Map<String, Value>, key: &str) -> (flag: Option<bool>)
    ensures
        flag == flag_in(claims_content(*claims), key@),
{
    match get(claims, key) {
        Some(value) => as_flag(value),
        None => None,
    }
}

/// The list of texts under `key`; `None` where the key is missing or holds anything
/// but an array of strings.
pub(crate) fn texts_at(claims: &serde_json::Map<String, Value>, key: &str) -> (texts: Option<
    Vec<String>,
>)
    ensures
        match texts {
            Some(list) => texts_in(claims_content(*claims), key@) == Some(list.deep_view()),
            None => texts_in(claims_content(*claims), key@) is None,
        },
{
    let items = match get(claims, key) {
        Some(value) => match as_items(value) {
            Some(items) => items,
            None => {
                return None;
            },
        },
        None => {
            return None;
        },
    };
    let ghost held = item_views(items@);
    let mut texts: Vec<String> = Vec::new();
    let mut i: usize = 0;
    while i < items.len()
        invariant
            i <= items.len(),
            held == item_views(items@),
            claims_content(*claims).contains_key(key@),
            claims_content(*claims)[key@] == Json::List(held),
            texts.len() == i,
            forall|k: int| 0 <= k < i ==> held[k] == Json::Text(#[trigger] texts@[k]@),
        decreases items.len() - i,
    {
        match as_text(&items[i]) {
            Some(text) => {
                assert(held[i as int] == json_view(items@[i as int]));
                texts.push(text);
            },
            None => {
                assert(held[i as int] == json_view(items@[i as int]));
                assert(!all_text(held));
                return None;
            },
        }
        i = i + 1;
    }
    proof {
        assert(all_text(held)) by {
            assert forall|k: int| 0 <= k < held.len() implies (#[trigger] held[k]) is Text by {
                assert(held[k] == Json::Text(texts@[k]@));
            }
        }
        assert(texts.deep_view() =~= texts_of(held)) by {
            assert forall|k: int| 0 <= k < held.len() implies texts.deep_view()[k] == texts_of(
                held,
            )[k] by {
                assert(held[k] == Json::Text(texts@[k]@));
            }
        }
    }
    Some(texts)
}

} // verus!
