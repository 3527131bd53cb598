//! Reading JSON documents.
//!
//! Documents are parsed by `serde_json`. A parsed value is opaque to the
//! proofs; what it holds is spoken of through [`Json`], and the functions
//! here that look into a value say what they return in terms of it.

use crate::command::optional_text;
use crate::text::texts;
use vstd::prelude::*;

verus! {

/// `serde_json::Value`, a parsed JSON value. Nothing of its inside is
/// known to the proofs.
#[verifier::external_type_specification]
#[verifier::external_body]
pub struct ExValue(serde_json::Value);

/// `serde_json::Error`, the error of a failed parse. Nothing of its inside
/// is known to the proofs.
#[verifier::external_type_specification]
#[verifier::external_body]
pub struct ExError(serde_json::Error);

/// What a JSON value holds.
pub enum Json {
    Null,
    Bool(bool),
    /// A number, known here by the unsigned 64-bit integer that it is, if it
    /// is one.
    Number(Option<u64>),
    Text(Seq<char>),
    Array(Seq<Json>),
    Object(Map<Seq<char>, Json>),
}

impl Json {
    /// The member of an object under `key`.
    pub open spec fn member(self, key: Seq<char>) -> Option<Json> {
        match self {
            Json::Object(members) => if members.contains_key(key) {
                Some(members[key])
            } else {
                None
            },
            _ => None,
        }
    }

    /// The characters of a string.
    pub open spec fn text(self) -> Option<Seq<char>> {
        match self {
            Json::Text(text) => Some(text),
            _ => None,
        }
    }

    /// The items of an array.
    pub open spec fn items(self) -> Option<Seq<Json>> {
        match self {
            Json::Array(items) => Some(items),
            _ => None,
        }
    }

    /// The unsigned integer that a number is.
    pub open spec fn natural(self) -> Option<u64> {
        match self {
            Json::Number(n) => n,
            _ => None,
        }
    }

    /// The characters of the string that an object holds under `key`.
    pub open spec fn text_at(self, key: Seq<char>) -> Option<Seq<char>> {
        match self.member(key) {
            Some(member) => member.text(),
            None => None,
        }
    }
}

/// What a parsed value holds.
pub uninterp spec fn json_model(value: serde_json::Value) -> Json;

/// What the JSON document `bytes` holds, if `bytes` is a JSON document.
pub uninterp spec fn json_document(bytes: Seq<u8>) -> Option<Json>;

/// What the values of a list hold, value by value.
pub open spec fn json_models(values: Seq<serde_json::Value>) -> Seq<Json> {
    values.map_values(|v: serde_json::Value| json_model(v))
}

/// `serde_json::from_slice` parses a whole JSON document into a value, and
/// fails on bytes that are not one document.
#[verifier::external_body]
pub(crate) fn parse(bytes: &[u8]) -> (parsed: Result<serde_json::Value, serde_json::Error>)
    ensures
        parsed matches Ok(value) ==> json_document(bytes@) == Some(json_model(value)),
        parsed is Err ==> json_document(bytes@) is None,
{
    serde_json::from_slice::<serde_json::Value>(bytes)
}

/// `Value::get` with a string key yields the member of an object under
/// that key, and nothing for a missing key or a value that is no object.
#[verifier::external_body]
pub(crate) fn member<'a>(value: &'a serde_json::Value, key: &str) -> (found: Option<
    &'a serde_json::Value,
>)
    ensures
        found matches Some(v) ==> json_model(*value).member(key@) == Some(json_model(*v)),
        found is None ==> json_model(*value).member(key@) is None,
{
    value.get(key)
}

/// `Value::as_str` yields the characters of a string, and nothing for any
/// other value.
#[verifier::external_body]
pub(crate) fn as_text<'a>(value: &'a serde_json::Value) -> (text: Option<&'a str>)
    ensures
        text matches Some(s) ==> json_model(*value).text() == Some(s@),
        text is None ==> json_model(*value).text() is None,
{
    value.as_str()
}

/// `Value::as_array` yields the items of an array, and nothing for any
/// other value.
#[verifier::external_body]
pub(crate) fn as_items<'a>(value: &'a serde_json::Value) -> (items: Option<
    &'a Vec<serde_json::Value>,
>)
    ensures
        items matches Some(list) ==> json_model(*value).items() == Some(json_models(list@)),
        items is None ==> json_model(*value).items() is None,
{
    value.as_array()
}

/// `Value::as_u64` yields the unsigned integer that a number is, and
/// nothing for any other number or value.
#[verifier::external_body]
pub(crate) fn as_natural(value: &serde_json::Value) -> (n: Option<u64>)
    ensures
        n == json_model(*value).natural(),
{
    value.as_u64()
}

/// The text of a parse error, as `serde_json::Error` displays it.
#[verifier::external_body]
pub(crate) fn error_text(error: &serde_json::Error) -> String {
    error.to_string()
}

/// The string that the object `value` holds under `key`.
pub(crate) fn text_member(value: &serde_json::Value, key: &str) -> (text: Option<String>)
    ensures
        optional_text(text) == json_model(*value).text_at(key@),
{
    match member(value, key) {
        Some(found) => match as_text(found) {
            Some(text) => Some(String::from_str(text)),
            None => None,
        },
        None => None,
    }
}

/// The strings among `items`, in order; items that are no strings are
/// passed over.
pub open spec fn texts_among(items: Seq<Json>) -> Seq<Seq<char>>
    decreases items.len(),
{
    if items.len() == 0 {
        Seq::empty()
    } else {
        texts_among(items.drop_last()) + match items.last().text() {
            Some(text) => seq![text],
            None => Seq::empty(),
        }
    }
}

/// The strings among `items`, in order.
pub(crate) fn text_items(items: &Vec<serde_json::Value>) -> (found: Vec<String>)
    ensures
        texts(found@) == texts_among(json_models(items@)),
{
    let mut found: Vec<String> = Vec::new();
    let mut i: usize = 0;
    while i < items.len()
        invariant
            i <= items.len(),
            texts(found@) == texts_among(json_models(items@).take(i as int)),
        decreases items.len() - i,
    {
        let ghost before = json_models(items@).take(i as int);
        let ghost now = json_models(items@).take(i + 1);
        let ghost had = texts(found@);
        proof {
            assert(now.drop_last() == before);
            assert(now.last() == json_model(items@[i as int]));
        }
        match as_text(&items[i]) {
            Some(text) => {
                let owned = String::from_str(text);
                found.push(owned);
                proof {
                    assert(texts(found@) =~= had + seq![text@]);
                }
            },
            None => {
                proof {
                    assert(had + Seq::<Seq<char>>::empty() =~= had);
                }
            },
        }
        i = i + 1;
    }
    proof {
        assert(json_models(items@).take(items.len() as int) == json_models(items@));
    }
    found
}

} // verus!
