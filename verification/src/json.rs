//! JSON documents, read and written by `serde_json`.
//!
//! The functions of this module whose body Verus does not read are the
//! boundary to `serde_json`: each makes one call, and its contract says what
//! that call returns in terms of [`JsonDoc`], the mathematical content of a
//! document. Everything else in the module is verified against those
//! contracts.

use vstd::prelude::*;

verus! {

/// `serde_json::Value`, a JSON document in memory. Nothing of its inside is
/// known here but what [`json_content`] says.
#[verifier::external_type_specification]
#[verifier::external_body]
pub struct ExJsonValue(serde_json::Value);

/// `serde_json::Error`, the reason why a text was rejected. It is carried
/// and never looked into.
#[verifier::external_type_specification]
#[verifier::external_body]
pub struct ExJsonError(serde_json::Error);

/// `serde_json::Map`, the members of a JSON object in memory. Nothing of its
/// inside is known here but what [`json_entries`] says.
#[verifier::external_type_specification]
#[verifier::external_body]
#[verifier::reject_recursive_types(K)]
#[verifier::reject_recursive_types(V)]
pub struct ExJsonMap<K, V>(serde_json::Map<K, V>);

/// A JSON number, in the three forms in which `serde_json` holds one.
pub enum JsonNumber {
    /// A number held as an unsigned integer of 64 bits.
    Unsigned(u64),
    /// A number held as a signed integer of 64 bits; it is negative.
    Negative(i64),
    /// A number held as a double, given here by its bits.
    Real(u64),
}

/// What a JSON document holds.
pub enum JsonDoc {
    Null,
    Bool(bool),
    Number(JsonNumber),
    Text(Seq<char>),
    List(Seq<JsonDoc>),
    Object(Map<Seq<char>, JsonDoc>),
}

/// The content of a `serde_json::Value`.
pub uninterp spec fn json_content(v: serde_json::Value) -> JsonDoc;

/// The members of a `serde_json::Map`, by key.
pub uninterp spec fn json_entries(m: serde_json::Map<String, serde_json::Value>) -> Map<
    Seq<char>,
    JsonDoc,
>;

/// The document that a text denotes, where it is well-formed JSON.
pub uninterp spec fn json_parsed(text: Seq<char>) -> Option<JsonDoc>;

/// The compact text that `serde_json` writes for a document.
pub uninterp spec fn json_text(doc: JsonDoc) -> Seq<char>;

/// The member of an object under a key.
pub open spec fn member(doc: JsonDoc, key: Seq<char>) -> Option<JsonDoc> {
    match doc {
        JsonDoc::Object(fields) => if fields.dom().contains(key) {
            Some(fields[key])
        } else {
            None
        },
        _ => None,
    }
}

/// The members of an object that has none.
pub open spec fn no_members() -> Map<Seq<char>, JsonDoc> {
    Map::empty()
}

/// The contents of a sequence of values.
pub open spec fn contents(items: Seq<serde_json::Value>) -> Seq<JsonDoc> {
    items.map_values(|v: serde_json::Value| json_content(v))
}

/// The text of a document that is a string.
pub open spec fn text_of(doc: Option<JsonDoc>) -> Option<Seq<char>> {
    match doc {
        Some(JsonDoc::Text(text)) => Some(text),
        _ => None,
    }
}

/// The value of a document that is a boolean.
pub open spec fn flag_of(doc: Option<JsonDoc>) -> Option<bool> {
    match doc {
        Some(JsonDoc::Bool(flag)) => Some(flag),
        _ => None,
    }
}

/// The value of a document that is a non-negative integer below 2^64.
pub open spec fn unsigned_of(doc: Option<JsonDoc>) -> Option<u64> {
    match doc {
        Some(JsonDoc::Number(JsonNumber::Unsigned(n))) => Some(n),
        _ => None,
    }
}

/// The elements of a document that is an array.
pub open spec fn elements_of(doc: JsonDoc) -> Option<Seq<JsonDoc>> {
    match doc {
        JsonDoc::List(items) => Some(items),
        _ => None,
    }
}

/// The first element of a document that is a non-empty array.
pub open spec fn first_of(doc: JsonDoc) -> Option<JsonDoc> {
    match doc {
        JsonDoc::List(items) => if items.len() > 0 {
            Some(items[0])
        } else {
            None
        },
        _ => None,
    }
}

/// The view of an optional text.
pub open spec fn opt_text(text: Option<String>) -> Option<Seq<char>> {
    match text {
        Some(t) => Some(t@),
        None => None,
    }
}

/// `serde_json::from_str` at `serde_json::Value`: the text is either rejected
/// or read into a value whose content is the document that the text denotes.
#[verifier::external_body]
pub(crate) fn parse(text: &str) -> (r: Result<serde_json::Value, serde_json::Error>)
    ensures
        match r {
            Ok(v) => json_parsed(text@) == Some(json_content(v)),
            Err(_) => json_parsed(text@) is None,
        },
{
    serde_json::from_str::<serde_json::Value>(text)
}

/// `serde_json::Value::get` with a string index: the member under `key` when
/// the value is an object that has one.
#[verifier::external_body]
pub(crate) fn get<'a>(v: &'a serde_json::Value, key: &str) -> (r: Option<&'a serde_json::Value>)
    ensures
        match r {
            Some(found) => member(json_content(*v), key@) == Some(json_content(*found)),
            None => member(json_content(*v), key@) is None,
        },
{
    v.get(key)
}

/// `serde_json::Value::as_array`: the elements when the value is an array.
#[verifier::external_body]
pub(crate) fn as_array<'a>(v: &'a serde_json::Value) -> (r: Option<&'a Vec<serde_json::Value>>)
    ensures
        match r {
            Some(items) => elements_of(json_content(*v)) == Some(contents(items@)),
            None => elements_of(json_content(*v)) is None,
        },
{
    v.as_array()
}

/// `serde_json::Value::as_str`: the text when the value is a string.
#[verifier::external_body]
pub(crate) fn as_str<'a>(v: &'a serde_json::Value) -> (r: Option<&'a str>)
    ensures
        match r {
            Some(text) => text_of(Some(json_content(*v))) == Some(text@),
            None => text_of(Some(json_content(*v))) is None,
        },
{
    v.as_str()
}

/// `serde_json::Value::as_bool`: the flag when the value is a boolean.
#[verifier::external_body]
pub(crate) fn as_bool(v: &serde_json::Value) -> (r: Option<bool>)
    ensures
        r == flag_of(Some(json_content(*v))),
{
    v.as_bool()
}

/// `serde_json::Value::as_u64`: the number when the value is a non-negative
/// integer below 2^64.
#[verifier::external_body]
pub(crate) fn as_u64(v: &serde_json::Value) -> (r: Option<u64>)
    ensures
        r == unsigned_of(Some(json_content(*v))),
{
    v.as_u64()
}

/// The variant `serde_json::Value::String`: a value that is the given text.
#[verifier::external_body]
pub(crate) fn text_value(text: String) -> (v: serde_json::Value)
    ensures
        json_content(v) == JsonDoc::Text(text@),
{
    serde_json::Value::String(text)
}

/// The variant `serde_json::Value::Bool`: a value that is the given flag.
#[verifier::external_body]
pub(crate) fn flag_value(flag: bool) -> (v: serde_json::Value)
    ensures
        json_content(v) == JsonDoc::Bool(flag),
{
    serde_json::Value::Bool(flag)
}

/// The variant `serde_json::Value::Object`: a value that is the object with
/// the members of the map.
#[verifier::external_body]
pub(crate) fn object_value(members: serde_json::Map<String, serde_json::Value>) -> (v:
    serde_json::Value)
    ensures
        json_content(v) == JsonDoc::Object(json_entries(members)),
{
    serde_json::Value::Object(members)
}

/// `serde_json::Map::new`: a map without members.
#[verifier::external_body]
pub(crate) fn new_members() -> (m: serde_json::Map<String, serde_json::Value>)
    ensures
        json_entries(m) == no_members(),
{
    serde_json::Map::new()
}

/// `serde_json::Map::insert`: afterwards the map holds the value under the
/// key, in place of what it held there before, and its other members as they
/// were.
#[verifier::external_body]
pub(crate) fn put(
    members: &mut serde_json::Map<String, serde_json::Value>,
    key: String,
    value: serde_json::Value,
)
    ensures
        json_entries(*final(members)) == json_entries(*old(members)).insert(key@, json_content(value)),
{
    members.insert(key, value);
}

/// `ToString::to_string` of a `serde_json::Value`, which writes the value in
/// the compact form.
#[verifier::external_body]
pub(crate) fn to_text(v: &serde_json::Value) -> (text: String)
    ensures
        text@ == json_text(json_content(*v)),
{
    v.to_string()
}

/// The text under `key`, when the value is an object whose member there is a
/// string.
pub fn member_text(v: &serde_json::Value, key: &str) -> (r: Option<String>)
    ensures
        opt_text(r) == text_of(member(json_content(*v), key@)),
{
    match get(v, key) {
        Some(found) => match as_str(found) {
            Some(text) => Some(text.to_owned()),
            None => None,
        },
        None => None,
    }
}

/// The flag under `key`, when the value is an object whose member there is a
/// boolean.
pub fn member_flag(v: &serde_json::Value, key: &str) -> (r: Option<bool>)
    ensures
        r == flag_of(member(json_content(*v), key@)),
{
    match get(v, key) {
        Some(found) => as_bool(found),
        None => None,
    }
}

/// The number under `key`, when the value is an object whose member there is
/// a non-negative integer below 2^64.
pub fn member_unsigned(v: &serde_json::Value, key: &str) -> (r: Option<u64>)
    ensures
        r == unsigned_of(member(json_content(*v), key@)),
{
    match get(v, key) {
        Some(found) => as_u64(found),
        None => None,
    }
}

/// The first element of a value that is a non-empty array.
pub fn first_element(v: &serde_json::Value) -> (r: Option<&serde_json::Value>)
    ensures
        match r {
            Some(head) => first_of(json_content(*v)) == Some(json_content(*head)),
            None => first_of(json_content(*v)) is None,
        },
{
    match as_array(v) {
        Some(items) => if items.len() > 0 {
            Some(&items[0])
        } else {
            None
        },
        None => None,
    }
}

} // verus!
