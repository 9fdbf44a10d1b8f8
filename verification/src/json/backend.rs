use super::members_map;
use super::JsonValue;
use serde_json::Value;
use vstd::prelude::*;

verus! {

// What this file states of `serde_json` is believed, not proved.  It holds of
// the crate as built with its default features: numbers are a `u64`, an
// `i64` or a finite float, and an object keeps its members ordered by key.

/// `serde_json::Value`, of which nothing can be seen but through the
/// functions below.
#[verifier::external_type_specification]
#[verifier::external_body]
pub struct ExValue(serde_json::Value);

/// The document that a `serde_json::Value` holds.
pub uninterp spec fn json_model(v: Value) -> JsonValue;

/// The document that `serde_json::from_str` reads from a text, if it reads
/// one.
pub uninterp spec fn json_parse(text: Seq<char>) -> Option<JsonValue>;

/// The compact text that `serde_json` writes for a document.  The text is
/// a function of the document, since an object's members are written in the
/// order of their keys.
pub uninterp spec fn json_text(doc: JsonValue) -> Seq<char>;

/// One level of a `serde_json::Value`, borrowed from it.
pub(crate) enum Opened<'a> {
    Null,
    Bool(bool),
    Number,
    Text(&'a String),
    Array(&'a Vec<Value>),
    Object(Vec<(&'a String, &'a Value)>),
}

/// The members that `open` hands out for an object, as key and document.
pub(crate) open spec fn opened_members(entries: Seq<(&String, &Value)>) -> Seq<(Seq<char>, JsonValue)> {
    Seq::new(entries.len(), |i: int| (entries[i].0@, json_model(*entries[i].1)))
}

/// Whether no key occurs twice among the members.
pub open spec fn distinct_keys(entries: Seq<(Seq<char>, JsonValue)>) -> bool {
    forall|i: int, j: int| 0 <= i < j < entries.len() ==> entries[i].0 != entries[j].0
}

/// What `open` may return for a value that holds `doc`.
pub(crate) open spec fn opened_as(r: Opened, doc: JsonValue) -> bool {
    match r {
        Opened::Null => doc == JsonValue::Null,
        Opened::Bool(b) => doc == JsonValue::Bool(b),
        Opened::Number => match doc {
            JsonValue::Integer(n) => i64::MIN <= n <= u64::MAX,
            JsonValue::Real(_) => true,
            _ => false,
        },
        Opened::Text(s) => doc == JsonValue::Text(s@),
        Opened::Array(items) => doc == JsonValue::Array(
            Seq::new(items@.len(), |i: int| json_model(items@[i])),
        ),
        Opened::Object(entries) => {
            &&& distinct_keys(opened_members(entries@))
            &&& doc == JsonValue::Object(members_map(opened_members(entries@)))
        },
    }
}

/// Reads a text with `serde_json::from_str`.  The contract gives the outcome
/// its name: the value holds the document that the text denotes, and there
/// is no value exactly when the text denotes none.
#[verifier::external_body]
pub(crate) fn parse_value(text: &str) -> (r: Option<Value>)
    ensures
        match r {
            Some(v) => json_parse(text@) == Some(json_model(v)),
            None => json_parse(text@) is None,
        },
{
    serde_json::from_str::<Value>(text).ok()
}

/// Writes a value as compact text through `Value`'s `Display`.  The contract
/// names the text after the document, and says that a number which is not an
/// integer is written as the text that identifies it.
#[verifier::external_body]
pub(crate) fn render_value(v: &Value) -> (r: String)
    ensures
        r@ == json_text(json_model(*v)),
        json_model(*v) matches JsonValue::Real(t) ==> r@ == t,
{
    v.to_string()
}

/// Tells the variants of a `serde_json::Value` apart and lends out what the
/// variant holds.  The contract says that the document of the value is built
/// from exactly these parts; for an object, that each key is handed out
/// once; for a number, that it is a real or an integer between `i64::MIN`
/// and `u64::MAX`.
#[verifier::external_body]
pub(crate) fn open<'a>(v: &'a Value) -> (r: Opened<'a>)
    ensures
        opened_as(r, json_model(*v)),
{
    match v {
        Value::Null => Opened::Null,
        Value::Bool(b) => Opened::Bool(*b),
        Value::Number(_) => Opened::Number,
        Value::String(s) => Opened::Text(s),
        Value::Array(items) => Opened::Array(items),
        Value::Object(map) => Opened::Object(map.iter().collect()),
    }
}

/// `Value::as_u64` gives the number exactly when the value holds an integer
/// that is not negative.
pub assume_specification[ Value::as_u64 ](v: &Value) -> (r: Option<u64>)
    ensures
        match r {
            Some(n) => json_model(*v) == JsonValue::Integer(n as int),
            None => !(json_model(*v) matches JsonValue::Integer(n) && 0 <= n),
        },
;

/// `Value::as_i64` gives the number exactly when the value holds an integer
/// that fits an `i64`.
pub assume_specification[ Value::as_i64 ](v: &Value) -> (r: Option<i64>)
    ensures
        match r {
            Some(n) => json_model(*v) == JsonValue::Integer(n as int),
            None => !(json_model(*v) matches JsonValue::Integer(n) && n <= i64::MAX),
        },
;

/// The members of an object under construction, as key and document.
pub(crate) open spec fn owned_members(entries: Seq<(String, Value)>) -> Seq<(Seq<char>, JsonValue)> {
    Seq::new(entries.len(), |i: int| (entries[i].0@, json_model(entries[i].1)))
}

/// `Value::Null` holds the null document.
#[verifier::external_body]
pub(crate) fn null_value() -> (r: Value)
    ensures
        json_model(r) == JsonValue::Null,
{
    Value::Null
}

/// `Value::Bool` holds the truth value it is given.
#[verifier::external_body]
pub(crate) fn bool_value(b: bool) -> (r: Value)
    ensures
        json_model(r) == JsonValue::Bool(b),
{
    Value::Bool(b)
}

/// `Value::from` on a `u64` holds that integer.
#[verifier::external_body]
pub(crate) fn unsigned_value(n: u64) -> (r: Value)
    ensures
        json_model(r) == JsonValue::Integer(n as int),
{
    Value::from(n)
}

/// `Value::from` on an `i64` holds that integer.
#[verifier::external_body]
pub(crate) fn signed_value(n: i64) -> (r: Value)
    ensures
        json_model(r) == JsonValue::Integer(n as int),
{
    Value::from(n)
}

/// `Value::String` holds the text it is given.
#[verifier::external_body]
pub(crate) fn text_value(s: String) -> (r: Value)
    ensures
        json_model(r) == JsonValue::Text(s@),
{
    Value::String(s)
}

/// `Value::Array` holds the documents of its items, in their order.
#[verifier::external_body]
pub(crate) fn array_value(items: Vec<Value>) -> (r: Value)
    ensures
        json_model(r) == JsonValue::Array(Seq::new(items@.len(), |i: int| json_model(items@[i]))),
{
    Value::Array(items)
}

/// Collects members into a `serde_json::Map` and wraps it in
/// `Value::Object`.  With no key given twice, the object maps each key to
/// the document of its value and has no other member.
#[verifier::external_body]
pub(crate) fn object_value(entries: Vec<(String, Value)>) -> (r: Value)
    requires
        distinct_keys(owned_members(entries@)),
    ensures
        json_model(r) == JsonValue::Object(members_map(owned_members(entries@))),
{
    Value::Object(entries.into_iter().collect())
}

} // verus!
