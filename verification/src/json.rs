//! The boundary to `serde_json`: a mathematical model of a JSON document and
//! the few operations of `serde_json::Value` that reading and writing rely
//! on.
//!
//! Nothing in this file is proved. Each function here makes one call into
//! `serde_json` and states what that call does, as the crate's source and
//! documentation give it for its default build: a number is held as a
//! `u64`, an `i64` below zero, or a double, and an object holds one member
//! per key.

use vstd::prelude::*;

verus! {

/// A JSON document as a mathematical value.
pub enum JsonValue {
    Null,
    Bool(bool),
    /// A number that is held as an integer.
    Integer(int),
    /// A number that is held in floating point, identified by the bit
    /// pattern of its double.
    Fraction(int),
    Text(Seq<char>),
    List(Seq<JsonValue>),
    Record(Map<Seq<char>, JsonValue>),
}

/// `serde_json::Value`, taken as it is: what one holds is known only through
/// `json_view`.
#[verifier::external_type_specification]
#[verifier::external_body]
pub struct ExValue(serde_json::Value);

/// The document that a `serde_json::Value` holds.
pub uninterp spec fn json_view(value: serde_json::Value) -> JsonValue;

/// What `serde_json::from_str` makes of a text: the document it denotes, or
/// the parser's complaint.
pub uninterp spec fn parsed_json(text: Seq<char>) -> Result<JsonValue, Seq<char>>;

/// The compact text that `serde_json::to_string` writes for a document.
pub uninterp spec fn rendered(document: JsonValue) -> Seq<char>;

impl JsonValue {
    /// Whether this is an object with a member called `key`.
    pub open spec fn has(self, key: Seq<char>) -> bool {
        self matches JsonValue::Record(fields) && fields.contains_key(key)
    }

    /// The member called `key`; meaningful where `has(key)` holds.
    pub open spec fn at(self, key: Seq<char>) -> JsonValue {
        self->Record_0[key]
    }
}

/// `serde_json::from_str` at type `Value`. The result is the named outcome
/// for this text; a failure is handed back as the text that the error
/// displays.
#[verifier::external_body]
pub(crate) fn parse(text: &str) -> (r: Result<serde_json::Value, String>)
    ensures
        match r {
            Ok(v) => parsed_json(text@) == Ok::<JsonValue, Seq<char>>(json_view(v)),
            Err(m) => parsed_json(text@) == Err::<JsonValue, Seq<char>>(m@),
        },
{
    match serde_json::from_str::<serde_json::Value>(text) {
        Ok(v) => Ok(v),
        Err(e) => Err(e.to_string()),
    }
}

/// `Value::get` with a string key: the member of that name when the value is
/// an object that has one, nothing otherwise.
#[verifier::external_body]
pub(crate) fn member<'a>(value: &'a serde_json::Value, key: &str) -> (r: Option<
    &'a serde_json::Value,
>)
    ensures
        r is Some <==> json_view(*value).has(key@),
        r matches Some(m) ==> json_view(*m) == json_view(*value).at(key@),
{
    value.get(key)
}

/// `Value::as_str`: the characters of a string value, nothing for any other.
#[verifier::external_body]
pub(crate) fn text_of<'a>(value: &'a serde_json::Value) -> (r: Option<&'a str>)
    ensures
        r is Some <==> json_view(*value) is Text,
        r matches Some(s) ==> json_view(*value) == JsonValue::Text(s@),
{
    value.as_str()
}

/// `Value::as_i64`: an integer that fits `i64`, nothing for any other value.
#[verifier::external_body]
pub(crate) fn integer_of(value: &serde_json::Value) -> (r: Option<i64>)
    ensures
        r is Some <==> (json_view(*value) matches JsonValue::Integer(n) && i64::MIN <= n
            <= i64::MAX),
        r matches Some(n) ==> json_view(*value) == JsonValue::Integer(n as int),
{
    value.as_i64()
}

/// `Value::as_u64`: an integer that fits `u64`, nothing for any other value.
#[verifier::external_body]
pub(crate) fn unsigned_of(value: &serde_json::Value) -> (r: Option<u64>)
    ensures
        r is Some <==> (json_view(*value) matches JsonValue::Integer(n) && 0 <= n <= u64::MAX),
        r matches Some(n) ==> json_view(*value) == JsonValue::Integer(n as int),
{
    value.as_u64()
}

/// `Value::as_bool`: the truth value of a boolean, nothing for any other
/// value.
#[verifier::external_body]
pub(crate) fn boolean_of(value: &serde_json::Value) -> (r: Option<bool>)
    ensures
        r is Some <==> json_view(*value) is Bool,
        r matches Some(b) ==> json_view(*value) == JsonValue::Bool(b),
{
    value.as_bool()
}

/// `Value::is_null`: whether the value is null.
#[verifier::external_body]
pub(crate) fn is_null(value: &serde_json::Value) -> (r: bool)
    ensures
        r <==> json_view(*value) is Null,
{
    value.is_null()
}

/// `Value::as_array`: the elements of an array, in order.
#[verifier::external_body]
pub(crate) fn items_of<'a>(value: &'a serde_json::Value) -> (r: Option<
    &'a Vec<serde_json::Value>,
>)
    ensures
        r is Some <==> json_view(*value) is List,
        r matches Some(items) ==> json_view(*value) == JsonValue::List(
            Seq::new(items@.len(), |i: int| json_view(items@[i])),
        ),
{
    value.as_array()
}

/// `Value::Null`.
#[verifier::external_body]
pub(crate) fn null() -> (r: serde_json::Value)
    ensures
        json_view(r) == JsonValue::Null,
{
    serde_json::Value::Null
}

/// `Value::from` on a string slice: a string value with those characters.
#[verifier::external_body]
pub(crate) fn from_text(text: &str) -> (r: serde_json::Value)
    ensures
        json_view(r) == JsonValue::Text(text@),
{
    serde_json::Value::from(text)
}

/// `Value::from` on a `bool`: the boolean itself.
#[verifier::external_body]
pub(crate) fn from_boolean(b: bool) -> (r: serde_json::Value)
    ensures
        json_view(r) == JsonValue::Bool(b),
{
    serde_json::Value::from(b)
}

/// `Value::from` on an `i64`: the integer itself.
#[verifier::external_body]
pub(crate) fn from_integer(n: i64) -> (r: serde_json::Value)
    ensures
        json_view(r) == JsonValue::Integer(n as int),
{
    serde_json::Value::from(n)
}

/// `Value::from` on a `u64`: the integer itself.
#[verifier::external_body]
pub(crate) fn from_unsigned(n: u64) -> (r: serde_json::Value)
    ensures
        json_view(r) == JsonValue::Integer(n as int),
{
    serde_json::Value::from(n)
}

/// `Value::Array`: the array of the given elements, in order.
#[verifier::external_body]
pub(crate) fn from_items(items: Vec<serde_json::Value>) -> (r: serde_json::Value)
    ensures
        json_view(r) == JsonValue::List(Seq::new(items@.len(), |i: int| json_view(items@[i]))),
{
    serde_json::Value::Array(items)
}

/// `Value::Object` of `Map::new`: the object without members.
#[verifier::external_body]
pub(crate) fn empty_record() -> (r: serde_json::Value)
    ensures
        json_view(r) == JsonValue::Record(Map::empty()),
{
    serde_json::Value::Object(serde_json::Map::new())
}

/// Assignment through `IndexMut` with a string key, on an object: the member
/// of that name is added, or replaced where there is one; the others stay.
#[verifier::external_body]
pub(crate) fn set_member(value: &mut serde_json::Value, key: &str, member: serde_json::Value)
    requires
        json_view(*old(value)) is Record,
    ensures
        json_view(*final(value)) == JsonValue::Record(
            json_view(*old(value))->Record_0.insert(key@, json_view(member)),
        ),
{
    value[key] = member;
}

/// `serde_json::to_string` on a `Value`. It succeeds on every value, and the
/// text is the named rendering of the document. The writer can fail only
/// where a write fails, a key is no string or a type refuses to be
/// written; here the text goes into a `Vec`, every key of a `Value` is a
/// string, and a `Value` writes each of its kinds as it is.
#[verifier::external_body]
pub(crate) fn render(value: &serde_json::Value) -> (r: Result<String, String>)
    ensures
        r is Ok,
        r matches Ok(text) ==> text@ == rendered(json_view(*value)),
{
    match serde_json::to_string(value) {
        Ok(text) => Ok(text),
        Err(e) => Err(e.to_string()),
    }
}

} // verus!
