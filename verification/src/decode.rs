//! Reading typed records out of JSON documents.
//!
//! Each record type says, as a spec function on the document model, which
//! documents denote a value of the type and which value that is. The readers
//! here are proved to compute exactly that function.

use vstd::prelude::*;
use crate::json::{
    boolean_of, integer_of, is_null, items_of, json_view, member, text_of, unsigned_of, JsonValue,
};
use crate::time::{instant_of, read_instant, Timestamp};

verus! {

/// A type whose values can be read from a JSON document.
pub trait FromJson: Sized + DeepView {
    /// The value that `document` denotes, if it denotes one.
    spec fn decoded(document: JsonValue) -> Option<Self::V>;

    /// Reads a value of this type from `value`.
    fn from_json(value: &serde_json::Value) -> (r: Option<Self>)
        ensures
            r.deep_view() == Self::decoded(json_view(*value)),
    ;
}

impl JsonValue {
    /// The string under `key`.
    pub open spec fn text_at(self, key: Seq<char>) -> Option<Seq<char>> {
        if self.has(key) && self.at(key) is Text {
            Some(self.at(key)->Text_0)
        } else {
            None
        }
    }

    /// The string under `key`, where a missing or null member counts as no
    /// string at all and any other kind of member is a mismatch.
    pub open spec fn optional_text_at(self, key: Seq<char>) -> Option<Option<Seq<char>>> {
        if !self.has(key) || self.at(key) is Null {
            Some(None)
        } else if self.at(key) is Text {
            Some(Some(self.at(key)->Text_0))
        } else {
            None
        }
    }

    /// The integer under `key`, provided it fits 64 signed bits.
    pub open spec fn integer_at(self, key: Seq<char>) -> Option<i64> {
        if self.has(key) && self.at(key) is Integer && i64::MIN <= self.at(key)->Integer_0
            <= i64::MAX {
            Some(self.at(key)->Integer_0 as i64)
        } else {
            None
        }
    }

    /// The integer under `key`, provided it fits 64 unsigned bits, where a
    /// missing or null member counts as no integer at all and any other
    /// kind of member is a mismatch.
    pub open spec fn optional_unsigned_at(self, key: Seq<char>) -> Option<Option<u64>> {
        if !self.has(key) || self.at(key) is Null {
            Some(None)
        } else if self.at(key) is Integer && 0 <= self.at(key)->Integer_0 <= u64::MAX {
            Some(Some(self.at(key)->Integer_0 as u64))
        } else {
            None
        }
    }

    /// The boolean under `key`.
    pub open spec fn boolean_at(self, key: Seq<char>) -> Option<bool> {
        if self.has(key) && self.at(key) is Bool {
            Some(self.at(key)->Bool_0)
        } else {
            None
        }
    }

    /// The instant written as a string under `key`.
    pub open spec fn instant_at(self, key: Seq<char>) -> Option<Timestamp> {
        match self.text_at(key) {
            Some(text) => instant_of(text),
            None => None,
        }
    }

    /// The record under `key`.
    pub open spec fn decoded_at<T: FromJson>(self, key: Seq<char>) -> Option<T::V> {
        if self.has(key) {
            T::decoded(self.at(key))
        } else {
            None
        }
    }

    /// The record under `key`, where a missing or null member counts as no
    /// record at all and a member of the wrong shape is a mismatch.
    pub open spec fn optional_at<T: FromJson>(self, key: Seq<char>) -> Option<Option<T::V>> {
        if !self.has(key) || self.at(key) is Null {
            Some(None)
        } else {
            match T::decoded(self.at(key)) {
                Some(t) => Some(Some(t)),
                None => None,
            }
        }
    }

    /// Whether this document reports no error: it has no `error` member, or
    /// a null one.
    pub open spec fn error_free(self) -> bool {
        !self.has("error"@) || self.at("error"@) is Null
    }
}

/// The sequence that an array document denotes: every element must denote a
/// value of `T`.
pub open spec fn decoded_list<T: FromJson>(document: JsonValue) -> Option<Seq<T::V>> {
    if document is List && (forall|i: int|
        0 <= i < document->List_0.len() ==> (#[trigger] T::decoded(document->List_0[i])) is Some) {
        Some(Seq::new(document->List_0.len(), |i: int| T::decoded(document->List_0[i])->Some_0))
    } else {
        None
    }
}

/// Reads the string under `key`.
pub fn text_field(value: &serde_json::Value, key: &str) -> (r: Option<String>)
    ensures
        r.deep_view() == json_view(*value).text_at(key@),
{
    match member(value, key) {
        Some(m) => match text_of(m) {
            Some(s) => Some(s.to_owned()),
            None => None,
        },
        None => None,
    }
}

/// Reads the string under `key`, which may be missing or null.
pub fn optional_text_field(value: &serde_json::Value, key: &str) -> (r: Option<Option<String>>)
    ensures
        r.deep_view() == json_view(*value).optional_text_at(key@),
{
    match member(value, key) {
        Some(m) => {
            if is_null(m) {
                Some(None)
            } else {
                match text_of(m) {
                    Some(s) => Some(Some(s.to_owned())),
                    None => None,
                }
            }
        },
        None => Some(None),
    }
}

/// Reads the integer under `key`.
pub fn integer_field(value: &serde_json::Value, key: &str) -> (r: Option<i64>)
    ensures
        r == json_view(*value).integer_at(key@),
{
    match member(value, key) {
        Some(m) => integer_of(m),
        None => None,
    }
}

/// Reads the unsigned integer under `key`, which may be missing or null.
pub fn optional_unsigned_field(value: &serde_json::Value, key: &str) -> (r: Option<Option<u64>>)
    ensures
        r == json_view(*value).optional_unsigned_at(key@),
{
    match member(value, key) {
        Some(m) => {
            if is_null(m) {
                Some(None)
            } else {
                match unsigned_of(m) {
                    Some(n) => Some(Some(n)),
                    None => None,
                }
            }
        },
        None => Some(None),
    }
}

/// Reads the boolean under `key`.
pub fn boolean_field(value: &serde_json::Value, key: &str) -> (r: Option<bool>)
    ensures
        r == json_view(*value).boolean_at(key@),
{
    match member(value, key) {
        Some(m) => boolean_of(m),
        None => None,
    }
}

/// Reads the instant written as a string under `key`.
pub fn instant_field(value: &serde_json::Value, key: &str) -> (r: Option<Timestamp>)
    ensures
        r == json_view(*value).instant_at(key@),
{
    match member(value, key) {
        Some(m) => match text_of(m) {
            Some(s) => read_instant(s),
            None => None,
        },
        None => None,
    }
}

/// Reads the record under `key`.
pub fn field<T: FromJson>(value: &serde_json::Value, key: &str) -> (r: Option<T>)
    ensures
        r.deep_view() == json_view(*value).decoded_at::<T>(key@),
{
    match member(value, key) {
        Some(m) => T::from_json(m),
        None => None,
    }
}

/// Reads the record under `key`, which may be missing or null.
pub fn optional_field<T: FromJson>(value: &serde_json::Value, key: &str) -> (r: Option<Option<T>>)
    ensures
        r.deep_view() == json_view(*value).optional_at::<T>(key@),
{
    match member(value, key) {
        Some(m) => {
            if is_null(m) {
                Some(None)
            } else {
                match T::from_json(m) {
                    Some(t) => Some(Some(t)),
                    None => None,
                }
            }
        },
        None => Some(None),
    }
}

/// Reads an array, element by element. One element that is no `T` spoils
/// the whole.
pub fn list_from_json<T: FromJson>(value: &serde_json::Value) -> (r: Option<Vec<T>>)
    ensures
        r.deep_view() == decoded_list::<T>(json_view(*value)),
{
    let items = match items_of(value) {
        Some(items) => items,
        None => {
            return None;
        },
    };
    let ghost documents = json_view(*value)->List_0;
    let mut out: Vec<T> = Vec::new();
    let mut i: usize = 0;
    while i < items.len()
        invariant
            i <= items.len(),
            json_view(*value) == JsonValue::List(documents),
            documents.len() == items@.len(),
            forall|k: int| 0 <= k < items@.len() ==> documents[k] == json_view(#[trigger] items@[k]),
            out@.len() == i,
            forall|k: int|
                0 <= k < i ==> T::decoded(documents[k]) == Some((#[trigger] out@[k]).deep_view()),
        decreases items.len() - i,
    {
        match T::from_json(&items[i]) {
            Some(t) => {
                out.push(t);
            },
            None => {
                assert(T::decoded(documents[i as int]) is None);
                return None;
            },
        }
        i += 1;
    }
    proof {
        let expected = decoded_list::<T>(json_view(*value));
        assert forall|k: int| 0 <= k < documents.len() implies (#[trigger] T::decoded(
            documents[k],
        )) is Some by {
            assert(T::decoded(documents[k]) == Some(out@[k].deep_view()));
        }
        assert(expected is Some);
        assert(expected->Some_0 =~= out.deep_view());
    }
    Some(out)
}

impl<T: FromJson> FromJson for Vec<T> {
    open spec fn decoded(document: JsonValue) -> Option<Seq<T::V>> {
        decoded_list::<T>(document)
    }

    fn from_json(value: &serde_json::Value) -> (r: Option<Self>) {
        list_from_json(value)
    }
}

/// Whether `value` has no `error` member, or a null one.
pub fn reports_no_error(value: &serde_json::Value) -> (r: bool)
    ensures
        r == json_view(*value).error_free(),
{
    match member(value, "error") {
        Some(m) => is_null(m),
        None => true,
    }
}

} // verus!
