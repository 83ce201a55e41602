//! Reading JSON documents with `serde_json`.
//!
//! A parsed document is a `serde_json::Value`, which the verifier cannot
//! look into. What such a value holds is modelled by [`Json`]; the contracts
//! here say, in terms of that model, what is taken on trust about the
//! handful of `serde_json` functions that the decoders call.

use vstd::prelude::*;

verus! {

/// What a JSON value holds. Of a number only this much is kept: the number
/// itself where it is written without sign, fraction or exponent and is at
/// most 2^64 - 1, and nothing otherwise.
pub enum Json {
    Null,
    Bool(bool),
    Number(Option<u64>),
    Text(Seq<char>),
    Array(Seq<Json>),
    Object(Map<Seq<char>, Json>),
}

impl Json {
    /// The member of an object under `key`; `None` where this is no object
    /// or has no such member.
    pub open spec fn member(self, key: Seq<char>) -> Option<Json> {
        match self {
            Json::Object(members) => if members.contains_key(key) {
                Some(members[key])
            } else {
                None
            },
            _ => None,
        }
    }

    /// The characters of a string; `None` for any other value.
    pub open spec fn text(self) -> Option<Seq<char>> {
        match self {
            Json::Text(text) => Some(text),
            _ => None,
        }
    }

    /// The number of an unsigned number; `None` for any other value.
    pub open spec fn unsigned(self) -> Option<u64> {
        match self {
            Json::Number(number) => number,
            _ => None,
        }
    }

    /// The elements of an array, in order; `None` for any other value.
    pub open spec fn elements(self) -> Option<Seq<Json>> {
        match self {
            Json::Array(elements) => Some(elements),
            _ => None,
        }
    }
}

/// `serde_json::Value`, a parsed JSON value. Nothing is known of what is
/// inside one but what the functions below say.
#[verifier::external_type_specification]
#[verifier::external_body]
pub struct ExValue(serde_json::Value);

/// `serde_json::Error`, the reason why a text is no JSON document. It is
/// only carried from the parser to the caller, who drops it.
#[verifier::external_type_specification]
#[verifier::external_body]
pub struct ExJsonError(serde_json::Error);

/// What a `serde_json::Value` holds.
pub uninterp spec fn json_value(value: serde_json::Value) -> Json;

/// What `text` holds, read as one JSON document; `None` where it is none.
pub uninterp spec fn json_document(text: Seq<char>) -> Option<Json>;

/// What each of `values` holds, in order.
pub open spec fn json_values(values: Seq<serde_json::Value>) -> Seq<Json> {
    Seq::new(values.len(), |i: int| json_value(values[i]))
}

/// `serde_json::from_str` at `serde_json::Value`: parses `text` as one JSON
/// document. Whether it succeeds, and what the document holds, depend on
/// the text alone.
#[verifier::external_body]
pub(crate) fn parse_document(text: &str) -> (r: Result<serde_json::Value, serde_json::Error>)
    ensures
        match r {
            Ok(document) => json_document(text@) == Some(json_value(document)),
            Err(_) => json_document(text@) is None,
        },
{
    serde_json::from_str::<serde_json::Value>(text)
}

/// `serde_json::Value::as_array`: the vector of the elements of an array,
/// and `None` for every other kind of value.
pub assume_specification<'a>[ serde_json::Value::as_array ](value: &'a serde_json::Value) -> (r:
    Option<&'a Vec<serde_json::Value>>)
    ensures
        match r {
            Some(elements) => json_value(*value) == Json::Array(json_values(elements@)),
            None => !(json_value(*value) is Array),
        },
;

/// `serde_json::Value::get` with a string index: the member of an object
/// under that key, and `None` where the value is no object or has no
/// member under it.
#[verifier::external_body]
pub(crate) fn member<'a>(value: &'a serde_json::Value, key: &str) -> (r: Option<
    &'a serde_json::Value,
>)
    ensures
        match r {
            Some(found) => json_value(*value).member(key@) == Some(json_value(*found)),
            None => json_value(*value).member(key@) is None,
        },
{
    value.get(key)
}

/// `serde_json::Value::as_str`: the text of a string, and `None` for every
/// other kind of value.
pub assume_specification<'a>[ serde_json::Value::as_str ](value: &'a serde_json::Value) -> (r:
    Option<&'a str>)
    ensures
        match r {
            Some(text) => json_value(*value) == Json::Text(text@),
            None => !(json_value(*value) is Text),
        },
;

/// `serde_json::Value::as_u64`: the number of a number that was parsed as
/// an unsigned integer of 64 bits, and `None` for a negative number, a
/// floating-point number and every other kind of value.
pub assume_specification[ serde_json::Value::as_u64 ](value: &serde_json::Value) -> (r: Option<
    u64,
>)
    ensures
        r == json_value(*value).unsigned(),
;

} // verus!
