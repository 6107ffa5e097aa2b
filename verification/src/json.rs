//! A mathematical model of the JSON documents that the status source
//! publishes, and the trusted boundary to `serde_json`, which does the
//! parsing.
//!
//! The model is deliberately coarse: the decoder only ever reads booleans,
//! integers, strings and object fields, so every other shape of value is
//! lumped into `JsonVal::Other`. Each trusted wrapper below states, over
//! this model, exactly what the `serde_json` function it calls returns.

use vstd::prelude::*;

verus! {

/// What a decoded JSON value holds, as far as this library reads it.
///
/// `Int(n)` stands for a JSON number that is exactly representable as an
/// `i64`; every other number, and every null, is `Other`.
pub ghost enum JsonVal {
    Bool(bool),
    Int(i64),
    Str(Seq<char>),
    Arr(Seq<JsonVal>),
    Obj(Map<Seq<char>, JsonVal>),
    Other,
}

/// The JSON document encoded by `body`, or `None` when `body` is not one
/// well-formed JSON document. Parsing is a function of the characters
/// alone; this name stands for what `serde_json::from_str` yields.
pub uninterp spec fn json_model_of(body: Seq<char>) -> Option<JsonVal>;

/// What a `serde_json::Value` holds, expressed in the model above.
pub uninterp spec fn value_model(v: serde_json::Value) -> JsonVal;

#[verifier::external_type_specification]
#[verifier::external_body]
pub struct ExValue(serde_json::Value);

/// Relies on `serde_json::from_str::<Value>`: parses `body` as a single
/// JSON document and fails exactly on malformed input; the result depends
/// on the characters of `body` alone.
#[verifier::external_body]
pub(crate) fn parse_json(body: &str) -> (r: Option<serde_json::Value>)
    ensures
        r is Some <==> json_model_of(body@) is Some,
        r matches Some(v) ==> Some(value_model(v)) == json_model_of(body@),
{
    serde_json::from_str::<serde_json::Value>(body).ok()
}

/// Relies on `serde_json::Value::get` with a string index: on an object it
/// looks the key up in the underlying map, on every other value it returns
/// `None`.
#[verifier::external_body]
pub(crate) fn get_field<'a>(v: &'a serde_json::Value, key: &str) -> (r: Option<
    &'a serde_json::Value,
>)
    ensures
        r is Some <==> (value_model(*v) matches JsonVal::Obj(m) && m.contains_key(key@)),
        r matches Some(f) ==> value_model(*f) == value_model(*v)->Obj_0[key@],
{
    v.get(key)
}

/// Relies on `serde_json::Value::as_bool`: returns the boolean exactly when
/// the value is a JSON boolean.
#[verifier::external_body]
pub(crate) fn as_bool(v: &serde_json::Value) -> (r: Option<bool>)
    ensures
        r == (match value_model(*v) {
            JsonVal::Bool(b) => Some(b),
            _ => None::<bool>,
        }),
{
    v.as_bool()
}

/// Relies on `serde_json::Value::as_i64`: returns the integer exactly when
/// the value is a JSON number representable as an `i64`.
#[verifier::external_body]
pub(crate) fn as_i64(v: &serde_json::Value) -> (r: Option<i64>)
    ensures
        r == (match value_model(*v) {
            JsonVal::Int(n) => Some(n),
            _ => None::<i64>,
        }),
{
    v.as_i64()
}

/// Relies on `serde_json::Value::as_array`: returns the elements exactly
/// when the value is a JSON array.
#[verifier::external_body]
pub(crate) fn as_array<'a>(v: &'a serde_json::Value) -> (r: Option<&'a Vec<serde_json::Value>>)
    ensures
        r is Some <==> value_model(*v) is Arr,
        r matches Some(a) ==> {
            &&& a@.len() == value_model(*v)->Arr_0.len()
            &&& forall|i: int|
                0 <= i < a@.len() ==> #[trigger] value_model(a@[i]) == value_model(*v)->Arr_0[i]
        },
{
    v.as_array()
}

/// Relies on `serde_json::Value::as_str`: returns the text exactly when the
/// value is a JSON string; the wrapper copies it into an owned `String`.
#[verifier::external_body]
pub(crate) fn as_string(v: &serde_json::Value) -> (r: Option<String>)
    ensures
        r is Some <==> value_model(*v) is Str,
        r matches Some(s) ==> s@ == value_model(*v)->Str_0,
{
    v.as_str().map(|s| s.to_string())
}

} // verus!
