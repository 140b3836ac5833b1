//! The boundary to the JSON library. JSON documents are modelled by the
//! `JsonSpec` tree; the handful of calls this crate makes into `serde_json`
//! stand behind trusted wrappers whose contracts speak over that tree.

use vstd::prelude::*;

verus! {

/// Mathematical model of a JSON document, as far as this library reads one.
/// A number that is representable as `u64` is `UInt`; any other number
/// (negative or fractional) is `OtherNumber`, which no field reader accepts.
pub enum JsonSpec {
    Null,
    Bool(bool),
    UInt(u64),
    Text(Seq<char>),
    Arr(Seq<JsonSpec>),
    Obj(Map<Seq<char>, JsonSpec>),
    OtherNumber,
}

/// What `serde_json::from_str` makes of a text: `None` when the text is not
/// well-formed JSON, otherwise the parsed document.
pub uninterp spec fn json_of(s: Seq<char>) -> Option<JsonSpec>;

/// The document a `serde_json::Value` holds; every trusted wrapper below
/// speaks over this model.
pub uninterp spec fn value_model(v: serde_json::Value) -> JsonSpec;

#[verifier::external_type_specification]
#[verifier::external_body]
pub struct ExValue(serde_json::Value);

#[verifier::external_type_specification]
#[verifier::external_body]
pub struct ExJsonError(serde_json::Error);

/// Relies on `serde_json::from_str::<Value>`: parses one JSON document, or
/// reports why the text is not one.
#[verifier::external_body]
pub(crate) fn parse_json(s: &str) -> (r: Result<serde_json::Value, serde_json::Error>)
    ensures
        r is Ok <==> json_of(s@) is Some,
        r is Ok ==> value_model(r->Ok_0) == json_of(s@)->Some_0,
{
    serde_json::from_str::<serde_json::Value>(s)
}

/// Relies on `serde_json::Value::get` with a string key: looks the key up when
/// the value is an object, and returns nothing otherwise.
#[verifier::external_body]
pub(crate) fn value_get<'a>(v: &'a serde_json::Value, key: &str) -> (r: Option<
    &'a serde_json::Value,
>)
    ensures
        r is Some <==> (value_model(*v) is Obj && value_model(*v)->Obj_0.contains_key(key@)),
        r is Some ==> value_model(*r->Some_0) == value_model(*v)->Obj_0[key@],
{
    v.get(key)
}

/// Relies on `serde_json::Value::as_array`: the backing vector of an array
/// value, element for element.
#[verifier::external_body]
pub(crate) fn value_as_array<'a>(v: &'a serde_json::Value) -> (r: Option<
    &'a Vec<serde_json::Value>,
>)
    ensures
        r is Some <==> value_model(*v) is Arr,
        r is Some ==> r->Some_0@.map_values(|e: serde_json::Value| value_model(e)) == value_model(
            *v,
        )->Arr_0,
{
    v.as_array()
}

/// Relies on `serde_json::Value::as_str`: the text of a string value.
#[verifier::external_body]
pub(crate) fn value_as_str<'a>(v: &'a serde_json::Value) -> (r: Option<&'a str>)
    ensures
        r is Some <==> value_model(*v) is Text,
        r is Some ==> r->Some_0@ == value_model(*v)->Text_0,
{
    v.as_str()
}

/// Relies on `serde_json::Value::as_u64`: a number value when it fits in
/// `u64`, and nothing for any other value.
#[verifier::external_body]
pub(crate) fn value_as_u64(v: &serde_json::Value) -> (r: Option<u64>)
    ensures
        r == if value_model(*v) is UInt {
            Some(value_model(*v)->UInt_0)
        } else {
            None::<u64>
        },
{
    v.as_u64()
}

/// Relies on `serde_json::Value::is_null`.
#[verifier::external_body]
pub(crate) fn value_is_null(v: &serde_json::Value) -> (r: bool)
    ensures
        r <==> value_model(*v) is Null,
{
    v.is_null()
}

/// Relies on `serde_json::Error`'s `Display` implementation: a readable
/// description of a parse failure.
#[verifier::external_body]
pub(crate) fn json_error_text(e: &serde_json::Error) -> String {
    format!("{}", e)
}

} // verus!
