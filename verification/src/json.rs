//! Trusted boundary to the `serde_json` crate.
//!
//! The bridge serializes the expected utterances for the native start command
//! and decodes the structured payloads the native engine reports. Both
//! directions are deterministic functions of their input, so each outside
//! call gets a name (an uninterpreted spec function) and a thin trusted item
//! whose contract speaks of that name; everything around the calls is
//! verified against those contracts.

use vstd::prelude::*;

verus! {

#[verifier::external_type_specification]
#[verifier::external_body]
pub struct ExValue(serde_json::Value);

#[verifier::external_type_specification]
#[verifier::external_body]
pub struct ExJsonError(serde_json::Error);

/// The character sequences of a sequence of strings, item by item.
pub open spec fn utterance_views(items: Seq<String>) -> Seq<Seq<char>> {
    Seq::new(items.len(), |i: int| items[i]@)
}

/// The JSON text that `serde_json::to_string` produces for a vector of
/// strings: an array of JSON strings, a function of the strings alone.
pub uninterp spec fn utterances_json(items: Seq<Seq<char>>) -> Seq<char>;

/// The structured value that `serde_json::from_str` decodes from a piece of
/// text, or `None` where the text is not valid JSON.
pub uninterp spec fn json_of_text(text: Seq<char>) -> Option<serde_json::Value>;

/// The structured value that `serde_json::from_slice` decodes from raw bytes,
/// or `None` where the bytes are not valid JSON text.
pub uninterp spec fn json_of_bytes(bytes: Seq<u8>) -> Option<serde_json::Value>;

/// The value that a JSON-pointer lookup (`serde_json::Value::pointer`) finds
/// inside a structured value, or `None` where the pointer addresses nothing.
pub uninterp spec fn value_at_pointer(value: serde_json::Value, pointer: Seq<char>) -> Option<
    serde_json::Value,
>;

/// The elements of a structured value, where it is a JSON array
/// (`serde_json::Value::as_array`), or `None` where it is not.
pub uninterp spec fn value_array(value: serde_json::Value) -> Option<Seq<serde_json::Value>>;

/// The characters of a structured value, where it is a JSON string
/// (`serde_json::Value::as_str`), or `None` where it is not.
pub uninterp spec fn value_string(value: serde_json::Value) -> Option<Seq<char>>;

/// Relies on `serde_json::to_string`: for a vector of strings the result is a
/// function of the strings alone, named `utterances_json`. Its documentation
/// reserves failure for misbehaving `Serialize` impls and for maps with
/// non-string keys, neither of which a vector of strings can have, so the
/// call succeeds; and its writer escapes every control character, so the
/// produced text never holds the NUL character.
#[verifier::external_body]
pub(crate) fn utterances_to_json(items: &Vec<String>) -> (r: Result<String, serde_json::Error>)
    ensures
        r is Ok,
        r.unwrap()@ == utterances_json(utterance_views(items@)),
        !r.unwrap()@.contains('\0'),
{
    serde_json::to_string(items)
}

/// Relies on `serde_json::from_str::<Value>`: parsing is a function of the
/// text alone, named `json_of_text`; the call fails exactly where the text is
/// not valid JSON.
#[verifier::external_body]
pub(crate) fn json_from_text(text: &str) -> (r: Result<serde_json::Value, serde_json::Error>)
    ensures
        r is Ok <==> json_of_text(text@) is Some,
        r is Ok ==> r.unwrap() == json_of_text(text@).unwrap(),
{
    serde_json::from_str(text)
}

/// Relies on `serde_json::from_slice::<Value>`: parsing is a function of the
/// bytes alone, named `json_of_bytes`; the call fails exactly where the bytes
/// are not valid UTF-8 text holding valid JSON.
#[verifier::external_body]
pub(crate) fn json_from_bytes(bytes: &[u8]) -> (r: Result<serde_json::Value, serde_json::Error>)
    ensures
        r is Ok <==> json_of_bytes(bytes@) is Some,
        r is Ok ==> r.unwrap() == json_of_bytes(bytes@).unwrap(),
{
    serde_json::from_slice(bytes)
}

/// Relies on `serde_json::Value::pointer`: a JSON-pointer lookup is a
/// function of the value and the pointer alone, named `value_at_pointer`.
pub assume_specification<'a>[ serde_json::Value::pointer ](
    value: &'a serde_json::Value,
    pointer: &str,
) -> (r: Option<&'a serde_json::Value>)
    ensures
        r is Some <==> value_at_pointer(*value, pointer@) is Some,
        r is Some ==> *r.unwrap() == value_at_pointer(*value, pointer@).unwrap(),
;

/// Relies on `serde_json::Value::as_array`: returns the elements exactly of
/// an array value, named `value_array`, and `None` of any other value.
pub assume_specification<'a>[ serde_json::Value::as_array ](value: &'a serde_json::Value) -> (r:
    Option<&'a Vec<serde_json::Value>>)
    ensures
        r is Some <==> value_array(*value) is Some,
        r is Some ==> r.unwrap()@ == value_array(*value).unwrap(),
;

/// Relies on `serde_json::Value::as_str`: returns the characters exactly of a
/// string value, named `value_string`, and `None` of any other value.
pub assume_specification<'a>[ serde_json::Value::as_str ](value: &'a serde_json::Value) -> (r:
    Option<&'a str>)
    ensures
        r is Some <==> value_string(*value) is Some,
        r is Some ==> r.unwrap()@ == value_string(*value).unwrap(),
;

} // verus!
