//! The JSON layer: a mathematical model of JSON documents, and trusted
//! wrappers around `serde_json` that relate its parsed values to that model.

use vstd::prelude::*;

verus! {

/// Mathematical model of a JSON document. A number carries the decimal
/// text that `serde_json` prints for it; an object maps keys to values.
#[verifier::ext_equal]
pub ghost enum JsonModel {
    Null,
    Bool(bool),
    Num(Seq<char>),
    Str(Seq<char>),
    Arr(Seq<JsonModel>),
    Obj(Map<Seq<char>, JsonModel>),
}

#[verifier::external_type_specification]
#[verifier::external_body]
pub struct ExValue(serde_json::Value);

/// The JSON tree that a `serde_json::Value` holds.
pub uninterp spec fn jval(v: serde_json::Value) -> JsonModel;

/// What `serde_json::from_str::<Value>` yields on a given text:
/// `None` exactly where the text is not a valid JSON document.
pub uninterp spec fn json_of(s: Seq<char>) -> Option<JsonModel>;

/// Looks a key up in a JSON value: `Some` exactly when the value is an
/// object that has the key.
pub open spec fn jget(j: JsonModel, k: Seq<char>) -> Option<JsonModel> {
    match j {
        JsonModel::Obj(m) => if m.contains_key(k) {
            Some(m[k])
        } else {
            None
        },
        _ => None,
    }
}

/// Relies on `serde_json::from_str::<Value>`: parses the text as JSON and
/// returns the parsed value exactly when the text is a valid JSON document.
#[verifier::external_body]
pub(crate) fn parse_json(s: &str) -> (r: Option<serde_json::Value>)
    ensures
        r is Some <==> json_of(s@) is Some,
        r matches Some(v) ==> json_of(s@) matches Some(m) && jval(v) == m,
{
    serde_json::from_str(s).ok()
}

/// Relies on `serde_json::Value::get` with a string index: looks the key
/// up when the value is an object and yields `None` otherwise.
#[verifier::external_body]
pub(crate) fn jv_get<'a>(v: &'a serde_json::Value, key: &str) -> (r: Option<
    &'a serde_json::Value,
>)
    ensures
        r is Some <==> jget(jval(*v), key@) is Some,
        r matches Some(w) ==> jget(jval(*v), key@) matches Some(m) && jval(*w) == m,
{
    v.get(key)
}

/// Relies on `serde_json::Value::as_str`: yields the string exactly when
/// the value is a JSON string.
#[verifier::external_body]
pub(crate) fn jv_as_str(v: &serde_json::Value) -> (r: Option<String>)
    ensures
        match jval(*v) {
            JsonModel::Str(t) => r matches Some(s) && s@ == t,
            _ => r is None,
        },
{
    match v.as_str() {
        Some(s) => Some(s.to_owned()),
        None => None,
    }
}

/// Relies on `serde_json::Value::as_bool`: yields the boolean exactly when
/// the value is a JSON boolean.
#[verifier::external_body]
pub(crate) fn jv_as_bool(v: &serde_json::Value) -> (r: Option<bool>)
    ensures
        match jval(*v) {
            JsonModel::Bool(b) => r == Some(b),
            _ => r is None,
        },
{
    v.as_bool()
}

/// Relies on `serde_json::Number`'s `Display` implementation: prints the
/// number's decimal text, a function of the stored number alone.
#[verifier::external_body]
pub(crate) fn jv_num_text(v: &serde_json::Value) -> (r: Option<String>)
    ensures
        match jval(*v) {
            JsonModel::Num(t) => r matches Some(s) && s@ == t,
            _ => r is None,
        },
{
    match v {
        serde_json::Value::Number(n) => Some(n.to_string()),
        _ => None,
    }
}

/// Relies on `serde_json::Value::as_array` and `Vec::len`: yields the
/// element count exactly when the value is a JSON array.
#[verifier::external_body]
pub(crate) fn jv_arr_len(v: &serde_json::Value) -> (r: Option<usize>)
    ensures
        match jval(*v) {
            JsonModel::Arr(items) => r matches Some(n) && n as nat == items.len(),
            _ => r is None,
        },
{
    match v.as_array() {
        Some(a) => Some(a.len()),
        None => None,
    }
}

/// Relies on `serde_json::Value::as_array` and `Vec::get`: yields the
/// element at an in-bounds index of a JSON array.
#[verifier::external_body]
pub(crate) fn jv_arr_get<'a>(v: &'a serde_json::Value, i: usize) -> (r: Option<
    &'a serde_json::Value,
>)
    ensures
        match jval(*v) {
            JsonModel::Arr(items) => if (i as nat) < items.len() {
                r matches Some(w) && jval(*w) == items[i as int]
            } else {
                r is None
            },
            _ => r is None,
        },
{
    match v.as_array() {
        Some(a) => a.get(i),
        None => None,
    }
}

} // verus!
