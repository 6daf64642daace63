use vstd::prelude::*;

verus! {

/// A JSON document as a mathematical value.
pub enum Json {
    Null,
    Bool(bool),
    /// A number that is held as an unsigned 64-bit integer.
    Unsigned(u64),
    /// Any other number: negative, fractional or written with an exponent.
    OtherNumber,
    Str(Seq<char>),
    Array(Seq<Json>),
    /// Members by key; of a key given twice the last value counts.
    Object(Map<Seq<char>, Json>),
}

#[verifier::external_type_specification]
#[verifier::external_body]
pub struct ExValue(serde_json::Value);

/// The document that a parsed `serde_json::Value` holds.
pub uninterp spec fn json_view(v: serde_json::Value) -> Json;

/// The document that serde_json reads from a text, or `None` when it reads
/// none: the text is not one JSON document, or nests deeper than the
/// reader's recursion limit.
pub uninterp spec fn parsed_json(text: Seq<char>) -> Option<Json>;

pub open spec fn json_views(s: Seq<serde_json::Value>) -> Seq<Json> {
    s.map_values(|x: serde_json::Value| json_view(x))
}

/// Relies on serde_json::from_str, read into a serde_json::Value: it succeeds
/// exactly on the texts that hold one JSON document.
#[verifier::external_body]
pub(crate) fn parse_json(text: &str) -> (r: Option<serde_json::Value>)
    ensures
        match r {
            Some(v) => parsed_json(text@) == Some(json_view(v)),
            None => parsed_json(text@) is None,
        },
{
    serde_json::from_str(text).ok()
}

/// Relies on serde_json::Value::get with a string key: the member of that
/// name when the value is an object that has one, else `None`.
#[verifier::external_body]
pub(crate) fn member<'a>(v: &'a serde_json::Value, key: &str) -> (r: Option<&'a serde_json::Value>)
    ensures
        match json_view(*v) {
            Json::Object(m) => if m.contains_key(key@) {
                r is Some && json_view(*r->Some_0) == m[key@]
            } else {
                r is None
            },
            _ => r is None,
        },
{
    v.get(key)
}

/// Relies on serde_json::Value::as_array: the elements of an array, else `None`.
pub assume_specification[ serde_json::Value::as_array ](v: &serde_json::Value) -> (r: Option<
    &Vec<serde_json::Value>,
>)
    ensures
        match json_view(*v) {
            Json::Array(items) => r is Some && json_views(r->Some_0@) == items,
            _ => r is None,
        },
;

/// Relies on serde_json::Value::as_str: the text of a string, else `None`.
pub assume_specification[ serde_json::Value::as_str ](v: &serde_json::Value) -> (r: Option<&str>)
    ensures
        match json_view(*v) {
            Json::Str(s) => r is Some && r->Some_0@ == s,
            _ => r is None,
        },
;

/// Relies on serde_json::Value::as_u64: the value of a number held as an
/// unsigned integer, else `None`.
pub assume_specification[ serde_json::Value::as_u64 ](v: &serde_json::Value) -> (r: Option<u64>)
    ensures
        match json_view(*v) {
            Json::Unsigned(n) => r == Some(n),
            _ => r is None,
        },
;

/// Relies on serde_json::Value::is_object: true of objects alone.
pub assume_specification[ serde_json::Value::is_object ](v: &serde_json::Value) -> (r: bool)
    ensures
        r == (json_view(*v) is Object),
;

/// Relies on serde_json::Value::is_null: true of `null` alone.
pub assume_specification[ serde_json::Value::is_null ](v: &serde_json::Value) -> (r: bool)
    ensures
        r == (json_view(*v) is Null),
;

} // verus!
