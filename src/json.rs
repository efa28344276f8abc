//! JSON property values and instance identities, as provided by `serde_json` and `uuid`.
use serde_json::Map as JsonMap;
use serde_json::Value;
use vstd::prelude::*;

verus! {

#[verifier::external_type_specification]
#[verifier::external_body]
pub struct ExValue(serde_json::Value);

#[verifier::external_type_specification]
#[verifier::external_body]
#[verifier::reject_recursive_types(K)]
#[verifier::reject_recursive_types(V)]
pub struct ExJsonMap<K, V>(serde_json::Map<K, V>);

/// The boolean that `Value::as_bool` reads from a value.
pub uninterp spec fn json_bool(v: Value) -> Option<bool>;

/// The unsigned integer that `Value::as_u64` reads from a value.
pub uninterp spec fn json_u64(v: Value) -> Option<u64>;

/// The signed integer that `Value::as_i64` reads from a value.
pub uninterp spec fn json_i64(v: Value) -> Option<i64>;

/// The text that `Value::as_str` reads from a value.
pub uninterp spec fn json_str(v: Value) -> Option<Seq<char>>;

/// The elements that `Value::as_array` reads from a value.
pub uninterp spec fn json_array(v: Value) -> Option<Seq<Value>>;

/// The map that `Value::as_object` reads from a value.
pub uninterp spec fn json_object(v: Value) -> Option<JsonMap<String, Value>>;

/// The value that `Value::from(())` builds (JSON `null`).
pub uninterp spec fn json_from_unit(u: ()) -> Value;

/// The value that `Value::from(bool)` builds.
pub uninterp spec fn json_from_bool(b: bool) -> Value;

/// The value that `Value::from(u64)` builds.
pub uninterp spec fn json_from_u64(n: u64) -> Value;

/// The value that `Value::from(String)` builds.
pub uninterp spec fn json_from_string(s: Seq<char>) -> Value;

/// The value that `Value::Array` builds from the elements.
pub uninterp spec fn json_from_array(a: Seq<Value>) -> Value;

/// The value that `Value::from(Map<String, Value>)` builds.
pub uninterp spec fn json_from_map(m: JsonMap<String, Value>) -> Value;

/// The map that `Map::new` builds.
pub uninterp spec fn json_map_new(u: ()) -> JsonMap<String, Value>;

/// Relies on the derived `Clone` of `serde_json::Value`: the copy equals the original.
pub assume_specification[ <serde_json::Value as Clone>::clone ](v: &Value) -> (r: Value)
    ensures
        r == *v,
;

/// Relies on `Value::as_bool`: the result depends on the value alone.
pub assume_specification[ serde_json::Value::as_bool ](v: &Value) -> (r: Option<bool>)
    ensures
        r == json_bool(*v),
;

/// Relies on `Value::as_u64`: the result depends on the value alone.
pub assume_specification[ serde_json::Value::as_u64 ](v: &Value) -> (r: Option<u64>)
    ensures
        r == json_u64(*v),
;

/// Relies on `Value::as_i64`: the result depends on the value alone.
pub assume_specification[ serde_json::Value::as_i64 ](v: &Value) -> (r: Option<i64>)
    ensures
        r == json_i64(*v),
;

/// Relies on `Value::as_str`, its text copied into a `String`.
#[verifier::external_body]
pub(crate) fn json_as_string(v: &Value) -> (r: Option<String>)
    ensures
        json_str(*v) is None ==> r is None,
        json_str(*v) is Some ==> r is Some && r->Some_0@ == json_str(*v)->Some_0,
{
    v.as_str().map(|s| s.to_string())
}

/// Relies on `Value::as_array`, its elements cloned.
#[verifier::external_body]
pub(crate) fn json_as_array(v: &Value) -> (r: Option<Vec<Value>>)
    ensures
        json_array(*v) is None ==> r is None,
        json_array(*v) is Some ==> r is Some && r->Some_0@ == json_array(*v)->Some_0,
{
    v.as_array().cloned()
}

/// Relies on `Value::as_object`, its map cloned.
#[verifier::external_body]
pub(crate) fn json_as_object(v: &Value) -> (r: Option<JsonMap<String, Value>>)
    ensures
        r == json_object(*v),
{
    v.as_object().cloned()
}

/// Relies on `impl From<()> for Value`: it builds JSON `null`.
pub assume_specification[ <serde_json::Value as From<()>>::from ](u: ()) -> (r: Value)
    ensures
        r == json_from_unit(u),
;

/// Relies on `impl From<bool> for Value`.
pub assume_specification[ <serde_json::Value as From<bool>>::from ](b: bool) -> (r: Value)
    ensures
        r == json_from_bool(b),
;

/// Relies on `impl From<u64> for Value`.
pub assume_specification[ <serde_json::Value as From<u64>>::from ](n: u64) -> (r: Value)
    ensures
        r == json_from_u64(n),
;

/// Relies on `impl From<String> for Value`.
pub assume_specification[ <serde_json::Value as From<std::string::String>>::from ](s: std::string::String) -> (r: Value)
    ensures
        r == json_from_string(s@),
;

/// Relies on the variant `Value::Array`, which holds the elements as given.
#[verifier::external_body]
pub(crate) fn json_array_value(a: Vec<Value>) -> (r: Value)
    ensures
        r == json_from_array(a@),
{
    Value::Array(a)
}

/// Relies on `impl From<Map<String, Value>> for Value`.
pub assume_specification[ <serde_json::Value as From<JsonMap<String, Value>>>::from ](
    m: JsonMap<String, Value>,
) -> (r: Value)
    ensures
        r == json_from_map(m),
;

/// Relies on `serde_json::Map::new`, which builds an empty map, the same on every call.
#[verifier::external_body]
pub(crate) fn new_json_map(u: ()) -> (r: JsonMap<String, Value>)
    ensures
        r == json_map_new(u),
{
    JsonMap::new()
}

/// Relies on `uuid::Uuid::new_v4`: a random identity, handed on as its 128 bits.
/// Nothing is known of the number drawn.
#[verifier::external_body]
pub(crate) fn fresh_id() -> (r: u128) {
    uuid::Uuid::new_v4().as_u128()
}

} // verus!
