//! The JSON values that the orchestrator builds and carries.
//!
//! A value itself stays opaque. What the library knows of it is which
//! conversion made it, from what: `json_text` and `json_object` name the two
//! conversions that are used, and `json_members` what an object under
//! construction holds.
use vstd::prelude::*;

verus! {

/// Declares `serde_json::Value`, the type of any JSON value.
#[verifier::external_type_specification]
#[verifier::external_body]
pub struct ExValue(serde_json::Value);

/// Declares `serde_json::Map`, the members of a JSON object.
#[verifier::external_type_specification]
#[verifier::external_body]
#[verifier::reject_recursive_types(K)]
#[verifier::reject_recursive_types(V)]
pub struct ExMap<K, V>(serde_json::Map<K, V>);

/// The members of `map`, by key.
pub uninterp spec fn json_members(
    map: serde_json::Map<String, serde_json::Value>,
) -> Map<Seq<char>, serde_json::Value>;

/// What an optional text is as a JSON value: the JSON string that holds it, the
/// JSON null where there is none.
pub uninterp spec fn json_text(text: Option<Seq<char>>) -> serde_json::Value;

/// The JSON object with exactly `members`.
pub uninterp spec fn json_object(members: Map<Seq<char>, serde_json::Value>) -> serde_json::Value;

/// `Clone` of `serde_json::Value`: a deep copy, the same value again.
pub assume_specification[ <serde_json::Value as Clone>::clone ](
    value: &serde_json::Value,
) -> (copy: serde_json::Value)
    ensures
        copy == *value,
;

/// Calls `From<Option<T>>` of `serde_json::Value` on an optional `String`: a text
/// gives the JSON string that holds it, none gives null. The result depends on
/// the argument alone.
#[verifier::external_body]
pub(crate) fn text_or_null(text: Option<String>) -> (value: serde_json::Value)
    ensures
        value == json_text(
            match text {
                Some(t) => Some(t@),
                None => None,
            },
        ),
{
    serde_json::Value::from(text)
}

/// `From<Map<String, Value>>` of `serde_json::Value`: the object whose members
/// are those of `map`. A map keeps its members sorted by key, so they alone make
/// the object.
pub assume_specification[ <serde_json::Value as From<
    serde_json::Map<String, serde_json::Value>,
>>::from ](map: serde_json::Map<String, serde_json::Value>) -> (value: serde_json::Value)
    ensures
        value == json_object(json_members(map)),
;

/// `serde_json::Map::new`: a map without members.
pub assume_specification[ serde_json::Map::<String, serde_json::Value>::new ]() -> (empty:
    serde_json::Map<String, serde_json::Value>)
    ensures
        (json_members(empty) == Map::<Seq<char>, serde_json::Value>::empty()),
;

/// `serde_json::Map::insert`: binds `key` to `value`, and hands back what `key`
/// was bound to before.
pub assume_specification[ serde_json::Map::<String, serde_json::Value>::insert ](
    map: &mut serde_json::Map<String, serde_json::Value>,
    key: String,
    value: serde_json::Value,
) -> (previous: Option<serde_json::Value>)
    ensures
        json_members(*final(map)) == json_members(*old(map)).insert(key@, value),
        previous == (if json_members(*old(map)).dom().contains(key@) {
            Some(json_members(*old(map))[key@])
        } else {
            None
        }),
;

/// The JSON object with the single member `"text"`, the string `text`.
pub open spec fn text_object(text: Seq<char>) -> serde_json::Value {
    json_object(Map::empty().insert("text"@, json_text(Some(text))))
}

/// Wraps a text as `{"text": text}`.
pub(crate) fn wrap_text(text: String) -> (value: serde_json::Value)
    ensures
        value == text_object(text@),
{
    let mut members = serde_json::Map::new();
    let _ = members.insert("text".to_owned(), text_or_null(Some(text)));
    serde_json::Value::from(members)
}

/// The null value.
pub(crate) fn null() -> (value: serde_json::Value)
    ensures
        value == json_text(None),
{
    text_or_null(None)
}

} // verus!
