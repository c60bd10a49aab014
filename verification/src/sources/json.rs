use vstd::prelude::*;

verus! {

/// `serde_json::Value`, a JSON document or a part of one.
#[verifier::external_type_specification]
#[verifier::external_body]
pub struct ExJsonValue(serde_json::Value);

/// `serde_json::Error`, the reason why a text is not JSON.
#[verifier::external_type_specification]
#[verifier::external_body]
pub struct ExJsonError(serde_json::Error);

/// `serde_json::Map`, the members of a JSON object.
#[verifier::external_type_specification]
#[verifier::external_body]
#[verifier::reject_recursive_types(K)]
#[verifier::reject_recursive_types(V)]
pub struct ExJsonMap<K, V>(serde_json::Map<K, V>);

/// What `serde_json::from_str` reads from a text: the document, or the error
/// that says why the text is not one JSON document.
pub uninterp spec fn json_document(text: Seq<char>) -> Result<serde_json::Value, serde_json::Error>;

/// What `serde_json::Error`'s `Display` writes for an error.
pub uninterp spec fn json_error_text(error: serde_json::Error) -> Seq<char>;

/// What indexing a `serde_json::Value` by a string yields: the member of
/// that name where the value is an object that has one, and null otherwise.
pub uninterp spec fn json_member(value: serde_json::Value, name: Seq<char>) -> serde_json::Value;

/// What `serde_json::Value::as_object` yields: the value's members where it
/// is an object, and nothing otherwise.
pub uninterp spec fn json_object(value: serde_json::Value) -> Option<
    serde_json::Map<String, serde_json::Value>,
>;

/// The keys that a `serde_json::Map` holds, in the order in which
/// `serde_json::Map::keys` walks them.
pub uninterp spec fn json_keys(object: serde_json::Map<String, serde_json::Value>) -> Seq<
    Seq<char>,
>;

/// `serde_json::from_str` at `serde_json::Value`. The outcome is a function
/// of the text alone and is known here only by its name.
#[verifier::external_body]
pub(crate) fn parse_document(text: &str) -> (outcome: Result<serde_json::Value, serde_json::Error>)
    ensures
        outcome == json_document(text@),
{
    serde_json::from_str::<serde_json::Value>(text)
}

/// `to_string` on a `serde_json::Error`, which goes through its `Display`.
#[verifier::external_body]
pub(crate) fn error_text(error: &serde_json::Error) -> (text: String)
    ensures
        text@ == json_error_text(*error),
{
    error.to_string()
}

/// Indexing a `serde_json::Value` by a string, which never fails.
#[verifier::external_body]
pub(crate) fn member<'a>(value: &'a serde_json::Value, name: &str) -> (found: &'a serde_json::Value)
    ensures
        *found == json_member(*value, name@),
{
    &value[name]
}

/// `serde_json::Value::as_object`.
#[verifier::external_body]
pub(crate) fn as_object<'a>(value: &'a serde_json::Value) -> (object: Option<
    &'a serde_json::Map<String, serde_json::Value>,
>)
    ensures
        match object {
            Some(members) => json_object(*value) == Some(*members),
            None => json_object(*value) is None,
        },
{
    value.as_object()
}

/// `serde_json::Map::keys`, each key copied out: as many strings as the map
/// has keys, in the order of the walk.
#[verifier::external_body]
pub(crate) fn keys_of(object: &serde_json::Map<String, serde_json::Value>) -> (keys: Vec<String>)
    ensures
        keys@.len() == json_keys(*object).len(),
        forall|i: int| 0 <= i < keys@.len() ==> (#[trigger] keys@[i])@ == json_keys(*object)[i],
{
    object.keys().cloned().collect()
}

} // verus!
