//! JSON objects whose members are strings, built and written with
//! `serde_json`. The object is `serde_json`'s own map; contracts speak of its
//! members as a map from member name to string value.

use vstd::prelude::*;

verus! {

/// Trusted: the type `serde_json::Value`, of which nothing is read.
#[verifier::external_type_specification]
#[verifier::external_body]
pub struct ExJsonValue(serde_json::Value);

/// Trusted: the type `serde_json::Map`, the object of a JSON value. What it
/// holds is read through `json_members` only.
#[verifier::external_type_specification]
#[verifier::external_body]
#[verifier::reject_recursive_types(K)]
#[verifier::reject_recursive_types(V)]
pub struct ExJsonMap<K, V>(serde_json::Map<K, V>);

/// Member names with their string values.
pub type Members = Map<Seq<char>, Seq<char>>;

/// The members of a JSON object.
pub uninterp spec fn json_members(object: serde_json::Map<String, serde_json::Value>) -> Members;

/// The compact JSON text of an object with the given members, as
/// `serde_json::to_string` writes it.
pub uninterp spec fn json_object_text(members: Members) -> Seq<char>;

/// Trusted: `serde_json::Map::new`. The new object has no members.
#[verifier::external_body]
pub(crate) fn json_object_new() -> (object: serde_json::Map<String, serde_json::Value>)
    ensures
        json_members(object) == Members::empty(),
{
    serde_json::Map::new()
}

/// Trusted: `serde_json::Map::insert`, with the value as a JSON string.
///
/// The member `key` then has the value `value`, whether or not the object
/// had a member of that name; the other members are unchanged.
#[verifier::external_body]
pub(crate) fn json_object_insert(
    object: &mut serde_json::Map<String, serde_json::Value>,
    key: &str,
    value: &str,
)
    ensures
        json_members(*final(object)) == json_members(*old(object)).insert(key@, value@),
{
    object.insert(key.to_string(), serde_json::Value::String(value.to_string()));
}

/// Trusted: `serde_json::to_string`, on an object.
///
/// The contract names the text as a function of the object's members.
/// `to_string` reports an error only for a map with a key that is no string
/// and for a value whose `Serialize` fails; an object has string keys, and
/// its values are JSON values, which are written without failing.
#[verifier::external_body]
pub(crate) fn json_object_to_string(
    object: &serde_json::Map<String, serde_json::Value>,
) -> (text: String)
    ensures
        text@ == json_object_text(json_members(*object)),
{
    serde_json::to_string(object).expect("a JSON object can always be written")
}

} // verus!
