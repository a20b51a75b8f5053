//! JSON documents.
//!
//! A document is held as a `serde_json::Value`, which the verifier cannot
//! look into. Contracts speak of its mathematical content, a [`JsonDoc`],
//! and every function here that builds or reads a `Value` is a thin call
//! into `serde_json` whose contract is believed, not proved.

use serde_json::Value;
use vstd::prelude::*;

verus! {

/// `serde_json::Value`, taken as a whole: nothing of its inside is known
/// but what [`json_of`] names.
#[verifier::external_type_specification]
#[verifier::external_body]
pub struct ExValue(serde_json::Value);

/// `serde_json::Map`, taken as a whole: nothing of its inside is known but
/// what [`members_of`] names.
#[verifier::external_type_specification]
#[verifier::external_body]
#[verifier::reject_recursive_types(K)]
#[verifier::reject_recursive_types(V)]
pub struct ExObject<K, V>(serde_json::Map<K, V>);

/// The content of a JSON document.
///
/// An object is a map: the order of its members is no part of it. A number
/// is an integer where it was written as one, and otherwise the bit
/// pattern of the double that holds it.
pub enum JsonDoc {
    Null,
    Bool(bool),
    Integer(int),
    Real(nat),
    Text(Seq<char>),
    List(Seq<JsonDoc>),
    Record(Map<Seq<char>, JsonDoc>),
}

/// The content of a `serde_json::Value`.
pub uninterp spec fn json_of(value: Value) -> JsonDoc;

/// The members of a `serde_json::Map`, each value by its content.
pub uninterp spec fn members_of(object: serde_json::Map<String, Value>) -> Map<Seq<char>, JsonDoc>;

/// What `serde_json::from_slice` makes of a body: the document that the
/// bytes spell, or `None` where they are not one JSON document.
pub uninterp spec fn parsed(bytes: Seq<u8>) -> Option<JsonDoc>;

/// The compact text that `serde_json::to_string` writes for a document.
pub uninterp spec fn json_text(doc: JsonDoc) -> Seq<char>;

/// The document found in `doc` by going down through the members named by
/// `keys`, one after the other, or `None` where a member is not there.
pub open spec fn at(doc: JsonDoc, keys: Seq<Seq<char>>) -> Option<JsonDoc>
    decreases keys.len(),
{
    if keys.len() == 0 {
        Some(doc)
    } else {
        match doc {
            JsonDoc::Record(members) => if members.contains_key(keys[0]) {
                at(members[keys[0]], keys.drop_first())
            } else {
                None
            },
            _ => None,
        }
    }
}

/// Going down from an object through `key` and then `keys` is going down
/// from its member `key` through `keys`.
pub proof fn lemma_at_member(
    members: Map<Seq<char>, JsonDoc>,
    key: Seq<char>,
    keys: Seq<Seq<char>>,
)
    requires
        members.contains_key(key),
    ensures
        at(JsonDoc::Record(members), seq![key] + keys) == at(members[key], keys),
{
    assert((seq![key] + keys).drop_first() =~= keys);
}

/// The content of each of `items`, in order.
pub open spec fn docs_of(items: Seq<Value>) -> Seq<JsonDoc> {
    items.map_values(|item: Value| json_of(item))
}

/// `Value::String`: the JSON string that holds `text`.
#[verifier::external_body]
pub(crate) fn json_string(text: String) -> (value: Value)
    ensures
        json_of(value) == JsonDoc::Text(text@),
{
    Value::String(text)
}

/// `Value::Bool`: the JSON boolean `flag`.
#[verifier::external_body]
pub(crate) fn json_bool(flag: bool) -> (value: Value)
    ensures
        json_of(value) == JsonDoc::Bool(flag),
{
    Value::Bool(flag)
}

/// `Value::from` on a `usize`: the JSON number that is the integer `count`.
#[verifier::external_body]
pub(crate) fn json_count(count: usize) -> (value: Value)
    ensures
        json_of(value) == JsonDoc::Integer(count as int),
{
    Value::from(count)
}

/// `Value::Array`: the JSON array of `items`, in their order.
#[verifier::external_body]
pub(crate) fn json_array(items: Vec<Value>) -> (value: Value)
    ensures
        json_of(value) == JsonDoc::List(docs_of(items@)),
{
    Value::Array(items)
}

/// `Value::Object`: the JSON object with the members of `object`.
#[verifier::external_body]
pub(crate) fn json_object(object: serde_json::Map<String, Value>) -> (value: Value)
    ensures
        json_of(value) == JsonDoc::Record(members_of(object)),
{
    Value::Object(object)
}

/// `Value::clone`: a copy with the same content.
#[verifier::external_body]
pub(crate) fn json_clone(value: &Value) -> (copy: Value)
    ensures
        json_of(copy) == json_of(*value),
{
    value.clone()
}

/// `serde_json::Map::new`: an object without members.
#[verifier::external_body]
pub(crate) fn object_new() -> (object: serde_json::Map<String, Value>)
    ensures
        members_of(object) == (Map::<Seq<char>, JsonDoc>::empty()),
{
    serde_json::Map::new()
}

/// `serde_json::Map::insert`: sets the member `key` to `value`, in place of
/// an earlier member of that name if there was one.
#[verifier::external_body]
pub(crate) fn object_insert(object: &mut serde_json::Map<String, Value>, key: String, value: Value)
    ensures
        members_of(*final(object)) == members_of(*old(object)).insert(key@, json_of(value)),
{
    object.insert(key, value);
}

/// Sets the member `key` of `object` to `value`.
pub(crate) fn put(object: &mut serde_json::Map<String, Value>, key: &str, value: Value)
    ensures
        members_of(*final(object)) == members_of(*old(object)).insert(key@, json_of(value)),
{
    object_insert(object, String::from_str(key), value);
}

/// `serde_json::from_slice`: reads `bytes` as one JSON document. On failure
/// it hands back what `serde_json` says of it; nothing is claimed of those
/// words.
#[verifier::external_body]
pub(crate) fn json_parse(bytes: &[u8]) -> (outcome: Result<Value, String>)
    ensures
        match outcome {
            Ok(value) => parsed(bytes@) == Some(json_of(value)),
            Err(_) => parsed(bytes@) is None,
        },
{
    match serde_json::from_slice::<Value>(bytes) {
        Ok(value) => Ok(value),
        Err(error) => Err(error.to_string()),
    }
}

/// `serde_json::to_string`: the compact text of `value`. For a `Value` it
/// always gives one: the members of an object have strings for keys, a
/// number that is not finite is written as `null`, and the text is
/// written into memory, so none of the ways in which `to_string` can fail
/// is open. The text is the text of the document.
#[verifier::external_body]
pub(crate) fn json_render(value: &Value) -> (outcome: Result<String, String>)
    ensures
        outcome is Ok,
        outcome matches Ok(text) ==> text@ == json_text(json_of(*value)),
{
    match serde_json::to_string(value) {
        Ok(text) => Ok(text),
        Err(error) => Err(error.to_string()),
    }
}

} // verus!
