//! The JSON object of a function call's arguments, as serde_json parses it.
//!
//! The object stays serde_json's own map; what the logic reads of each value
//! (its compact text, its unsigned integer reading, its string content) comes
//! out as plain values when the value is removed from the map.

use vstd::prelude::*;

verus! {

#[verifier::external_type_specification]
#[verifier::external_body]
#[verifier::reject_recursive_types(K)]
#[verifier::reject_recursive_types(V)]
pub struct ExJsonMap<K, V>(serde_json::Map<K, V>);

#[verifier::external_type_specification]
#[verifier::external_body]
pub struct ExJsonValue(serde_json::Value);

/// A top-level JSON object: serde_json's map from keys to values.
pub type JsonObject = serde_json::Map<String, serde_json::Value>;

/// What the logic reads of one JSON value.
pub struct JsonValueView {
    /// The compact JSON text of the value (serde_json's `Display`).
    pub text: Seq<char>,
    /// `Value::as_u64`: the value when it is a non-negative integer that fits in 64 bits.
    pub unsigned: Option<u64>,
    /// `Value::as_str`: the content when the value is a JSON string.
    pub string: Option<Seq<char>>,
}

/// What the logic reads of one JSON value, as executable data.
pub struct JsonValue {
    pub text: String,
    pub unsigned: Option<u64>,
    pub string: Option<String>,
}

pub open spec fn opt_text(o: Option<String>) -> Option<Seq<char>> {
    match o {
        Some(s) => Some(s@),
        None => None,
    }
}

impl View for JsonValue {
    type V = JsonValueView;

    open spec fn view(&self) -> JsonValueView {
        JsonValueView { text: self.text@, unsigned: self.unsigned, string: opt_text(self.string) }
    }
}

/// The entries of a serde_json map: each key with what is read of its value
/// (its `Display` text, `as_u64` and `as_str`).
pub uninterp spec fn json_entries(m: JsonObject) -> Map<Seq<char>, JsonValueView>;

/// The entries of the object that serde_json parses from the bytes, or `None`
/// when the bytes are not a JSON object.
pub uninterp spec fn json_object_of(bytes: Seq<u8>) -> Option<Map<Seq<char>, JsonValueView>>;

/// The compact JSON text that serde_json writes for an object with these entries.
pub uninterp spec fn json_object_text(entries: Map<Seq<char>, JsonValueView>) -> Seq<char>;

/// `serde_json::from_slice::<Map<String, Value>>`.
/// Claimed: it succeeds exactly when `json_object_of` of the bytes is an
/// object, and the map it returns has those entries.
#[verifier::external_body]
pub(crate) fn parse_json_object(bytes: &[u8]) -> (r: Option<JsonObject>)
    ensures
        r is Some <==> json_object_of(bytes@) is Some,
        r matches Some(m) ==> json_object_of(bytes@) == Some(json_entries(m)),
{
    serde_json::from_slice::<JsonObject>(bytes).ok()
}

/// `serde_json::Map::remove`, handing the removed value out as what is read
/// of it (`to_string`, `as_u64`, `as_str`).
/// Claimed: the key leaves the map and nothing else changes; the value comes
/// out exactly when the key was there, with the entry that the map held.
#[verifier::external_body]
pub(crate) fn remove_entry(m: &mut JsonObject, key: &str) -> (r: Option<JsonValue>)
    ensures
        json_entries(*final(m)) == json_entries(*old(m)).remove(key@),
        r is Some <==> json_entries(*old(m)).contains_key(key@),
        r matches Some(v) ==> v@ == json_entries(*old(m))[key@],
{
    match m.remove(key) {
        Some(v) => Some(
            JsonValue { text: v.to_string(), unsigned: v.as_u64(), string: v.as_str().map(|s| s.to_string()) },
        ),
        None => None,
    }
}

/// `serde_json::Map::is_empty`.
#[verifier::external_body]
pub(crate) fn object_is_empty(m: &JsonObject) -> (r: bool)
    ensures
        r == json_entries(*m).dom().is_empty(),
{
    m.is_empty()
}

/// `serde_json::to_string` of a map.
/// Claimed: it succeeds (string keys, values that always serialize, written
/// to memory) with the text `json_object_text` of the entries.
#[verifier::external_body]
pub(crate) fn object_to_text(m: &JsonObject) -> (r: Option<String>)
    ensures
        r is Some,
        r matches Some(t) ==> t@ == json_object_text(json_entries(*m)),
{
    serde_json::to_string(m).ok()
}

} // verus!
