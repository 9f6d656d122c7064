//! JSON values as the dispatcher sees them, and the two calls into `serde_json`
//! that turn wire text into such a value and back.

use crate::pairs::{entry, lemma_entry_absent, lemma_entry_found, without};
use serde_json::Value;
use vstd::prelude::*;

verus! {

/// `serde_json::Number`, of which nothing is known here: a value of it is
/// only carried from where it was decoded to where it is encoded.
#[verifier::external_type_specification]
#[verifier::external_body]
pub struct ExNumber(serde_json::Number);

/// `serde_json::Value`, of which nothing is known here: it only passes
/// between `serde_json` and the functions that rebuild it as a [`Json`].
#[verifier::external_type_specification]
#[verifier::external_body]
pub struct ExValue(serde_json::Value);

/// A JSON number. Integers are held as such; any other number is carried
/// along untouched in the form `serde_json` gave it.
#[derive(Debug, PartialEq)]
pub enum JsonNumber {
    Unsigned(u64),
    Signed(i64),
    Real(serde_json::Number),
}

/// A JSON value. An object keeps its members in document order; where a key
/// occurs more than once, the last occurrence is the one that counts.
#[derive(Debug, PartialEq)]
pub enum Json {
    Null,
    Bool(bool),
    Number(JsonNumber),
    String(String),
    Array(Vec<Json>),
    Object(Vec<(String, Json)>),
}

/// The mathematical value of a [`Json`].
pub enum JsonValue {
    Null,
    Bool(bool),
    Number(JsonNumber),
    String(Seq<char>),
    Array(Seq<JsonValue>),
    Object(Seq<(Seq<char>, JsonValue)>),
}

impl View for Json {
    type V = JsonValue;

    open spec fn view(&self) -> JsonValue {
        json_value(*self)
    }
}

/// The value of a JSON value.
pub open spec fn json_value(value: Json) -> JsonValue
    decreases value, 0nat,
{
    match value {
        Json::Null => JsonValue::Null,
        Json::Bool(b) => JsonValue::Bool(b),
        Json::Number(n) => JsonValue::Number(n),
        Json::String(s) => JsonValue::String(s@),
        Json::Array(items) => JsonValue::Array(values_prefix(items@, items@.len())),
        Json::Object(members) => JsonValue::Object(members_prefix(members@, members@.len())),
    }
}

/// The values of the first `count` of `items`.
pub open spec fn values_prefix(items: Seq<Json>, count: nat) -> Seq<JsonValue>
    decreases items, count,
{
    if 0 < count <= items.len() {
        values_prefix(items, (count - 1) as nat).push(json_value(items[count - 1]))
    } else {
        Seq::empty()
    }
}

/// The keys and values of the first `count` of `members`.
pub open spec fn members_prefix(members: Seq<(String, Json)>, count: nat) -> Seq<
    (Seq<char>, JsonValue),
>
    decreases members, count,
{
    if 0 < count <= members.len() {
        members_prefix(members, (count - 1) as nat).push(
            (members[count - 1].0@, json_value(members[count - 1].1)),
        )
    } else {
        Seq::empty()
    }
}

/// The values of a sequence of JSON values, position by position.
pub open spec fn values_view(items: Seq<Json>) -> Seq<JsonValue> {
    Seq::new(items.len(), |i: int| items[i]@)
}

/// The members of an object as pairs of key and value.
pub open spec fn members_view(members: Seq<(String, Json)>) -> Seq<(Seq<char>, JsonValue)> {
    Seq::new(members.len(), |i: int| (members[i].0@, members[i].1@))
}

/// The value of an optional JSON value.
pub open spec fn optional_view(value: Option<Json>) -> Option<JsonValue> {
    match value {
        Some(v) => Some(v@),
        None => None,
    }
}

/// The value of an optional list of JSON values.
pub open spec fn optional_values_view(values: Option<Vec<Json>>) -> Option<Seq<JsonValue>> {
    match values {
        Some(items) => Some(values_view(items@)),
        None => None,
    }
}

proof fn lemma_values_prefix(items: Seq<Json>, count: nat)
    requires
        count <= items.len(),
    ensures
        values_prefix(items, count) =~= values_view(items.take(count as int)),
    decreases count,
{
    if count > 0 {
        lemma_values_prefix(items, (count - 1) as nat);
    }
}

proof fn lemma_members_prefix(members: Seq<(String, Json)>, count: nat)
    requires
        count <= members.len(),
    ensures
        members_prefix(members, count) =~= members_view(members.take(count as int)),
    decreases count,
{
    if count > 0 {
        lemma_members_prefix(members, (count - 1) as nat);
    }
}

/// The value of an array is the sequence of the values of its items.
pub proof fn lemma_array_view(items: Vec<Json>)
    ensures
        Json::Array(items)@ == JsonValue::Array(values_view(items@)),
{
    lemma_values_prefix(items@, items@.len());
    assert(items@.take(items@.len() as int) =~= items@);
}

/// The value of an object is the sequence of its members' keys and values.
pub proof fn lemma_object_view(members: Vec<(String, Json)>)
    ensures
        Json::Object(members)@ == JsonValue::Object(members_view(members@)),
{
    lemma_members_prefix(members@, members@.len());
    assert(members@.take(members@.len() as int) =~= members@);
}

/// Takes the member that counts for `key` out of `members` and returns its
/// value.
pub fn take_member(members: &mut Vec<(String, Json)>, key: &str) -> (found: Option<Json>)
    ensures
        optional_view(found) == entry(members_view(old(members)@), key@),
        members_view(final(members)@) == without(members_view(old(members)@), key@),
{
    let wanted = key.to_owned();
    let mut i: usize = members.len();
    while i > 0
        invariant
            i <= members.len(),
            *members == *old(members),
            wanted@ == key@,
            forall|j: int| i <= j < members.len() ==> members_view(members@)[j].0 != key@,
        decreases i,
    {
        i = i - 1;
        if members[i].0 == wanted {
            let ghost before = members_view(members@);
            let (_, value) = members.remove(i);
            proof {
                assert(members_view(members@) =~= before.remove(i as int));
                lemma_entry_found(before, key@, i as int);
            }
            return Some(value);
        }
    }
    proof {
        lemma_entry_absent(members_view(members@), key@);
    }
    None
}

/// What decoding a JSON text yields: the value it denotes, or the message of
/// the decoder's complaint.
pub uninterp spec fn json_decode(text: Seq<u8>) -> Result<JsonValue, Seq<char>>;

/// What encoding a JSON value yields: its text, or nothing where the encoder
/// gives up.
pub uninterp spec fn json_encode(value: JsonValue) -> Option<Seq<u8>>;

/// The value of a decoding result.
pub open spec fn decoded_view(decoded: Result<Json, String>) -> Result<JsonValue, Seq<char>> {
    match decoded {
        Ok(value) => Ok(value@),
        Err(message) => Err(message@),
    }
}

/// The value of an encoding result.
pub open spec fn encoded_view(encoded: Option<Vec<u8>>) -> Option<Seq<u8>> {
    match encoded {
        Some(text) => Some(text@),
        None => None,
    }
}

/// Sorts a `serde_json::Number` into the integer it holds (`as_u64`, then
/// `as_i64`) or, for any other number, keeps it as it is.
#[verifier::external_body]
fn lift_number(number: serde_json::Number) -> JsonNumber {
    match (number.as_u64(), number.as_i64()) {
        (Some(n), _) => JsonNumber::Unsigned(n),
        (_, Some(n)) => JsonNumber::Signed(n),
        _ => JsonNumber::Real(number),
    }
}

/// Rebuilds a `serde_json::Value` as a [`Json`], variant by variant; the
/// members of an object come in the order in which its map hands them out.
#[verifier::external_body]
fn lift(value: Value) -> Json {
    match value {
        Value::Null => Json::Null,
        Value::Bool(b) => Json::Bool(b),
        Value::Number(n) => Json::Number(lift_number(n)),
        Value::String(s) => Json::String(s),
        Value::Array(items) => Json::Array(items.into_iter().map(lift).collect()),
        Value::Object(map) => Json::Object(map.into_iter().map(|(k, v)| (k, lift(v))).collect()),
    }
}

/// Rebuilds a [`JsonNumber`] as a `serde_json::Number` through its `From`
/// impls for `u64` and `i64`.
#[verifier::external_body]
fn lower_number(number: &JsonNumber) -> serde_json::Number {
    match number {
        JsonNumber::Unsigned(n) => serde_json::Number::from(*n),
        JsonNumber::Signed(n) => serde_json::Number::from(*n),
        JsonNumber::Real(n) => n.clone(),
    }
}

/// Rebuilds a [`Json`] as a `serde_json::Value`, variant by variant; an
/// object's members are collected into a map in their order.
#[verifier::external_body]
fn lower(value: &Json) -> Value {
    match value {
        Json::Null => Value::Null,
        Json::Bool(b) => Value::Bool(*b),
        Json::Number(n) => Value::Number(lower_number(n)),
        Json::String(s) => Value::String(s.clone()),
        Json::Array(items) => Value::Array(items.iter().map(lower).collect()),
        Json::Object(members) => Value::Object(
            members.iter().map(|(k, v)| (k.clone(), lower(v))).collect(),
        ),
    }
}

/// Calls `serde_json::from_slice` for a `serde_json::Value`. The contract
/// claims only that the outcome is a function of the bytes: the value that
/// the text denotes, or the decoder's error rendered by its `Display`.
#[verifier::external_body]
pub(crate) fn decode(text: &[u8]) -> (decoded: Result<Json, String>)
    ensures
        decoded_view(decoded) == json_decode(text@),
{
    match serde_json::from_slice::<Value>(text) {
        Ok(value) => Ok(lift(value)),
        Err(error) => Err(error.to_string()),
    }
}

/// Calls `serde_json::to_vec` on the value. The contract claims only that the
/// outcome is a function of the value: its compact text, or nothing where
/// `to_vec` reports an error.
#[verifier::external_body]
pub(crate) fn encode(value: &Json) -> (encoded: Option<Vec<u8>>)
    ensures
        encoded_view(encoded) == json_encode(value@),
{
    serde_json::to_vec(&lower(value)).ok()
}

} // verus!
