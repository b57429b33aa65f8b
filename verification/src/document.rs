//! The JSON documents exchanged with the service.
//!
//! Values are held in the `json` crate's `JsonValue`, a tree that stays behind the
//! trusted items of this module; contracts speak of it through `json_model`, the
//! plain tree of strings, numbers and entries that a value holds.
use json::JsonValue;
use vstd::prelude::*;

verus! {

#[verifier::external_type_specification]
#[verifier::external_body]
pub struct ExJsonValue(json::JsonValue);

/// What a JSON value holds, as plain data.
/// A number is kept as the parts the `json` crate stores: its category byte
/// (1 for positive, 0 for negative), its mantissa and its decimal exponent.
/// An object is its entries in the order in which they were first inserted.
pub enum JsonModel {
    Null,
    Text(Seq<char>),
    Number(u8, u64, i16),
    Boolean(bool),
    Object(Seq<(Seq<char>, JsonModel)>),
    Array(Seq<JsonModel>),
}

/// What a `JsonValue` holds.
pub uninterp spec fn json_model(v: JsonValue) -> JsonModel;

/// The text that `Debug` formatting writes for a `JsonValue`.
pub uninterp spec fn json_debug_text(v: JsonValue) -> Seq<char>;

/// What `json::parse` makes of a text: `None` where the text is not JSON.
pub uninterp spec fn json_parsed(text: Seq<char>) -> Option<JsonModel>;

/// The compact JSON text that `json::stringify` writes for a value.
pub uninterp spec fn json_text(m: JsonModel) -> Seq<char>;

/// The value stored under `key` among `entries`, or `Null` where there is none.
pub open spec fn lookup(entries: Seq<(Seq<char>, JsonModel)>, key: Seq<char>) -> JsonModel
    decreases entries.len(),
{
    if entries.len() == 0 {
        JsonModel::Null
    } else if entries[0].0 == key {
        entries[0].1
    } else {
        lookup(entries.drop_first(), key)
    }
}

/// `entries` after storing `v` under `key`: an existing entry keeps its place and
/// takes the new value, a new key goes to the end.
pub open spec fn insert_entry(
    entries: Seq<(Seq<char>, JsonModel)>,
    key: Seq<char>,
    v: JsonModel,
) -> Seq<(Seq<char>, JsonModel)>
    decreases entries.len(),
{
    if entries.len() == 0 {
        seq![(key, v)]
    } else if entries[0].0 == key {
        entries.update(0, (key, v))
    } else {
        seq![entries[0]] + insert_entry(entries.drop_first(), key, v)
    }
}

/// `m[key]`: the field of an object, `Null` for a missing key or a non-object.
pub open spec fn field(m: JsonModel, key: Seq<char>) -> JsonModel {
    match m {
        JsonModel::Object(entries) => lookup(entries, key),
        _ => JsonModel::Null,
    }
}

/// `m[i]`: the member of an array, `Null` out of range or for a non-array.
pub open spec fn member(m: JsonModel, i: int) -> JsonModel {
    match m {
        JsonModel::Array(items) => if 0 <= i < items.len() {
            items[i]
        } else {
            JsonModel::Null
        },
        _ => JsonModel::Null,
    }
}

/// The number of members of an array or entries of an object, 0 for anything else.
pub open spec fn model_len(m: JsonModel) -> nat {
    match m {
        JsonModel::Array(items) => items.len(),
        JsonModel::Object(entries) => entries.len(),
        _ => 0,
    }
}

/// An object made of the given entries.
pub open spec fn object_of(entries: Seq<(Seq<char>, JsonModel)>) -> JsonModel {
    JsonModel::Object(entries)
}

/// The model of an unsigned integer stored in a `JsonValue`.
pub open spec fn unsigned(n: u64) -> JsonModel {
    JsonModel::Number(1, n, 0)
}

/// Calls `json::parse`, keeping the value where the text is JSON.
/// Claims that the value holds what the name `json_parsed` gives for the text.
#[verifier::external_body]
pub fn parse_json(text: &str) -> (res: Option<JsonValue>)
    ensures
        res is Some <==> json_parsed(text@) is Some,
        res matches Some(v) ==> json_parsed(text@) == Some(json_model(v)),
{
    json::parse(text).ok()
}

/// Calls `json::stringify` on a copy of the value.
/// Claims that the text is what the name `json_text` gives for what the value holds.
#[verifier::external_body]
pub fn compact_text(v: &JsonValue) -> (res: String)
    ensures
        res@ == json_text(json_model(*v)),
{
    json::stringify(v.clone())
}

/// Formats the value with `Debug` (`format!("{:?}", v)`).
/// Claims that the text is the one named by `json_debug_text`.
#[verifier::external_body]
pub fn debug_text(v: &JsonValue) -> (res: String)
    ensures
        res@ == json_debug_text(*v),
{
    format!("{:?}", v)
}

/// `&v[key]` (`Index<&str>` of `JsonValue`).
/// Claims the object field, or `Null` for a missing key or a non-object, as the source shows.
#[verifier::external_body]
pub fn get_field<'a>(v: &'a JsonValue, key: &str) -> (res: &'a JsonValue)
    ensures
        json_model(*res) == field(json_model(*v), key@),
{
    &v[key]
}

/// `&v[i]` (`Index<usize>` of `JsonValue`).
/// Claims the array member, or `Null` out of range or for a non-array, as the source shows.
#[verifier::external_body]
pub fn get_member<'a>(v: &'a JsonValue, i: usize) -> (res: &'a JsonValue)
    ensures
        json_model(*res) == member(json_model(*v), i as int),
{
    &v[i]
}

/// `JsonValue::is_string`: true for both string variants.
#[verifier::external_body]
pub fn is_string(v: &JsonValue) -> (res: bool)
    ensures
        res == (json_model(*v) is Text),
{
    v.is_string()
}

/// `JsonValue::is_object`.
#[verifier::external_body]
pub fn is_object(v: &JsonValue) -> (res: bool)
    ensures
        res == (json_model(*v) is Object),
{
    v.is_object()
}

/// `JsonValue::is_array`.
#[verifier::external_body]
pub fn is_array(v: &JsonValue) -> (res: bool)
    ensures
        res == (json_model(*v) is Array),
{
    v.is_array()
}

/// `JsonValue::as_str`: the text of a string, `None` for anything else.
#[verifier::external_body]
pub fn as_str<'a>(v: &'a JsonValue) -> (res: Option<&'a str>)
    ensures
        res is Some <==> json_model(*v) is Text,
        res matches Some(s) ==> json_model(*v) == JsonModel::Text(s@),
{
    v.as_str()
}

/// `JsonValue::len`: members of an array, entries of an object, 0 otherwise.
#[verifier::external_body]
pub fn json_len(v: &JsonValue) -> (res: usize)
    ensures
        res == model_len(json_model(*v)),
{
    v.len()
}

/// `JsonValue::clone`: the copy holds the same data.
#[verifier::external_body]
pub fn clone_json(v: &JsonValue) -> (res: JsonValue)
    ensures
        json_model(res) == json_model(*v),
{
    v.clone()
}

/// `JsonValue::new_object`: an empty object.
#[verifier::external_body]
pub fn new_object() -> (res: JsonValue)
    ensures
        json_model(res) == JsonModel::Object(Seq::empty()),
{
    JsonValue::new_object()
}

/// `JsonValue::insert` on an object: stores `value` under `key`, replacing the value
/// of an existing key in its place, appending a new key at the end.
#[verifier::external_body]
pub fn insert(obj: &mut JsonValue, key: &str, value: JsonValue)
    requires
        json_model(*old(obj)) is Object,
    ensures
        json_model(*final(obj)) == JsonModel::Object(
            insert_entry(json_model(*old(obj))->Object_0, key@, json_model(value)),
        ),
{
    let _ = obj.insert(key, value);
}

/// `JsonValue::from(&str)`: a string value.
#[verifier::external_body]
pub fn from_str(s: &str) -> (res: JsonValue)
    ensures
        json_model(res) == JsonModel::Text(s@),
{
    JsonValue::from(s)
}

/// `JsonValue::from(String)`: a string value, kept as the heap string variant.
#[verifier::external_body]
pub fn from_string(s: String) -> (res: JsonValue)
    ensures
        json_model(res) == JsonModel::Text(s@),
{
    JsonValue::from(s)
}

/// `JsonValue::from(u64)`: a positive number with exponent 0.
#[verifier::external_body]
pub fn from_u64(n: u64) -> (res: JsonValue)
    ensures
        json_model(res) == unsigned(n),
{
    JsonValue::from(n)
}

/// `JsonValue::from(bool)`.
#[verifier::external_body]
pub fn from_bool(b: bool) -> (res: JsonValue)
    ensures
        json_model(res) == JsonModel::Boolean(b),
{
    JsonValue::from(b)
}

} // verus!

verus! {

/// No entry has the key.
pub open spec fn key_absent(entries: Seq<(Seq<char>, JsonModel)>, key: Seq<char>) -> bool {
    forall|i: int| 0 <= i < entries.len() ==> entries[i].0 != key
}

/// Storing under a key that is not there appends the entry.
pub proof fn lemma_insert_new_key(
    entries: Seq<(Seq<char>, JsonModel)>,
    key: Seq<char>,
    v: JsonModel,
)
    requires
        key_absent(entries, key),
    ensures
        insert_entry(entries, key, v) == entries.push((key, v)),
    decreases entries.len(),
{
    if entries.len() > 0 {
        lemma_insert_new_key(entries.drop_first(), key, v);
        assert(seq![entries[0]] + entries.drop_first().push((key, v)) =~= entries.push((key, v)));
    }
}

/// Looking up the key that was just stored gives the stored value.
pub proof fn lemma_lookup_insert_same(
    entries: Seq<(Seq<char>, JsonModel)>,
    key: Seq<char>,
    v: JsonModel,
)
    ensures
        lookup(insert_entry(entries, key, v), key) == v,
    decreases entries.len(),
{
    if entries.len() > 0 && entries[0].0 != key {
        lemma_lookup_insert_same(entries.drop_first(), key, v);
        let r = seq![entries[0]] + insert_entry(entries.drop_first(), key, v);
        assert(r.drop_first() =~= insert_entry(entries.drop_first(), key, v));
    }
}

/// Storing under one key leaves what is found under every other key.
pub proof fn lemma_lookup_insert_other(
    entries: Seq<(Seq<char>, JsonModel)>,
    key: Seq<char>,
    v: JsonModel,
    other: Seq<char>,
)
    requires
        other != key,
    ensures
        lookup(insert_entry(entries, key, v), other) == lookup(entries, other),
    decreases entries.len(),
{
    if entries.len() == 0 {
        let r = seq![(key, v)];
        assert(r.drop_first() =~= Seq::<(Seq<char>, JsonModel)>::empty());
        assert(lookup(r, other) == lookup(r.drop_first(), other));
    } else if entries[0].0 == key {
        let r = entries.update(0, (key, v));
        assert(r.drop_first() =~= entries.drop_first());
        assert(r[0].0 == key);
        assert(lookup(r, other) == lookup(r.drop_first(), other));
    } else {
        lemma_lookup_insert_other(entries.drop_first(), key, v, other);
        let r = seq![entries[0]] + insert_entry(entries.drop_first(), key, v);
        assert(r.drop_first() =~= insert_entry(entries.drop_first(), key, v));
    }
}

} // verus!

verus! {

/// The text of a string value, owned.
pub fn owned_text(v: &JsonValue) -> (res: String)
    requires
        json_model(*v) is Text,
    ensures
        JsonModel::Text(res@) == json_model(*v),
{
    match as_str(v) {
        Some(s) => String::from_str(s),
        None => String::new(),
    }
}

} // verus!
