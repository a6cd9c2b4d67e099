//! JSON documents as the protocol engine sees them.
//!
//! Documents are held as `serde_json::Value`. Verus cannot look inside such a
//! value, so every contract in this crate speaks of its mathematical content,
//! [`json_model`]. The functions in the first half of this file are the only
//! places where `serde_json` is called; their contracts are believed, not
//! proved. Everything after them is verified against those contracts.
use vstd::prelude::*;

verus! {

/// `serde_json::Value`, a JSON document. Nothing inside it is seen here.
#[verifier::external_type_specification]
#[verifier::external_body]
pub struct ExValue(serde_json::Value);

/// `serde_json::Map`, the members of a JSON object. Nothing inside it is
/// seen here.
#[verifier::external_type_specification]
#[verifier::external_body]
#[verifier::reject_recursive_types(K)]
#[verifier::reject_recursive_types(V)]
pub struct ExMap<K, V>(serde_json::Map<K, V>);

/// The members of a JSON object, as `serde_json` holds them.
pub type JsonMembers = serde_json::Map<String, serde_json::Value>;

/// The mathematical content of a JSON document.
///
/// Integers that fit `u64` or `i64` are `Int`. Every other number is `Real`,
/// carrying the bit pattern of the IEEE-754 double that stands for it.
pub enum JsonModel {
    Null,
    Bool(bool),
    Int(int),
    Real(u64),
    Text(Seq<char>),
    Array(Seq<JsonModel>),
    Object(Map<Seq<char>, JsonModel>),
}

/// What a `serde_json::Value` holds.
pub uninterp spec fn json_model(v: serde_json::Value) -> JsonModel;

/// The members of a `serde_json::Map`, by key.
pub uninterp spec fn json_members(m: serde_json::Map<String, serde_json::Value>) -> Map<
    Seq<char>,
    JsonModel,
>;

/// The compact text that `serde_json::to_string` writes for a document.
pub uninterp spec fn json_text(m: JsonModel) -> Seq<char>;

/// The document that `serde_json::from_str` reads from a text, `None` where it
/// reports an error.
pub uninterp spec fn json_parsed(text: Seq<char>) -> Option<JsonModel>;

/// The document that `serde_json::from_slice` reads from bytes, `None` where
/// it reports an error.
pub uninterp spec fn json_parsed_bytes(bytes: Seq<u8>) -> Option<JsonModel>;

/// An object without members.
pub open spec fn no_members() -> Map<Seq<char>, JsonModel> {
    Map::empty()
}

/// The models of a sequence of values, one for one.
pub open spec fn json_models(items: Seq<serde_json::Value>) -> Seq<JsonModel> {
    Seq::new(items.len(), |i: int| json_model(items[i]))
}

/// `Clone` of `serde_json::Value` is derived: the copy holds what the original
/// holds.
pub assume_specification[ <serde_json::Value as Clone>::clone ](v: &serde_json::Value) -> (r:
    serde_json::Value)
    ensures
        json_model(r) == json_model(*v),
;

/// `serde_json::Value::Null`.
#[verifier::external_body]
pub(crate) fn json_null() -> (r: serde_json::Value)
    ensures
        json_model(r) == JsonModel::Null,
{
    serde_json::Value::Null
}

/// `serde_json::Value::Bool`.
#[verifier::external_body]
pub(crate) fn json_bool(b: bool) -> (r: serde_json::Value)
    ensures
        json_model(r) == JsonModel::Bool(b),
{
    serde_json::Value::Bool(b)
}

/// `From<i64> for serde_json::Value`: the number is held as an integer.
#[verifier::external_body]
pub(crate) fn json_i64(n: i64) -> (r: serde_json::Value)
    ensures
        json_model(r) == JsonModel::Int(n as int),
{
    serde_json::Value::from(n)
}

/// `From<u64> for serde_json::Value`: the number is held as an integer.
#[verifier::external_body]
pub(crate) fn json_u64(n: u64) -> (r: serde_json::Value)
    ensures
        json_model(r) == JsonModel::Int(n as int),
{
    serde_json::Value::from(n)
}

/// `serde_json::Value::String`.
#[verifier::external_body]
pub(crate) fn json_string(s: String) -> (r: serde_json::Value)
    ensures
        json_model(r) == JsonModel::Text(s@),
{
    serde_json::Value::String(s)
}

/// `serde_json::Value::Array`: the items in their order.
#[verifier::external_body]
pub(crate) fn json_array(items: Vec<serde_json::Value>) -> (r: serde_json::Value)
    ensures
        json_model(r) == JsonModel::Array(json_models(items@)),
{
    serde_json::Value::Array(items)
}

/// `serde_json::Value::Object`.
#[verifier::external_body]
pub(crate) fn json_object(members: JsonMembers) -> (r:
    serde_json::Value)
    ensures
        json_model(r) == JsonModel::Object(json_members(members)),
{
    serde_json::Value::Object(members)
}

/// `serde_json::Map::new`: a map without members.
#[verifier::external_body]
pub(crate) fn members_new() -> (r: JsonMembers)
    ensures
        json_members(r) == no_members(),
{
    serde_json::Map::new()
}

/// `serde_json::Map::insert`: the key now maps to the value, whether or not
/// it was present before; the other members stay.
#[verifier::external_body]
pub(crate) fn members_insert(members: &mut JsonMembers, key: String, value: serde_json::Value)
    ensures
        json_members(*final(members)) == json_members(*old(members)).insert(key@, json_model(value)),
{
    members.insert(key, value);
}

/// `serde_json::Value::is_null`.
#[verifier::external_body]
pub(crate) fn json_is_null(v: &serde_json::Value) -> (r: bool)
    ensures
        r == (json_model(*v) is Null),
{
    v.is_null()
}

/// `serde_json::Value::is_object`.
#[verifier::external_body]
pub(crate) fn json_is_object(v: &serde_json::Value) -> (r: bool)
    ensures
        r == (json_model(*v) is Object),
{
    v.is_object()
}

/// `serde_json::Value::as_bool`: the flag of a boolean, `None` for anything
/// else.
#[verifier::external_body]
pub(crate) fn json_as_bool(v: &serde_json::Value) -> (r: Option<bool>)
    ensures
        r == bool_of(json_model(*v)),
{
    v.as_bool()
}

/// `serde_json::Value::as_i64`: an integer that fits `i64`, `None` for
/// anything else.
#[verifier::external_body]
pub(crate) fn json_as_i64(v: &serde_json::Value) -> (r: Option<i64>)
    ensures
        r == i64_of(json_model(*v)),
{
    v.as_i64()
}

/// `serde_json::Value::as_u64`: an integer that fits `u64`, `None` for
/// anything else.
#[verifier::external_body]
pub(crate) fn json_as_u64(v: &serde_json::Value) -> (r: Option<u64>)
    ensures
        r == u64_of(json_model(*v)),
{
    v.as_u64()
}

/// `serde_json::Value::as_str`: the text of a string, `None` for anything
/// else.
#[verifier::external_body]
pub(crate) fn json_as_str(v: &serde_json::Value) -> (r: Option<&str>)
    ensures
        match r {
            Some(s) => text_of(json_model(*v)) == Some(s@),
            None => text_of(json_model(*v)) is None,
        },
{
    v.as_str()
}

/// `serde_json::Value::as_array`: the items of an array, `None` for anything
/// else.
#[verifier::external_body]
pub(crate) fn json_as_array(v: &serde_json::Value) -> (r: Option<&Vec<serde_json::Value>>)
    ensures
        match r {
            Some(items) => items_of(json_model(*v)) == Some(json_models(items@)),
            None => items_of(json_model(*v)) is None,
        },
{
    v.as_array()
}

/// `serde_json::Value::get` with a string index: the member of an object
/// under that key; `None` where the key is absent or the value is no object.
#[verifier::external_body]
pub(crate) fn json_get<'a>(v: &'a serde_json::Value, key: &str) -> (r: Option<
    &'a serde_json::Value,
>)
    ensures
        match r {
            Some(f) => member(json_model(*v), key@) == Some(json_model(*f)),
            None => member(json_model(*v), key@) is None,
        },
{
    v.get(key)
}

/// `serde_json::from_str` at type `serde_json::Value`.
#[verifier::external_body]
pub(crate) fn json_parse(text: &str) -> (r: Option<serde_json::Value>)
    ensures
        match r {
            Some(v) => json_parsed(text@) == Some(json_model(v)),
            None => json_parsed(text@) is None,
        },
{
    serde_json::from_str::<serde_json::Value>(text).ok()
}

/// `serde_json::from_slice` at type `serde_json::Value`.
#[verifier::external_body]
pub(crate) fn json_parse_bytes(bytes: &[u8]) -> (r: Option<serde_json::Value>)
    ensures
        match r {
            Some(v) => json_parsed_bytes(bytes@) == Some(json_model(v)),
            None => json_parsed_bytes(bytes@) is None,
        },
{
    serde_json::from_slice::<serde_json::Value>(bytes).ok()
}

/// `serde_json::to_string` at type `serde_json::Value`. The call fails where
/// the writing of the value itself fails, where a map has a key that is no
/// string, or where the writer fails. A `Value` writes itself without
/// failing, the keys of its objects are strings, and the writer is a vector
/// in memory: so there is always a text.
#[verifier::external_body]
pub(crate) fn json_to_text(v: &serde_json::Value) -> (r: Option<String>)
    ensures
        match r {
            Some(s) => s@ == json_text(json_model(*v)),
            None => false,
        },
{
    serde_json::to_string(v).ok()
}

/// The flag of a boolean.
pub open spec fn bool_of(m: JsonModel) -> Option<bool> {
    match m {
        JsonModel::Bool(b) => Some(b),
        _ => None,
    }
}

/// An integer within `i64`.
pub open spec fn i64_of(m: JsonModel) -> Option<i64> {
    match m {
        JsonModel::Int(n) => if i64::MIN <= n <= i64::MAX {
            Some(n as i64)
        } else {
            None
        },
        _ => None,
    }
}

/// An integer within `u64`.
pub open spec fn u64_of(m: JsonModel) -> Option<u64> {
    match m {
        JsonModel::Int(n) => if 0 <= n <= u64::MAX {
            Some(n as u64)
        } else {
            None
        },
        _ => None,
    }
}

/// The text of a string.
pub open spec fn text_of(m: JsonModel) -> Option<Seq<char>> {
    match m {
        JsonModel::Text(s) => Some(s),
        _ => None,
    }
}

/// The items of an array.
pub open spec fn items_of(m: JsonModel) -> Option<Seq<JsonModel>> {
    match m {
        JsonModel::Array(items) => Some(items),
        _ => None,
    }
}

/// The member of an object under a key.
pub open spec fn member(m: JsonModel, key: Seq<char>) -> Option<JsonModel> {
    match m {
        JsonModel::Object(members) => if members.contains_key(key) {
            Some(members[key])
        } else {
            None
        },
        _ => None,
    }
}

/// A member that is present and not `null`. This is how an optional field
/// reads: an absent field and an explicit `null` mean the same.
pub open spec fn present_member(m: JsonModel, key: Seq<char>) -> Option<JsonModel> {
    match member(m, key) {
        Some(JsonModel::Null) => None,
        other => other,
    }
}

/// A member that must be a string.
pub open spec fn text_member(m: JsonModel, key: Seq<char>) -> Option<Seq<char>> {
    match member(m, key) {
        Some(f) => text_of(f),
        None => None,
    }
}

/// How an optional field of some type reads: `Ok(None)` where it is absent or
/// `null`, `Ok(Some(..))` where it holds a value of the type, `Err` where it
/// holds anything else.
pub open spec fn optional_text_member(m: JsonModel, key: Seq<char>) -> Result<
    Option<Seq<char>>,
    (),
> {
    match present_member(m, key) {
        None => Ok(None),
        Some(JsonModel::Text(s)) => Ok(Some(s)),
        Some(_) => Err(()),
    }
}

/// An optional boolean field, read as [`optional_text_member`] reads a text.
pub open spec fn optional_bool_member(m: JsonModel, key: Seq<char>) -> Result<Option<bool>, ()> {
    match present_member(m, key) {
        None => Ok(None),
        Some(JsonModel::Bool(b)) => Ok(Some(b)),
        Some(_) => Err(()),
    }
}

/// An optional integer field within `i64`.
pub open spec fn optional_i64_member(m: JsonModel, key: Seq<char>) -> Result<Option<i64>, ()> {
    match present_member(m, key) {
        None => Ok(None),
        Some(f) => match i64_of(f) {
            Some(n) => Ok(Some(n)),
            None => Err(()),
        },
    }
}

/// The object that arises from `members` by adding `value` under `key` when
/// there is one.
pub open spec fn with_optional(
    members: Map<Seq<char>, JsonModel>,
    key: Seq<char>,
    value: Option<JsonModel>,
) -> Map<Seq<char>, JsonModel> {
    match value {
        Some(v) => members.insert(key, v),
        None => members,
    }
}

/// Reads a member that is present and not `null`.
pub fn get_present<'a>(v: &'a serde_json::Value, key: &str) -> (r: Option<&'a serde_json::Value>)
    ensures
        match r {
            Some(f) => present_member(json_model(*v), key@) == Some(json_model(*f)),
            None => present_member(json_model(*v), key@) is None,
        },
{
    match json_get(v, key) {
        Some(f) => if json_is_null(f) {
            None
        } else {
            Some(f)
        },
        None => None,
    }
}

/// Reads a member that must be a string.
pub fn get_text(v: &serde_json::Value, key: &str) -> (r: Option<String>)
    ensures
        match r {
            Some(s) => text_member(json_model(*v), key@) == Some(s@),
            None => text_member(json_model(*v), key@) is None,
        },
{
    match json_get(v, key) {
        Some(f) => match json_as_str(f) {
            Some(s) => Some(s.to_owned()),
            None => None,
        },
        None => None,
    }
}

/// The characters of an optional text.
pub open spec fn text_view(s: Option<String>) -> Option<Seq<char>> {
    match s {
        Some(s) => Some(s@),
        None => None,
    }
}

/// Reads an optional string member.
pub fn get_optional_text(v: &serde_json::Value, key: &str) -> (r: Result<Option<String>, ()>)
    ensures
        match r {
            Ok(s) => optional_text_member(json_model(*v), key@) == Ok::<Option<Seq<char>>, ()>(
                text_view(s),
            ),
            Err(_) => optional_text_member(json_model(*v), key@) is Err,
        },
{
    match get_present(v, key) {
        None => Ok(None),
        Some(f) => match json_as_str(f) {
            Some(s) => Ok(Some(s.to_owned())),
            None => Err(()),
        },
    }
}

/// Reads an optional boolean member.
pub fn get_optional_bool(v: &serde_json::Value, key: &str) -> (r: Result<Option<bool>, ()>)
    ensures
        r == optional_bool_member(json_model(*v), key@),
{
    match get_present(v, key) {
        None => Ok(None),
        Some(f) => match json_as_bool(f) {
            Some(b) => Ok(Some(b)),
            None => Err(()),
        },
    }
}

/// Reads an optional integer member.
pub fn get_optional_i64(v: &serde_json::Value, key: &str) -> (r: Result<Option<i64>, ()>)
    ensures
        r == optional_i64_member(json_model(*v), key@),
{
    match get_present(v, key) {
        None => Ok(None),
        Some(f) => match json_as_i64(f) {
            Some(n) => Ok(Some(n)),
            None => Err(()),
        },
    }
}

/// Adds a string member.
pub fn put_text(members: &mut JsonMembers, key: &str, value: &str)
    ensures
        json_members(*final(members)) == json_members(*old(members)).insert(
            key@,
            JsonModel::Text(value@),
        ),
{
    members_insert(members, key.to_owned(), json_string(value.to_owned()));
}

/// Adds a string member when there is a value, and nothing otherwise.
pub fn put_optional_text(
    members: &mut JsonMembers,
    key: &str,
    value: &Option<String>,
)
    ensures
        json_members(*final(members)) == with_optional(
            json_members(*old(members)),
            key@,
            match *value {
                Some(s) => Some(JsonModel::Text(s@)),
                None => None,
            },
        ),
{
    match value {
        Some(s) => put_text(members, key, s.as_str()),
        None => {},
    }
}

/// Adds a boolean member when there is a value, and nothing otherwise.
pub fn put_optional_bool(
    members: &mut JsonMembers,
    key: &str,
    value: Option<bool>,
)
    ensures
        json_members(*final(members)) == with_optional(
            json_members(*old(members)),
            key@,
            match value {
                Some(b) => Some(JsonModel::Bool(b)),
                None => None,
            },
        ),
{
    match value {
        Some(b) => members_insert(members, key.to_owned(), json_bool(b)),
        None => {},
    }
}

/// Adds a member when there is a value, and nothing otherwise.
pub fn put_optional(
    members: &mut JsonMembers,
    key: &str,
    value: Option<serde_json::Value>,
)
    ensures
        json_members(*final(members)) == with_optional(
            json_members(*old(members)),
            key@,
            match value {
                Some(v) => Some(json_model(v)),
                None => None,
            },
        ),
{
    match value {
        Some(v) => members_insert(members, key.to_owned(), v),
        None => {},
    }
}

/// The texts of an array whose items are all strings; `None` where an item
/// is something else.
pub open spec fn all_texts(items: Seq<JsonModel>) -> Option<Seq<Seq<char>>> {
    if forall|i: int| 0 <= i < items.len() ==> (#[trigger] items[i]) is Text {
        Some(Seq::new(items.len(), |i: int| items[i]->Text_0))
    } else {
        None
    }
}

/// The characters of each of some texts.
pub open spec fn text_views(texts: Seq<String>) -> Seq<Seq<char>> {
    Seq::new(texts.len(), |i: int| texts[i]@)
}

/// Reads the items of an array as texts. `None` where an item is no string.
pub fn texts_from_array(items: &Vec<serde_json::Value>) -> (r: Option<Vec<String>>)
    ensures
        match r {
            Some(texts) => all_texts(json_models(items@)) == Some(text_views(texts@)),
            None => all_texts(json_models(items@)) is None,
        },
{
    let ghost models = json_models(items@);
    let mut texts: Vec<String> = Vec::new();
    let mut i: usize = 0;
    while i < items.len()
        invariant
            i <= items.len(),
            texts@.len() == i,
            models == json_models(items@),
            forall|j: int| 0 <= j < i ==> (#[trigger] models[j]) is Text,
            forall|j: int| 0 <= j < i ==> (#[trigger] texts@[j])@ == models[j]->Text_0,
        decreases items.len() - i,
    {
        match json_as_str(&items[i]) {
            Some(s) => texts.push(s.to_owned()),
            None => {
                assert(!(models[i as int] is Text));
                return None;
            },
        }
        i += 1;
    }
    assert(text_views(texts@) =~= Seq::new(models.len(), |i: int| models[i]->Text_0));
    Some(texts)
}

/// An optional integer field within `u64`, read as [`optional_text_member`]
/// reads a text.
pub open spec fn optional_u64_member(m: JsonModel, key: Seq<char>) -> Result<Option<u64>, ()> {
    match present_member(m, key) {
        None => Ok(None),
        Some(f) => match u64_of(f) {
            Some(n) => Ok(Some(n)),
            None => Err(()),
        },
    }
}

/// Reads an optional integer field within `u64`.
pub fn get_optional_u64(v: &serde_json::Value, key: &str) -> (r: Result<Option<u64>, ()>)
    ensures
        r == optional_u64_member(json_model(*v), key@),
{
    match get_present(v, key) {
        None => Ok(None),
        Some(f) => match json_as_u64(f) {
            Some(n) => Ok(Some(n)),
            None => Err(()),
        },
    }
}

} // verus!
