//! JSON values, as `serde_json` holds, reads and prints them.
//!
//! The library never looks inside a `serde_json::Value` itself. It reads and
//! builds values through the functions of this module, and its contracts speak
//! of a value through `json_view`, the mathematical content of the value.
//! Everything this module states about `serde_json` is taken on trust.

use vstd::prelude::*;

verus! {

/// The content of a JSON value.
pub enum JsonModel {
    Null,
    Bool(bool),
    /// A number without fraction or exponent.
    Int(int),
    /// Any other number, by the digits it is printed with.
    Fraction(Seq<char>),
    Text(Seq<char>),
    Array(Seq<JsonModel>),
    /// The members of an object in the order in which they are walked and
    /// printed. No key occurs twice.
    Object(Seq<(Seq<char>, JsonModel)>),
}

/// The value of the first member of `members` under `key`.
pub open spec fn member(members: Seq<(Seq<char>, JsonModel)>, key: Seq<char>) -> Option<JsonModel>
    decreases members.len(),
{
    if members.len() == 0 {
        None
    } else if members[0].0 == key {
        Some(members[0].1)
    } else {
        member(members.drop_first(), key)
    }
}

/// A member is found at the first place where its key stands.
pub proof fn lemma_member_found(members: Seq<(Seq<char>, JsonModel)>, i: int, key: Seq<char>)
    requires
        0 <= i < members.len(),
        members[i].0 == key,
        forall|j: int| 0 <= j < i ==> members[j].0 != key,
    ensures
        member(members, key) == Some(members[i].1),
    decreases i,
{
    if i > 0 {
        let rest = members.drop_first();
        assert(rest[i - 1] == members[i]);
        assert forall|j: int| 0 <= j < i - 1 implies rest[j].0 != key by {
            assert(rest[j] == members[j + 1]);
        }
        lemma_member_found(rest, i - 1, key);
    }
}

impl JsonModel {
    /// The member of this object under `key`; nothing if this is no object
    /// or has no such member.
    pub open spec fn get(self, key: Seq<char>) -> Option<JsonModel> {
        match self {
            JsonModel::Object(members) => member(members, key),
            _ => None,
        }
    }

    /// This number as an `i64`, if it is an integer in that range.
    pub open spec fn as_i64(self) -> Option<i64> {
        match self {
            JsonModel::Int(i) => if i64::MIN <= i <= i64::MAX {
                Some(i as i64)
            } else {
                None
            },
            _ => None,
        }
    }

    /// The characters of this string, if it is one.
    pub open spec fn as_text(self) -> Option<Seq<char>> {
        match self {
            JsonModel::Text(s) => Some(s),
            _ => None,
        }
    }

    /// The items of this array, if it is one.
    pub open spec fn as_items(self) -> Option<Seq<JsonModel>> {
        match self {
            JsonModel::Array(items) => Some(items),
            _ => None,
        }
    }
}

/// Whether no two of `keys` are equal.
pub open spec fn distinct_keys(keys: Seq<Seq<char>>) -> bool {
    forall|i: int, j: int| 0 <= i < j < keys.len() ==> keys[i] != keys[j]
}

/// The contents of the values of `items`, one by one.
pub open spec fn views(items: Seq<serde_json::Value>) -> Seq<JsonModel> {
    items.map_values(|v: serde_json::Value| json_view(v))
}

/// The contents of the members `fields`, one by one.
pub open spec fn member_views(fields: Seq<(String, serde_json::Value)>) -> Seq<
    (Seq<char>, JsonModel),
> {
    fields.map_values(|f: (String, serde_json::Value)| (f.0@, json_view(f.1)))
}

/// The keys of the members `fields`, one by one.
pub open spec fn member_keys(fields: Seq<(String, serde_json::Value)>) -> Seq<Seq<char>> {
    fields.map_values(|f: (String, serde_json::Value)| f.0@)
}

#[verifier::external_type_specification]
#[verifier::external_body]
pub struct ExValue(serde_json::Value);

/// The content of a `serde_json::Value`. Two values with the same content
/// are the same JSON value.
pub uninterp spec fn json_view(v: serde_json::Value) -> JsonModel;

/// What `serde_json::from_str` reads from `text`: the content of the value,
/// or nothing where it reports an error.
pub uninterp spec fn parsed_json(text: Seq<char>) -> Option<JsonModel>;

/// What `serde_json::to_string` prints for a value with content `m`, or
/// nothing where it reports an error.
pub uninterp spec fn printed_json(m: JsonModel) -> Option<Seq<char>>;

/// `serde_json::from_str` at type `Value`. Trusted: the result is a function
/// of the text alone; an error becomes `None`.
#[verifier::external_body]
pub(crate) fn parse_json(text: &str) -> (r: Option<serde_json::Value>)
    ensures
        match r {
            Some(v) => parsed_json(text@) == Some(json_view(v)),
            None => parsed_json(text@) is None,
        },
{
    serde_json::from_str::<serde_json::Value>(text).ok()
}

/// `serde_json::to_string` on a `Value`. Trusted: the compact text is a
/// function of the value's content alone; an error becomes `None`.
#[verifier::external_body]
pub(crate) fn print_json(v: &serde_json::Value) -> (r: Option<String>)
    ensures
        match r {
            Some(s) => printed_json(json_view(*v)) == Some(s@),
            None => printed_json(json_view(*v)) is None,
        },
{
    serde_json::to_string(v).ok()
}

/// `Value::get` with a string key. Trusted: on an object it hands out the
/// member under that key, on anything else and on a missing key nothing.
#[verifier::external_body]
pub(crate) fn json_get<'a>(v: &'a serde_json::Value, key: &str) -> (r: Option<
    &'a serde_json::Value,
>)
    ensures
        match r {
            Some(x) => json_view(*v).get(key@) == Some(json_view(*x)),
            None => json_view(*v).get(key@) is None,
        },
{
    v.get(key)
}

/// `Value::as_i64`. Trusted: an integer number that fits an `i64` is handed
/// out, anything else is not.
#[verifier::external_body]
pub(crate) fn json_as_i64(v: &serde_json::Value) -> (r: Option<i64>)
    ensures
        r == json_view(*v).as_i64(),
{
    v.as_i64()
}

/// `Value::as_str`. Trusted: a string hands out its characters, anything
/// else nothing.
#[verifier::external_body]
pub(crate) fn json_as_str<'a>(v: &'a serde_json::Value) -> (r: Option<&'a str>)
    ensures
        match r {
            Some(s) => json_view(*v).as_text() == Some(s@),
            None => json_view(*v).as_text() is None,
        },
{
    v.as_str()
}

/// `Value::as_array`. Trusted: an array hands out its items in order,
/// anything else nothing.
#[verifier::external_body]
pub(crate) fn json_as_array<'a>(v: &'a serde_json::Value) -> (r: Option<
    &'a Vec<serde_json::Value>,
>)
    ensures
        match r {
            Some(items) => json_view(*v).as_items() == Some(views(items@)),
            None => json_view(*v).as_items() is None,
        },
{
    v.as_array()
}

/// `Value::is_null`. Trusted: true of `null` alone.
#[verifier::external_body]
pub(crate) fn json_is_null(v: &serde_json::Value) -> (r: bool)
    ensures
        r == (json_view(*v) is Null),
{
    v.is_null()
}

/// `Value::clone`. Trusted: the copy has the same content.
#[verifier::external_body]
pub(crate) fn json_clone(v: &serde_json::Value) -> (r: serde_json::Value)
    ensures
        json_view(r) == json_view(*v),
{
    v.clone()
}

/// The variant `Value::Null`.
#[verifier::external_body]
pub(crate) fn json_null() -> (r: serde_json::Value)
    ensures
        json_view(r) == JsonModel::Null,
{
    serde_json::Value::Null
}

/// `Value::from` on an `i64`. Trusted: the value is that integer.
#[verifier::external_body]
pub(crate) fn json_int(i: i64) -> (r: serde_json::Value)
    ensures
        json_view(r) == JsonModel::Int(i as int),
{
    serde_json::Value::from(i)
}

/// The variant `Value::String`.
#[verifier::external_body]
pub(crate) fn json_text(s: String) -> (r: serde_json::Value)
    ensures
        json_view(r) == JsonModel::Text(s@),
{
    serde_json::Value::String(s)
}

/// The variant `Value::Array`.
#[verifier::external_body]
pub(crate) fn json_array(items: Vec<serde_json::Value>) -> (r: serde_json::Value)
    ensures
        json_view(r) == JsonModel::Array(views(items@)),
{
    serde_json::Value::Array(items)
}

/// `Map::from_iter` under `Value::Object`. Trusted: with keys that are all
/// different, the object holds the members in the order given. This rests
/// on the feature `preserve_order`, with which this crate builds
/// `serde_json`: its map then keeps the order of insertion.
#[verifier::external_body]
pub(crate) fn json_object(fields: Vec<(String, serde_json::Value)>) -> (r: serde_json::Value)
    requires
        distinct_keys(member_keys(fields@)),
    ensures
        json_view(r) == JsonModel::Object(member_views(fields@)),
{
    serde_json::Value::Object(fields.into_iter().collect())
}

} // verus!
