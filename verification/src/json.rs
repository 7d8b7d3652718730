//! JSON documents, read and written through `serde_json`.
//!
//! A `serde_json::Value` is opaque to the verifier. Its content is named by
//! [`json_tree`], and every access goes through one of the small functions
//! below, whose contracts are taken on trust from the crate's source. The
//! field readers built on them are verified.

use vstd::prelude::*;
use vstd::string::*;

use crate::types::option_text;

verus! {

/// `serde_json::Value`, declared so that verified code can hold one and hand
/// it on. Nothing inside it is visible.
#[verifier::external_type_specification]
#[verifier::external_body]
pub struct ExJsonValue(serde_json::Value);

/// The mathematical content of a JSON value.
pub enum JsonTree {
    Null,
    Bool(bool),
    /// A number held as an integer.
    Integer(int),
    /// Any other number, identified by the bits of its 64-bit representation.
    Real(int),
    String(Seq<char>),
    Array(Seq<JsonTree>),
    Object(Map<Seq<char>, JsonTree>),
}

/// What a `serde_json::Value` holds.
pub uninterp spec fn json_tree(value: serde_json::Value) -> JsonTree;

/// The document that `serde_json` reads from a byte string, if it reads one.
pub uninterp spec fn json_document(bytes: Seq<u8>) -> Option<JsonTree>;

/// The compact text that `serde_json` writes for a document, if it writes
/// one. The members of an object are written in the order of their keys.
pub uninterp spec fn json_text(tree: JsonTree) -> Option<Seq<char>>;

/// The trees of a sequence of values.
pub open spec fn json_trees(values: Seq<serde_json::Value>) -> Seq<JsonTree> {
    Seq::new(values.len(), |i: int| json_tree(values[i]))
}

/// The keys of a list of members, in order.
pub open spec fn member_keys(members: Seq<(String, serde_json::Value)>) -> Seq<Seq<char>> {
    Seq::new(members.len(), |i: int| members[i].0@)
}

/// Whether no two members share a key.
pub open spec fn distinct_keys(members: Seq<(String, serde_json::Value)>) -> bool {
    forall|i: int, j: int|
        0 <= i < j < members.len() ==> #[trigger] members[i].0@ != #[trigger] members[j].0@
}

/// The object that a list of members denotes: each key bound to the tree of
/// its value.
pub open spec fn members_map(members: Seq<(String, serde_json::Value)>) -> Map<
    Seq<char>,
    JsonTree,
>
    decreases members.len(),
{
    if members.len() == 0 {
        Map::empty()
    } else {
        members_map(members.drop_last()).insert(members.last().0@, json_tree(members.last().1))
    }
}

/// `serde_json::from_slice` at `serde_json::Value`: the document read from
/// the bytes, or `None` where `serde_json` rejects them.
#[verifier::external_body]
pub(crate) fn json_parse(bytes: &[u8]) -> (r: Option<serde_json::Value>)
    ensures
        r is Some <==> json_document(bytes@) is Some,
        r matches Some(value) ==> json_document(bytes@) == Some(json_tree(value)),
{
    serde_json::from_slice::<serde_json::Value>(bytes).ok()
}

/// `serde_json::Value::get` with a string index: the member of an object
/// under `key`; `None` for a key the object lacks and for any other value.
#[verifier::external_body]
pub(crate) fn json_member<'a>(value: &'a serde_json::Value, key: &str) -> (r: Option<
    &'a serde_json::Value,
>)
    ensures
        match json_tree(*value) {
            JsonTree::Object(members) => if members.contains_key(key@) {
                r matches Some(member) && json_tree(*member) == members[key@]
            } else {
                r is None
            },
            _ => r is None,
        },
{
    value.get(key)
}

/// `serde_json::Value::is_object`: whether the value is a JSON object.
#[verifier::external_body]
pub(crate) fn json_is_object(value: &serde_json::Value) -> (r: bool)
    ensures
        r == (json_tree(*value) is Object),
{
    value.is_object()
}

/// `serde_json::Value::is_null`: whether the value is JSON `null`.
#[verifier::external_body]
pub(crate) fn json_is_null(value: &serde_json::Value) -> (r: bool)
    ensures
        r == (json_tree(*value) is Null),
{
    value.is_null()
}

/// `serde_json::Value::as_str`: the text of a string; `None` for any other
/// value.
#[verifier::external_body]
pub(crate) fn json_as_str<'a>(value: &'a serde_json::Value) -> (r: Option<&'a str>)
    ensures
        match json_tree(*value) {
            JsonTree::String(text) => r matches Some(s) && s@ == text,
            _ => r is None,
        },
{
    value.as_str()
}

/// `serde_json::Value::as_i64`: an integer that fits in `i64`; `None` for
/// any other number and any other value.
#[verifier::external_body]
pub(crate) fn json_as_i64(value: &serde_json::Value) -> (r: Option<i64>)
    ensures
        match json_tree(*value) {
            JsonTree::Integer(n) => if i64::MIN <= n <= i64::MAX {
                r == Some(n as i64)
            } else {
                r is None
            },
            _ => r is None,
        },
{
    value.as_i64()
}

/// `serde_json::Value::as_array`: the elements of an array; `None` for any
/// other value.
#[verifier::external_body]
pub(crate) fn json_as_array<'a>(value: &'a serde_json::Value) -> (r: Option<
    &'a Vec<serde_json::Value>,
>)
    ensures
        match json_tree(*value) {
            JsonTree::Array(items) => r matches Some(values) && json_trees(values@) == items,
            _ => r is None,
        },
{
    value.as_array()
}

/// The variant `serde_json::Value::Null`.
#[verifier::external_body]
pub(crate) fn json_null() -> (r: serde_json::Value)
    ensures
        json_tree(r) == JsonTree::Null,
{
    serde_json::Value::Null
}

/// `serde_json::Value::from` at `String`: the JSON string with that text.
#[verifier::external_body]
pub(crate) fn json_string(text: String) -> (r: serde_json::Value)
    ensures
        json_tree(r) == JsonTree::String(text@),
{
    serde_json::Value::from(text)
}

/// `serde_json::Value::from` at `i64`: the JSON number with that value.
#[verifier::external_body]
pub(crate) fn json_integer(n: i64) -> (r: serde_json::Value)
    ensures
        json_tree(r) == JsonTree::Integer(n as int),
{
    serde_json::Value::from(n)
}

/// `serde_json::Map::from_iter`, wrapped in `serde_json::Value::Object`: the
/// object with the given members. The keys must differ from each other.
#[verifier::external_body]
pub(crate) fn json_object(members: Vec<(String, serde_json::Value)>) -> (r: serde_json::Value)
    requires
        distinct_keys(members@),
    ensures
        json_tree(r) == JsonTree::Object(members_map(members@)),
{
    serde_json::Value::Object(serde_json::Map::from_iter(members))
}

/// `serde_json::to_string` at `serde_json::Value`: the compact JSON text of
/// the value, or `None` where `serde_json` reports an error.
#[verifier::external_body]
pub(crate) fn json_render(value: &serde_json::Value) -> (r: Option<String>)
    ensures
        option_text(r) == json_text(json_tree(*value)),
{
    serde_json::to_string(value).ok()
}

/// Appends a member under a key that the list does not hold yet.
pub(crate) fn push_member(
    members: &mut Vec<(String, serde_json::Value)>,
    key: &str,
    value: serde_json::Value,
)
    requires
        !member_keys(old(members)@).contains(key@),
    ensures
        member_keys(final(members)@) == member_keys(old(members)@).push(key@),
        members_map(final(members)@) == members_map(old(members)@).insert(key@, json_tree(value)),
        distinct_keys(old(members)@) ==> distinct_keys(final(members)@),
{
    let owned = String::from_str(key);
    members.push((owned, value));
    proof {
        assert(members@.drop_last() =~= old(members)@);
        assert(member_keys(members@) =~= member_keys(old(members)@).push(key@));
        if distinct_keys(old(members)@) {
            assert forall|i: int, j: int| 0 <= i < j < members@.len() implies #[trigger] members@[i].0@
                != #[trigger] members@[j].0@ by {
                if j < old(members)@.len() {
                    assert(members@[i] == old(members)@[i]);
                    assert(members@[j] == old(members)@[j]);
                } else {
                    assert(member_keys(old(members)@)[i] == old(members)@[i].0@);
                }
            }
        }
    }
}

/// The member of an object under `key`, if the tree is an object that has it.
pub open spec fn tree_member(tree: JsonTree, key: Seq<char>) -> Option<JsonTree> {
    match tree {
        JsonTree::Object(members) => if members.contains_key(key) {
            Some(members[key])
        } else {
            None
        },
        _ => None,
    }
}

/// An optional string field: absent or `null` reads as `None`, a string as
/// its text, anything else is a mismatch (`Err`).
pub open spec fn optional_text_field(tree: JsonTree, key: Seq<char>) -> Result<
    Option<Seq<char>>,
    (),
> {
    match tree_member(tree, key) {
        None => Ok(None),
        Some(JsonTree::Null) => Ok(None),
        Some(JsonTree::String(text)) => Ok(Some(text)),
        Some(_) => Err(()),
    }
}

/// A required string field: its text, or `None` where the field is absent or
/// no string.
pub open spec fn text_field(tree: JsonTree, key: Seq<char>) -> Option<Seq<char>> {
    match tree_member(tree, key) {
        Some(JsonTree::String(text)) => Some(text),
        _ => None,
    }
}

/// An optional integer field within the given bounds: absent or `null` reads
/// as `None`, an integer within bounds as itself, anything else is a
/// mismatch (`Err`).
pub open spec fn optional_integer_field(tree: JsonTree, key: Seq<char>, low: int, high: int)
    -> Result<Option<int>, ()> {
    match tree_member(tree, key) {
        None => Ok(None),
        Some(JsonTree::Null) => Ok(None),
        Some(JsonTree::Integer(n)) => if low <= n <= high {
            Ok(Some(n))
        } else {
            Err(())
        },
        Some(_) => Err(()),
    }
}

/// A required integer field that fits in `i64`.
pub open spec fn integer_field(tree: JsonTree, key: Seq<char>) -> Option<int> {
    match tree_member(tree, key) {
        Some(JsonTree::Integer(n)) => if i64::MIN <= n <= i64::MAX {
            Some(n)
        } else {
            None
        },
        _ => None,
    }
}

/// Reads an optional string field of an object.
pub(crate) fn read_optional_text(value: &serde_json::Value, key: &str) -> (r: Result<
    Option<String>,
    (),
>)
    ensures
        match r {
            Ok(text) => optional_text_field(json_tree(*value), key@) == Ok::<
                Option<Seq<char>>,
                (),
            >(option_text(text)),
            Err(_) => optional_text_field(json_tree(*value), key@) is Err,
        },
{
    match json_member(value, key) {
        None => Ok(None),
        Some(member) => {
            if json_is_null(member) {
                Ok(None)
            } else {
                match json_as_str(member) {
                    Some(text) => Ok(Some(String::from_str(text))),
                    None => Err(()),
                }
            }
        },
    }
}

/// Reads a required string field of an object.
pub(crate) fn read_text(value: &serde_json::Value, key: &str) -> (r: Option<String>)
    ensures
        option_text(r) == text_field(json_tree(*value), key@),
{
    match json_member(value, key) {
        None => None,
        Some(member) => match json_as_str(member) {
            Some(text) => Some(String::from_str(text)),
            None => None,
        },
    }
}

/// Reads an optional `i32` field of an object.
pub(crate) fn read_optional_i32(value: &serde_json::Value, key: &str) -> (r: Result<
    Option<i32>,
    (),
>)
    ensures
        match r {
            Ok(Some(n)) => optional_integer_field(
                json_tree(*value),
                key@,
                i32::MIN as int,
                i32::MAX as int,
            ) == Ok::<Option<int>, ()>(Some(n as int)),
            Ok(None) => optional_integer_field(
                json_tree(*value),
                key@,
                i32::MIN as int,
                i32::MAX as int,
            ) == Ok::<Option<int>, ()>(None),
            Err(_) => optional_integer_field(
                json_tree(*value),
                key@,
                i32::MIN as int,
                i32::MAX as int,
            ) is Err,
        },
{
    match json_member(value, key) {
        None => Ok(None),
        Some(member) => {
            if json_is_null(member) {
                Ok(None)
            } else {
                match json_as_i64(member) {
                    Some(n) => if -2147483648 <= n && n <= 2147483647 {
                        Ok(Some(n as i32))
                    } else {
                        Err(())
                    },
                    None => Err(()),
                }
            }
        },
    }
}

/// Reads a required `i64` field of an object.
pub(crate) fn read_i64(value: &serde_json::Value, key: &str) -> (r: Option<i64>)
    ensures
        match r {
            Some(n) => integer_field(json_tree(*value), key@) == Some(n as int),
            None => integer_field(json_tree(*value), key@) is None,
        },
{
    match json_member(value, key) {
        None => None,
        Some(member) => json_as_i64(member),
    }
}

} // verus!
