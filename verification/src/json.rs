//! JSON documents, read and written by `serde_json`.
//!
//! A document is a `serde_json::Value`. Verus sees nothing inside one, so this
//! module gives it a mathematical model, `JsonTree`, and states over that model
//! what each `serde_json` function used by the keystore does. Those statements
//! are believed, not proved: everything else in the crate is proved from them.

use serde_json::Value;
use vstd::prelude::*;

verus! {

/// `serde_json::Value`, a JSON document in memory. Nothing inside it is
/// visible here; `json_tree` names what it holds.
#[verifier::external_type_specification]
#[verifier::external_body]
pub struct ExValue(serde_json::Value);

/// `serde_json::Error`, the reason why a text was not read or a document not
/// written. The keystore reports every such error under one of its own.
#[verifier::external_type_specification]
#[verifier::external_body]
pub struct ExJsonError(serde_json::Error);

/// What a JSON number holds in `serde_json`: an integer from zero up, an
/// integer below zero, or a number with a fraction or an exponent.
pub enum JsonNumber {
    Unsigned(u64),
    Negative(i64),
    /// Stands for the number's IEEE 754 bit pattern.
    Fraction(u64),
}

/// The model of a JSON document. The members of an object stand in the order in
/// which the document lists them.
pub enum JsonTree {
    Null,
    Bool(bool),
    Number(JsonNumber),
    Text(Seq<char>),
    List(Seq<JsonTree>),
    Object(Seq<(Seq<char>, JsonTree)>),
}

/// The first member of `members` whose key is `key`.
pub open spec fn first_member(members: Seq<(Seq<char>, JsonTree)>, key: Seq<char>) -> Option<
    JsonTree,
>
    decreases members.len(),
{
    if members.len() == 0 {
        None
    } else if members[0].0 == key {
        Some(members[0].1)
    } else {
        first_member(members.drop_first(), key)
    }
}

/// The member of an object under `key`; `None` where `tree` is no object or has
/// no such member.
pub open spec fn member_of(tree: JsonTree, key: Seq<char>) -> Option<JsonTree> {
    match tree {
        JsonTree::Object(members) => first_member(members, key),
        _ => None,
    }
}

/// No two members have the same key.
pub open spec fn distinct_keys(members: Seq<(Seq<char>, JsonTree)>) -> bool {
    forall|i: int, j: int| 0 <= i < j < members.len() ==> members[i].0 != members[j].0
}

/// The document that a `serde_json::Value` holds.
pub uninterp spec fn json_tree(value: Value) -> JsonTree;

/// The document that `serde_json` reads from `text`, `None` where it rejects the
/// text.
pub uninterp spec fn parsed(text: Seq<u8>) -> Option<JsonTree>;

/// The text that `serde_json` writes for a document in its indented layout,
/// `None` where it fails.
pub uninterp spec fn printed(tree: JsonTree) -> Option<Seq<u8>>;

/// The documents that a list of values holds, one by one.
pub open spec fn json_trees(values: Seq<Value>) -> Seq<JsonTree> {
    values.map_values(|value: Value| json_tree(value))
}

/// The members that a list of keyed values holds, one by one.
pub open spec fn json_members(members: Seq<(String, Value)>) -> Seq<(Seq<char>, JsonTree)> {
    members.map_values(|member: (String, Value)| (member.0@, json_tree(member.1)))
}

/// `serde_json::from_slice` at `Value`: reads one JSON document that fills the
/// whole text. What it reads depends on the text alone.
#[verifier::external_body]
pub(crate) fn parse(text: &[u8]) -> (read: Result<Value, serde_json::Error>)
    ensures
        match read {
            Ok(value) => parsed(text@) == Some(json_tree(value)),
            Err(_) => parsed(text@) is None,
        },
{
    serde_json::from_slice::<Value>(text)
}

/// `serde_json::to_vec_pretty` at `Value`: writes the document with one member
/// or item per line. What it writes depends on the document alone.
#[verifier::external_body]
pub(crate) fn print(value: &Value) -> (written: Result<Vec<u8>, serde_json::Error>)
    ensures
        match written {
            Ok(text) => printed(json_tree(*value)) == Some(text@),
            Err(_) => printed(json_tree(*value)) is None,
        },
{
    serde_json::to_vec_pretty(value)
}

/// `Value::get` with a string index: the member of an object under `key`, `None`
/// for a value that is no object or has no such member.
#[verifier::external_body]
pub(crate) fn member<'a>(value: &'a Value, key: &str) -> (found: Option<&'a Value>)
    ensures
        match found {
            Some(inner) => member_of(json_tree(*value), key@) == Some(json_tree(*inner)),
            None => member_of(json_tree(*value), key@) is None,
        },
{
    value.get(key)
}

/// `Value::as_str`: the text of a JSON string, `None` for any other value.
#[verifier::external_body]
pub(crate) fn as_text<'a>(value: &'a Value) -> (text: Option<&'a str>)
    ensures
        match text {
            Some(chars) => json_tree(*value) == JsonTree::Text(chars@),
            None => !(json_tree(*value) is Text),
        },
{
    value.as_str()
}

/// `Value::as_array`: the items of a JSON array, `None` for any other value.
#[verifier::external_body]
pub(crate) fn as_list<'a>(value: &'a Value) -> (list: Option<&'a Vec<Value>>)
    ensures
        match list {
            Some(items) => json_tree(*value) == JsonTree::List(json_trees(items@)),
            None => !(json_tree(*value) is List),
        },
{
    value.as_array()
}

/// `Value::as_u64`: the integer of a JSON number that is an integer from zero
/// up, `None` for any other number and any other value.
#[verifier::external_body]
pub(crate) fn as_unsigned(value: &Value) -> (number: Option<u64>)
    ensures
        match number {
            Some(n) => json_tree(*value) == JsonTree::Number(JsonNumber::Unsigned(n)),
            None => !(json_tree(*value) matches JsonTree::Number(JsonNumber::Unsigned(_))),
        },
{
    value.as_u64()
}

/// `Value::from` at `String`: the JSON string with that text.
#[verifier::external_body]
pub(crate) fn text_value(text: String) -> (value: Value)
    ensures
        json_tree(value) == JsonTree::Text(text@),
{
    Value::from(text)
}

/// `Value::from` at `u64`: the JSON number that is that integer.
#[verifier::external_body]
pub(crate) fn unsigned_value(number: u64) -> (value: Value)
    ensures
        json_tree(value) == JsonTree::Number(JsonNumber::Unsigned(number)),
{
    Value::from(number)
}

/// `Value::from` at `Vec<Value>`: the JSON array of those items, in their order.
#[verifier::external_body]
pub(crate) fn list_value(items: Vec<Value>) -> (value: Value)
    ensures
        json_tree(value) == JsonTree::List(json_trees(items@)),
{
    Value::from(items)
}

/// `serde_json::Map::from_iter`, then `Value::from` at the map: the JSON object
/// with those members. The map keeps members in the order of insertion, which
/// for distinct keys is the order given.
#[verifier::external_body]
pub(crate) fn object_value(members: Vec<(String, Value)>) -> (value: Value)
    requires
        distinct_keys(json_members(members@)),
    ensures
        json_tree(value) == JsonTree::Object(json_members(members@)),
{
    Value::from(members.into_iter().collect::<serde_json::Map<String, Value>>())
}

} // verus!
