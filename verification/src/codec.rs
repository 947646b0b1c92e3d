//! The file format of a credential: a JSON object with the member `name`, a
//! string, and the member `keypair`, an array of 64 integers from 0 to 255.
//! Members with other keys are ignored when a file is read.

use crate::json::{
    as_list, as_text, as_unsigned, json_members, json_tree, json_trees, list_value, member,
    member_of, object_value, parse, parsed, print, printed, text_value, unsigned_value,
    JsonNumber, JsonTree,
};
use crate::record::{Keystore, KeystoreError, KeystoreView, KEYPAIR_LENGTH};
use serde_json::Value;
use vstd::prelude::*;
use vstd::string::StringExecFns;

verus! {

/// The key of the member that holds the credential's name.
pub open spec fn name_key() -> Seq<char> {
    "name"@
}

/// The key of the member that holds the keypair.
pub open spec fn keypair_key() -> Seq<char> {
    "keypair"@
}

/// The JSON number that stands for one byte.
pub open spec fn byte_tree(byte: u8) -> JsonTree {
    JsonTree::Number(JsonNumber::Unsigned(byte as u64))
}

/// The item is a JSON integer from 0 to 255.
pub open spec fn is_byte_tree(item: JsonTree) -> bool {
    item matches JsonTree::Number(JsonNumber::Unsigned(n)) && n <= 255
}

/// The byte that an item stands for.
pub open spec fn byte_of(item: JsonTree) -> u8
    recommends
        is_byte_tree(item),
{
    match item {
        JsonTree::Number(JsonNumber::Unsigned(n)) => n as u8,
        _ => 0,
    }
}

/// The bytes that a JSON array stands for: `None` unless every item is an
/// integer from 0 to 255.
pub open spec fn bytes_of(items: Seq<JsonTree>) -> Option<Seq<u8>> {
    if forall|i: int| 0 <= i < items.len() ==> is_byte_tree(#[trigger] items[i]) {
        Some(items.map_values(|item: JsonTree| byte_of(item)))
    } else {
        None
    }
}

/// The document that stores a record: the name first, then the keypair, one
/// number for each byte.
pub open spec fn tree_of(record: KeystoreView) -> JsonTree {
    JsonTree::Object(
        seq![
            (name_key(), JsonTree::Text(record.name)),
            (keypair_key(), JsonTree::List(record.keypair.map_values(|byte: u8| byte_tree(byte)))),
        ],
    )
}

/// The record that a document stores: `None` unless the document is an object
/// whose `name` is a string and whose `keypair` is an array of exactly
/// `KEYPAIR_LENGTH` integers from 0 to 255.
pub open spec fn record_of(tree: JsonTree) -> Option<KeystoreView> {
    match (member_of(tree, name_key()), member_of(tree, keypair_key())) {
        (Some(JsonTree::Text(name)), Some(JsonTree::List(items))) => match bytes_of(items) {
            Some(keypair) => if keypair.len() == KEYPAIR_LENGTH {
                Some(KeystoreView { name, keypair })
            } else {
                None
            },
            None => None,
        },
        _ => None,
    }
}

/// The record that the text of a file stores: `None` where the text is no JSON
/// document or the document is no record.
pub open spec fn decoded(text: Seq<u8>) -> Option<KeystoreView> {
    match parsed(text) {
        Some(tree) => record_of(tree),
        None => None,
    }
}

/// The text of the file that stores a record, `None` where it cannot be
/// written.
pub open spec fn encoded(record: KeystoreView) -> Option<Seq<u8>> {
    printed(tree_of(record))
}

/// The two keys of the format differ.
pub proof fn lemma_keys_differ()
    ensures
        name_key() != keypair_key(),
        name_key().len() == 4,
        keypair_key().len() == 7,
{
    reveal_strlit("name");
    reveal_strlit("keypair");
    assert("name"@.len() == 4);
    assert("keypair"@.len() == 7);
}

/// A document written for a record stores that record: reading the document
/// gives back the name and every byte of the keypair.
pub proof fn lemma_document_stores_its_record(record: KeystoreView)
    requires
        record.well_formed(),
    ensures
        record_of(tree_of(record)) == Some(record),
{
    lemma_keys_differ();
    let items = record.keypair.map_values(|byte: u8| byte_tree(byte));
    let members = seq![
        (name_key(), JsonTree::Text(record.name)),
        (keypair_key(), JsonTree::List(items)),
    ];
    assert(members.drop_first() =~= seq![(keypair_key(), JsonTree::List(items))]);
    reveal_with_fuel(crate::json::first_member, 3);
    assert(member_of(tree_of(record), name_key()) == Some(JsonTree::Text(record.name)));
    assert(member_of(tree_of(record), keypair_key()) == Some(JsonTree::List(items)));
    assert forall|i: int| 0 <= i < items.len() implies is_byte_tree(#[trigger] items[i]) by {}
    assert(items.map_values(|item: JsonTree| byte_of(item)) =~= record.keypair);
}

/// A document whose keypair has any length but `KEYPAIR_LENGTH` stores no
/// record, whatever else it holds.
pub proof fn lemma_wrong_length_is_no_record(tree: JsonTree)
    requires
        member_of(tree, keypair_key()) matches Some(JsonTree::List(items)) && items.len()
            != KEYPAIR_LENGTH,
    ensures
        record_of(tree) is None,
{
}

/// Writing a record and reading the text again gives the record, provided
/// that `serde_json` reads from the text it wrote the document it was given.
pub proof fn lemma_text_stores_its_record(record: KeystoreView, text: Seq<u8>)
    requires
        record.well_formed(),
        encoded(record) == Some(text),
        parsed(text) == Some(tree_of(record)),
    ensures
        decoded(text) == Some(record),
{
    lemma_document_stores_its_record(record);
}

/// Reads the bytes of a keypair from the items of a JSON array. Fails unless
/// every item is an integer from 0 to 255.
fn decode_bytes(items: &Vec<Value>) -> (bytes: Option<Vec<u8>>)
    ensures
        match bytes {
            Some(found) => bytes_of(json_trees(items@)) == Some(found@),
            None => bytes_of(json_trees(items@)) is None,
        },
{
    let ghost trees = json_trees(items@);
    let mut bytes: Vec<u8> = Vec::new();
    let mut i: usize = 0;
    while i < items.len()
        invariant
            i <= items.len(),
            trees == json_trees(items@),
            bytes@.len() == i,
            forall|j: int| 0 <= j < i ==> is_byte_tree(#[trigger] trees[j]),
            forall|j: int| 0 <= j < i ==> bytes@[j] == byte_of(trees[j]),
        decreases items.len() - i,
    {
        match as_unsigned(&items[i]) {
            Some(n) => {
                if n > 255 {
                    assert(!is_byte_tree(trees[i as int]));
                    return None;
                }
                bytes.push(n as u8);
            },
            None => {
                assert(!is_byte_tree(trees[i as int]));
                return None;
            },
        }
        i += 1;
    }
    assert(bytes@ =~= trees.map_values(|item: JsonTree| byte_of(item)));
    Some(bytes)
}

impl Keystore {
    /// Reads a record from a JSON document. Succeeds exactly when the document
    /// stores a record; every other document is a `Deserialization` error.
    pub fn decode_value(document: &Value) -> (read: Result<Keystore, KeystoreError>)
        ensures
            match read {
                Ok(record) => record_of(json_tree(*document)) == Some(record@),
                Err(error) => record_of(json_tree(*document)) is None && error
                    == KeystoreError::Deserialization,
            },
    {
        let name = match member(document, "name") {
            Some(value) => match as_text(value) {
                Some(text) => text,
                None => { return Err(KeystoreError::Deserialization); },
            },
            None => { return Err(KeystoreError::Deserialization); },
        };
        let items = match member(document, "keypair") {
            Some(value) => match as_list(value) {
                Some(list) => list,
                None => { return Err(KeystoreError::Deserialization); },
            },
            None => { return Err(KeystoreError::Deserialization); },
        };
        match decode_bytes(items) {
            Some(bytes) => Keystore::from_parts(String::from_str(name), bytes),
            None => Err(KeystoreError::Deserialization),
        }
    }

    /// Reads a record from the text of a credential file. Succeeds exactly when
    /// the text is a JSON document that stores a record; a keypair of any
    /// length but `KEYPAIR_LENGTH` is a `Deserialization` error, never a
    /// record.
    pub fn decode(text: &[u8]) -> (read: Result<Keystore, KeystoreError>)
        ensures
            match read {
                Ok(record) => decoded(text@) == Some(record@),
                Err(error) => decoded(text@) is None && error == KeystoreError::Deserialization,
            },
    {
        match parse(text) {
            Ok(document) => Keystore::decode_value(&document),
            Err(_) => Err(KeystoreError::Deserialization),
        }
    }

    /// The JSON document that stores this record.
    pub fn encode_value(&self) -> (document: Value)
        ensures
            json_tree(document) == tree_of(self@),
    {
        let mut items: Vec<Value> = Vec::new();
        let mut i: usize = 0;
        while i < KEYPAIR_LENGTH
            invariant
                i <= KEYPAIR_LENGTH,
                items@.len() == i,
                forall|j: int| 0 <= j < i ==> json_tree(#[trigger] items@[j]) == byte_tree(self.keypair@[j]),
            decreases KEYPAIR_LENGTH - i,
        {
            items.push(unsigned_value(self.keypair[i] as u64));
            i += 1;
        }
        assert(json_trees(items@) =~= self.keypair@.map_values(|byte: u8| byte_tree(byte)));
        let mut members: Vec<(String, Value)> = Vec::new();
        members.push((String::from_str("name"), text_value(self.name.clone())));
        members.push((String::from_str("keypair"), list_value(items)));
        proof {
            lemma_keys_differ();
            assert(json_members(members@) =~= seq![
                (name_key(), JsonTree::Text(self.name@)),
                (keypair_key(), JsonTree::List(json_trees(items@))),
            ]);
        }
        object_value(members)
    }

    /// The text of the file that stores this record. Fails with `Io` exactly
    /// when the document cannot be written out.
    pub fn encode(&self) -> (written: Result<Vec<u8>, KeystoreError>)
        ensures
            match written {
                Ok(text) => encoded(self@) == Some(text@),
                Err(error) => encoded(self@) is None && error == KeystoreError::Io,
            },
    {
        let document = self.encode_value();
        match print(&document) {
            Ok(text) => Ok(text),
            Err(_) => Err(KeystoreError::Io),
        }
    }
}

} // verus!
