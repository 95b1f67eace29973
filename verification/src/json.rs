//! JSON documents as the library reads them, and the parser that yields them.

use vstd::prelude::*;
use zed_extension_api::serde_json::Value;
use crate::text::{chars_eq, chars_of};

verus! {

/// A JSON value. An object holds its members in the order of the parsed
/// value; a member is found by its key, the first entry winning.
#[derive(Debug, PartialEq, Eq)]
pub enum Json {
    Null,
    Bool(bool),
    /// A number, as its decimal text.
    Number(String),
    Text(String),
    Array(Vec<Json>),
    Object(Vec<(String, Json)>),
}

/// The value of the first entry of `entries` whose key is `key`.
pub open spec fn first_with_key(entries: Seq<(String, Json)>, key: Seq<char>) -> Option<Json>
    decreases entries.len(),
{
    if entries.len() == 0 {
        None
    } else if entries[0].0@ == key {
        Some(entries[0].1)
    } else {
        first_with_key(entries.drop_first(), key)
    }
}

impl Json {
    /// The member `key` of an object; `None` for a missing member and for
    /// every value that is no object.
    pub open spec fn member(self, key: Seq<char>) -> Option<Json> {
        match self {
            Json::Object(entries) => first_with_key(entries@, key),
            _ => None,
        }
    }

    /// The text of a string value; `None` for every other value.
    pub open spec fn text(self) -> Option<Seq<char>> {
        match self {
            Json::Text(s) => Some(s@),
            _ => None,
        }
    }

    /// The truth value of a boolean; `None` for every other value.
    pub open spec fn flag(self) -> Option<bool> {
        match self {
            Json::Bool(b) => Some(b),
            _ => None,
        }
    }

    /// The member `key` of an object.
    pub fn get(&self, key: &str) -> (found: Option<&Json>)
        ensures
            match found {
                Some(value) => self.member(key@) == Some(*value),
                None => self.member(key@) is None,
            },
    {
        match self {
            Json::Object(entries) => {
                let wanted = chars_of(key);
                let mut i: usize = 0;
                assert(entries@.skip(0) == entries@);
                while i < entries.len()
                    invariant
                        i <= entries.len(),
                        wanted@ == key@,
                        self.member(key@) == first_with_key(entries@, key@),
                        first_with_key(entries@, key@) == first_with_key(
                            entries@.skip(i as int),
                            key@,
                        ),
                    decreases entries.len() - i,
                {
                    let name = chars_of(entries[i].0.as_str());
                    assert(entries@.skip(i as int)[0] == entries@[i as int]);
                    if chars_eq(&name, &wanted) {
                        return Some(&entries[i].1);
                    }
                    assert(entries@.skip(i as int).drop_first() == entries@.skip(i + 1));
                    i = i + 1;
                }
                None
            },
            _ => None,
        }
    }

    /// The text of a string value.
    pub fn as_str(&self) -> (text: Option<&str>)
        ensures
            match text {
                Some(s) => self.text() == Some(s@),
                None => self.text() is None,
            },
    {
        match self {
            Json::Text(s) => Some(s.as_str()),
            _ => None,
        }
    }

    /// The truth value of a boolean.
    pub fn as_bool(&self) -> (flag: Option<bool>)
        ensures
            flag == self.flag(),
    {
        match self {
            Json::Bool(b) => Some(*b),
            _ => None,
        }
    }

    /// The value itself if it is an object.
    pub fn as_object(&self) -> (object: Option<&Json>)
        ensures
            match object {
                Some(value) => self is Object && *value == *self,
                None => !(self is Object),
            },
    {
        match self {
            Json::Object(_) => Some(self),
            _ => None,
        }
    }

    /// Parses a JSON text: the document it denotes, or why it denotes none.
    pub fn parse(bytes: &[u8]) -> (parsed: Result<Json, String>)
        ensures
            match parsed {
                Ok(doc) => parsed_json(bytes@) == Ok::<Json, Seq<char>>(doc),
                Err(detail) => parsed_json(bytes@) == Err::<Json, Seq<char>>(detail@),
            },
    {
        match from_slice(bytes) {
            Ok(value) => Ok(json_of(&value)),
            Err(detail) => Err(detail),
        }
    }
}

/// Declares `serde_json::Value`, of which nothing but its name is known here.
#[verifier::external_type_specification]
#[verifier::external_body]
pub struct ExValue(Value);

/// What `serde_json::from_slice` makes of a text: the document, or the
/// text of the parser's error.
pub uninterp spec fn parsed_json(bytes: Seq<u8>) -> Result<Json, Seq<char>>;

/// The document that a value of `serde_json` holds.
pub uninterp spec fn json_tree(value: Value) -> Json;

/// Trusted: `serde_json::from_slice` at type `Value`. It reads the whole
/// text and returns the value it denotes, or an error whose `Display` text
/// is handed on. The outcome depends on the bytes alone; the contract gives
/// it its name and claims nothing else of it.
#[verifier::external_body]
fn from_slice(bytes: &[u8]) -> (parsed: Result<Value, String>)
    ensures
        match parsed {
            Ok(value) => parsed_json(bytes@) == Ok::<Json, Seq<char>>(json_tree(value)),
            Err(detail) => parsed_json(bytes@) == Err::<Json, Seq<char>>(detail@),
        },
{
    zed_extension_api::serde_json::from_slice::<Value>(bytes).map_err(|error| error.to_string())
}

/// Trusted: carries a `serde_json::Value` over into [`Json`], variant by
/// variant: a number as its `Display` text, the members of an object in the
/// order in which its map yields them.
#[verifier::external_body]
fn json_of(value: &Value) -> (doc: Json)
    ensures
        doc == json_tree(*value),
{
    match value {
        Value::Null => Json::Null,
        Value::Bool(flag) => Json::Bool(*flag),
        Value::Number(number) => Json::Number(number.to_string()),
        Value::String(text) => Json::Text(text.clone()),
        Value::Array(items) => Json::Array(items.iter().map(json_of).collect()),
        Value::Object(map) => Json::Object(
            map.iter().map(|(key, member)| (key.clone(), json_of(member))).collect(),
        ),
    }
}

} // verus!
