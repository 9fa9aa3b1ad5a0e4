//! JSON values as the library reads them, and their decoding from text.

use crate::number::{number_of, JsonNumber};
use crate::text::same_text;
use vstd::prelude::*;

verus! {

/// A JSON value.
pub enum Json {
    Null,
    Bool(bool),
    Number(JsonNumber),
    Text(String),
    Array(Vec<Json>),
    Object(Object),
}

/// A JSON object.
pub struct Object {
    /// The fields, each a key with its value.
    pub entries: Vec<(String, Json)>,
    /// The object in the notation used for diagnostics.
    pub debug: String,
}

/// One value decoded from a line of input.
pub enum Parsed {
    /// A JSON object: an event.
    Event(Object),
    /// A JSON value that is no object.
    Other,
    /// Text that is no JSON.
    Invalid,
}

/// Value of the first entry at or after `from` whose key is `key`.
pub open spec fn lookup_from(entries: Seq<(String, Json)>, key: Seq<char>, from: int) -> Option<
    Json,
>
    decreases entries.len() - from,
{
    if from < 0 || from >= entries.len() {
        None
    } else if entries[from].0@ == key {
        Some(entries[from].1)
    } else {
        lookup_from(entries, key, from + 1)
    }
}

impl Object {
    /// Value of the field `key`.
    pub open spec fn lookup(&self, key: Seq<char>) -> Option<Json> {
        lookup_from(self.entries@, key, 0)
    }

    /// Value of the field `key` where it is a string.
    pub open spec fn text(&self, key: Seq<char>) -> Option<Seq<char>> {
        match self.lookup(key) {
            Some(Json::Text(s)) => Some(s@),
            _ => None,
        }
    }

    /// Value of the field `key` where it is an object.
    pub open spec fn object(&self, key: Seq<char>) -> Option<Object> {
        match self.lookup(key) {
            Some(Json::Object(o)) => Some(o),
            _ => None,
        }
    }

    /// Value of the field `key` where it is a number.
    pub open spec fn number(&self, key: Seq<char>) -> Option<JsonNumber> {
        match self.lookup(key) {
            Some(Json::Number(n)) => Some(n),
            _ => None,
        }
    }

    /// Value of the field `key` where it is a boolean.
    pub open spec fn flag(&self, key: Seq<char>) -> Option<bool> {
        match self.lookup(key) {
            Some(Json::Bool(b)) => Some(b),
            _ => None,
        }
    }

    /// Items of the field `key` where it is an array.
    pub open spec fn items(&self, key: Seq<char>) -> Option<Seq<Json>> {
        match self.lookup(key) {
            Some(Json::Array(a)) => Some(a@),
            _ => None,
        }
    }

    /// Looks up the field `key`.
    pub fn get<'a>(&'a self, key: &str) -> (found: Option<&'a Json>)
        ensures
            match found {
                Some(value) => self.lookup(key@) == Some(*value),
                None => self.lookup(key@) is None,
            },
    {
        let mut i: usize = 0;
        while i < self.entries.len()
            invariant
                i <= self.entries.len(),
                self.lookup(key@) == lookup_from(self.entries@, key@, i as int),
            decreases self.entries.len() - i,
        {
            if same_text(self.entries[i].0.as_str(), key) {
                return Some(&self.entries[i].1);
            }
            i += 1;
        }
        None
    }

    /// Looks up the field `key` and takes it where it is a string.
    pub fn get_text<'a>(&'a self, key: &str) -> (found: Option<&'a String>)
        ensures
            match found {
                Some(s) => self.text(key@) == Some(s@),
                None => self.text(key@) is None,
            },
    {
        match self.get(key) {
            Some(Json::Text(s)) => Some(s),
            _ => None,
        }
    }

    /// Looks up the field `key` and takes it where it is an object.
    pub fn get_object<'a>(&'a self, key: &str) -> (found: Option<&'a Object>)
        ensures
            match found {
                Some(o) => self.object(key@) == Some(*o),
                None => self.object(key@) is None,
            },
    {
        match self.get(key) {
            Some(Json::Object(o)) => Some(o),
            _ => None,
        }
    }

    /// Looks up the field `key` and takes it where it is a number.
    pub fn get_number<'a>(&'a self, key: &str) -> (found: Option<&'a JsonNumber>)
        ensures
            match found {
                Some(n) => self.number(key@) == Some(*n),
                None => self.number(key@) is None,
            },
    {
        match self.get(key) {
            Some(Json::Number(n)) => Some(n),
            _ => None,
        }
    }

    /// Looks up the field `key` and takes it where it is a boolean.
    pub fn get_flag(&self, key: &str) -> (found: Option<bool>)
        ensures
            found == self.flag(key@),
    {
        match self.get(key) {
            Some(Json::Bool(b)) => Some(*b),
            _ => None,
        }
    }

    /// Looks up the field `key` and takes it where it is an array.
    pub fn get_items<'a>(&'a self, key: &str) -> (found: Option<&'a Vec<Json>>)
        ensures
            match found {
                Some(a) => self.items(key@) == Some(a@),
                None => self.items(key@) is None,
            },
    {
        match self.get(key) {
            Some(Json::Array(a)) => Some(a),
            _ => None,
        }
    }
}

/// `serde_json::Value`, a JSON value as the decoder hands it out.
#[verifier::external_type_specification]
#[verifier::external_body]
pub struct ExValue(serde_json::Value);

/// `serde_json::Map`, a JSON object as the decoder hands it out.
#[verifier::external_type_specification]
#[verifier::external_body]
#[verifier::reject_recursive_types(K)]
#[verifier::reject_recursive_types(V)]
pub struct ExMap<K, V>(serde_json::Map<K, V>);

/// The values that `serde_json` decodes from `text`, one after the other,
/// read as a stream of JSON values.
pub uninterp spec fn json_stream(text: Seq<char>) -> Seq<Parsed>;

/// Takes a `serde_json::Value` apart, variant by variant. Nothing is claimed
/// of the result.
#[verifier::external_body]
fn json_of(value: &serde_json::Value) -> Json {
    match value {
        serde_json::Value::Null => Json::Null,
        serde_json::Value::Bool(b) => Json::Bool(*b),
        serde_json::Value::Number(n) => Json::Number(number_of(n)),
        serde_json::Value::String(s) => Json::Text(s.clone()),
        serde_json::Value::Array(a) => Json::Array(a.iter().map(json_of).collect()),
        serde_json::Value::Object(m) => Json::Object(object_of(m)),
    }
}

/// `serde_json::Map::iter`, which hands out the entries in the order of
/// their keys, and the `Debug` notation of the map. Nothing is claimed of the
/// result.
#[verifier::external_body]
fn object_of(map: &serde_json::Map<String, serde_json::Value>) -> Object {
    Object {
        entries: map.iter().map(|(key, value)| (key.clone(), json_of(value))).collect(),
        debug: format!("{:?}", map),
    }
}

/// `serde_json::Deserializer::from_str` and the iterator of `into_iter`, run
/// to its end: it stops at the end of the text or after the first value that
/// does not parse. The result is a function of the text alone, which the
/// contract names.
#[verifier::external_body]
fn read_stream(text: &str) -> (values: Vec<Parsed>)
    ensures
        values@ == json_stream(text@),
{
    let stream = serde_json::Deserializer::from_str(text).into_iter::<serde_json::Value>();
    stream.map(
        |item| match item {
            Ok(serde_json::Value::Object(map)) => Parsed::Event(object_of(&map)),
            Ok(_) => Parsed::Other,
            Err(_) => Parsed::Invalid,
        },
    ).collect()
}

/// Decodes the JSON values that stand in `text` one after the other.
///
/// A line may hold no value, one or several. Text that is no JSON gives
/// `Invalid` and ends the sequence.
pub fn decode(text: &str) -> (values: Vec<Parsed>)
    ensures
        values@ == json_stream(text@),
{
    read_stream(text)
}

} // verus!
