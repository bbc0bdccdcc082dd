//! The queue item: one received message as the dispatcher sees it.

use crate::dictionary::StringMap;
use crate::json::{json_document, parse_document, string_member_of, JsonError, JsonValue};
use vstd::prelude::*;

verus! {

/// A message taken from the queue.
#[derive(Debug)]
pub struct Item {
    /// The identifier that the queue gave the message.
    pub id: String,
    /// The payload; any bytes.
    pub data: Vec<u8>,
    /// The message's attributes, and its receipt handle under
    /// `receipt_handle`.
    pub metadata: StringMap,
}

/// The text of the string member `key` of the JSON object that `data`
/// holds: present exactly when `data` is a JSON document, the document is an
/// object, the object has a member `key`, and that member is a string.
pub open spec fn data_string(data: Seq<u8>, key: Seq<char>) -> Option<Seq<char>> {
    match json_document(data) {
        Ok(document) => string_member_of(document, key),
        Err(_) => None,
    }
}

impl Item {
    /// Reads the payload as a JSON document.
    pub fn parse_data_as_json(&self) -> (parsed: Result<JsonValue, JsonError>)
        ensures
            parsed == json_document(self.data@),
    {
        parse_document(self.data.as_slice())
    }

    /// Takes the payload for a JSON object and returns the text of its
    /// member `key`, if that member is a string. A payload that is no JSON
    /// document yields nothing.
    pub fn get_string_from_data_json_object(&self, key: &str) -> (text: Option<String>)
        ensures
            match text {
                Some(s) => data_string(self.data@, key@) == Some(s@),
                None => data_string(self.data@, key@) is None,
            },
    {
        match self.parse_data_as_json() {
            Ok(document) => document.string_member(key),
            Err(_) => None,
        }
    }
}

impl Clone for Item {
    fn clone(&self) -> (copy: Self)
        ensures
            copy.id@ == self.id@,
            copy.data@ == self.data@,
            copy.metadata@ == self.metadata@,
    {
        Item { id: self.id.clone(), data: self.data.clone(), metadata: self.metadata.clone() }
    }
}

} // verus!
