//! JSON documents as plain data.

use crate::dictionary::{lemma_pairs_map_miss, pairs_map};
use crate::text::str_eq;
use vstd::prelude::*;

verus! {

/// `serde_json::Value`: the parser's own form of a JSON value. Nothing is
/// known of what is inside; it is only handed on to be rewritten.
#[verifier::external_type_specification]
#[verifier::external_body]
pub struct ExJsonValue(serde_json::Value);

/// A JSON value. A number is kept as the text that stands for it, the
/// members of an object as a list of names and values.
#[derive(Debug)]
pub enum JsonValue {
    Null,
    Bool(bool),
    Number(String),
    String(String),
    Array(Vec<JsonValue>),
    Object(Vec<(String, JsonValue)>),
}

/// Why a text is no JSON document.
#[derive(Debug)]
pub struct JsonError {
    pub message: String,
}

/// The members of a JSON object, each name taken by its view. A value that
/// is no object has none.
pub open spec fn members_of(value: JsonValue) -> Seq<(Seq<char>, JsonValue)> {
    match value {
        JsonValue::Object(members) => members@.map_values(|m: (String, JsonValue)| (m.0@, m.1)),
        _ => Seq::empty(),
    }
}

/// The member of a JSON object that goes by the name `key`. Where a name
/// occurs more than once, the last member counts.
pub open spec fn member_of(value: JsonValue, key: Seq<char>) -> Option<JsonValue> {
    if pairs_map(members_of(value)).contains_key(key) {
        Some(pairs_map(members_of(value))[key])
    } else {
        None
    }
}

/// The text of a JSON string; other values have none.
pub open spec fn text_of(value: JsonValue) -> Option<Seq<char>> {
    match value {
        JsonValue::String(text) => Some(text@),
        _ => None,
    }
}

/// The text of the string member `key` of a JSON object: present exactly
/// when the value is an object, has a member of that name, and the member
/// is a string.
pub open spec fn string_member_of(value: JsonValue, key: Seq<char>) -> Option<Seq<char>> {
    match member_of(value, key) {
        Some(member) => text_of(member),
        None => None,
    }
}

/// The last pair with a given key decides what the map holds under it.
proof fn lemma_last_pair_wins<T>(pairs: Seq<(Seq<char>, T)>, i: int)
    requires
        0 <= i < pairs.len(),
        forall|j: int| i < j < pairs.len() ==> (#[trigger] pairs[j]).0 != pairs[i].0,
    ensures
        pairs_map(pairs).contains_key(pairs[i].0),
        pairs_map(pairs)[pairs[i].0] == pairs[i].1,
    decreases pairs.len(),
{
    if i < pairs.len() - 1 {
        let front = pairs.drop_last();
        assert(front[i] == pairs[i]);
        assert forall|j: int| i < j < front.len() implies (#[trigger] front[j]).0
            != front[i].0 by {
            assert(front[j] == pairs[j]);
        }
        lemma_last_pair_wins(front, i);
        assert(pairs[pairs.len() - 1].0 != pairs[i].0);
    }
}

impl JsonValue {
    /// The member `key` of this object, if this is an object that has one.
    pub fn member(&self, key: &str) -> (found: Option<&JsonValue>)
        ensures
            match found {
                Some(member) => member_of(*self, key@) == Some(*member),
                None => member_of(*self, key@) is None,
            },
    {
        match self {
            JsonValue::Object(members) => {
                let ghost pairs = members_of(*self);
                let mut i: usize = members.len();
                while i > 0
                    invariant
                        i <= members@.len(),
                        pairs == members_of(*self),
                        pairs == members@.map_values(|m: (String, JsonValue)| (m.0@, m.1)),
                        forall|j: int| i <= j < pairs.len() ==> (#[trigger] pairs[j]).0 != key@,
                    decreases i,
                {
                    i -= 1;
                    assert(pairs[i as int] == (members@[i as int].0@, members@[i as int].1));
                    if str_eq(members[i].0.as_str(), key) {
                        proof {
                            lemma_last_pair_wins(pairs, i as int);
                        }
                        return Some(&members[i].1);
                    }
                }
                proof {
                    lemma_pairs_map_miss(pairs, key@);
                }
                None
            },
            _ => None,
        }
    }

    /// The text of this value, if it is a string.
    pub fn as_str(&self) -> (text: Option<&String>)
        ensures
            match text {
                Some(s) => text_of(*self) == Some(s@),
                None => text_of(*self) is None,
            },
    {
        match self {
            JsonValue::String(s) => Some(s),
            _ => None,
        }
    }

    /// The text of the string member `key` of this object.
    pub fn string_member(&self, key: &str) -> (text: Option<String>)
        ensures
            match text {
                Some(s) => string_member_of(*self, key@) == Some(s@),
                None => string_member_of(*self, key@) is None,
            },
    {
        match self.member(key) {
            Some(member) => match member.as_str() {
                Some(s) => Some(s.clone()),
                None => None,
            },
            None => None,
        }
    }
}

/// What `serde_json::from_slice` makes of a text: the JSON value that the
/// text holds, or the parser's complaint.
pub uninterp spec fn json_document(data: Seq<u8>) -> Result<JsonValue, JsonError>;

/// Rewrites a `serde_json::Value` as a `JsonValue`, variant by variant. A
/// number becomes the text that `serde_json` prints for it; the members of
/// an object come in the order in which `serde_json` walks them.
#[verifier::external_body]
fn json_from(value: serde_json::Value) -> JsonValue {
    match value {
        serde_json::Value::Null => JsonValue::Null,
        serde_json::Value::Bool(b) => JsonValue::Bool(b),
        serde_json::Value::Number(n) => JsonValue::Number(n.to_string()),
        serde_json::Value::String(s) => JsonValue::String(s),
        serde_json::Value::Array(a) => JsonValue::Array(a.into_iter().map(json_from).collect()),
        serde_json::Value::Object(o) => JsonValue::Object(
            o.into_iter().map(|(k, v)| (k, json_from(v))).collect(),
        ),
    }
}

/// Reads `data` with `serde_json::from_slice`. What the parser makes of a
/// text depends on the text alone; `json_document` names it.
#[verifier::external_body]
pub(crate) fn parse_document(data: &[u8]) -> (parsed: Result<JsonValue, JsonError>)
    ensures
        parsed == json_document(data@),
{
    match serde_json::from_slice::<serde_json::Value>(data) {
        Ok(value) => Ok(json_from(value)),
        Err(e) => Err(JsonError { message: e.to_string() }),
    }
}

} // verus!
