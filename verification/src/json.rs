//! A plain model of JSON values, as read from VS Code's state files.
//!
//! Objects keep their members in order; a lookup finds the first member with
//! the key (parsed JSON objects have unique keys).

use vstd::prelude::*;

use crate::text::{chars_eq, chars_of};

verus! {

/// A JSON value.
pub enum JsonValue {
    Null,
    Bool(bool),
    Number(String),
    Str(String),
    Array(Vec<JsonValue>),
    Object(Vec<(String, JsonValue)>),
}

/// The first member of `members` named `key`.
pub open spec fn member(members: Seq<(String, JsonValue)>, key: Seq<char>) -> Option<JsonValue>
    decreases members.len(),
{
    if members.len() == 0 {
        None
    } else if members[0].0@ == key {
        Some(members[0].1)
    } else {
        member(members.drop_first(), key)
    }
}

/// The member `key` of an object; `None` for other values.
pub open spec fn spec_get(value: JsonValue, key: Seq<char>) -> Option<JsonValue> {
    match value {
        JsonValue::Object(members) => member(members@, key),
        _ => None,
    }
}

/// The text of a string value.
pub open spec fn spec_as_str(value: JsonValue) -> Option<Seq<char>> {
    match value {
        JsonValue::Str(s) => Some(s@),
        _ => None,
    }
}

/// The text of the string member `key` of an object.
pub open spec fn spec_get_str(value: JsonValue, key: Seq<char>) -> Option<Seq<char>> {
    match spec_get(value, key) {
        Some(v) => spec_as_str(v),
        None => None,
    }
}

impl JsonValue {
    /// The member `key`, when this is an object that has one.
    pub fn get(&self, key: &str) -> (r: Option<&JsonValue>)
        ensures
            match r {
                Some(v) => spec_get(*self, key@) == Some(*v),
                None => spec_get(*self, key@) is None,
            },
    {
        match self {
            JsonValue::Object(members) => {
                let k = chars_of(key);
                let mut i: usize = 0;
                assert(members@.subrange(0, members@.len() as int) =~= members@);
                while i < members.len()
                    invariant
                        i <= members@.len(),
                        k@ == key@,
                        spec_get(*self, key@) == member(members@, key@),
                        member(members@, key@) == member(members@.subrange(i as int, members@.len() as int), key@),
                    decreases members.len() - i,
                {
                    let ghost rest = members@.subrange(i as int, members@.len() as int);
                    assert(rest[0] == members@[i as int]);
                    assert(rest.drop_first() =~= members@.subrange(i + 1, members@.len() as int));
                    let name = chars_of(members[i].0.as_str());
                    if chars_eq(&name, &k) {
                        assert(rest[0].0@ == key@);
                        assert(member(rest, key@) == Some(rest[0].1));
                        let found = &members[i].1;
                        assert(*found == members@[i as int].1);
                        assert(spec_get(*self, key@) == member(members@, key@));
                        return Some(found);
                    }
                    i = i + 1;
                }
                None
            },
            _ => None,
        }
    }

    /// The text, when this is a string.
    pub fn as_str(&self) -> (r: Option<&str>)
        ensures
            match r {
                Some(s) => spec_as_str(*self) == Some(s@),
                None => spec_as_str(*self) is None,
            },
    {
        match self {
            JsonValue::Str(s) => Some(s.as_str()),
            _ => None,
        }
    }

    /// The text of the string member `key`.
    pub fn get_str(&self, key: &str) -> (r: Option<&str>)
        ensures
            match r {
                Some(s) => spec_get_str(*self, key@) == Some(s@),
                None => spec_get_str(*self, key@) is None,
            },
    {
        match self.get(key) {
            Some(v) => v.as_str(),
            None => None,
        }
    }

    /// The items, when this is an array.
    pub fn as_array(&self) -> (r: Option<&Vec<JsonValue>>)
        ensures
            match r {
                Some(items) => *self == JsonValue::Array(*items),
                None => !(*self is Array),
            },
    {
        match self {
            JsonValue::Array(items) => Some(items),
            _ => None,
        }
    }

    /// Whether this is an object.
    pub fn is_object(&self) -> (r: bool)
        ensures
            r == (*self is Object),
    {
        match self {
            JsonValue::Object(_) => true,
            _ => false,
        }
    }
}

// ---------------------------------------------------------------------------
// JSON text
// ---------------------------------------------------------------------------

#[verifier::external_type_specification]
#[verifier::external_body]
pub struct ExSerdeJsonValue(serde_json::Value);

/// The value that `serde_json::from_str` reads from `text` as a
/// `serde_json::Value`, in this library's model; `None` when `text` is not
/// JSON.
pub uninterp spec fn spec_json_text(text: Seq<char>) -> Option<JsonValue>;

/// Converts a `serde_json::Value` into the library's model, variant for
/// variant: numbers by their JSON text, object members in the order the
/// value keeps them.
#[verifier::external_body]
fn json_of(value: serde_json::Value) -> JsonValue {
    match value {
        serde_json::Value::Null => JsonValue::Null,
        serde_json::Value::Bool(b) => JsonValue::Bool(b),
        serde_json::Value::Number(n) => JsonValue::Number(n.to_string()),
        serde_json::Value::String(s) => JsonValue::Str(s),
        serde_json::Value::Array(items) => JsonValue::Array(items.into_iter().map(json_of).collect()),
        serde_json::Value::Object(members) => JsonValue::Object(
            members.into_iter().map(|(key, value)| (key, json_of(value))).collect(),
        ),
    }
}

/// Calls `serde_json::from_str::<serde_json::Value>` on `text`: `Ok` with the
/// value read, exactly when `text` is JSON; otherwise serde_json's error
/// message, of which nothing is stated.
#[verifier::external_body]
pub(crate) fn parse_json(text: &str) -> (r: Result<JsonValue, String>)
    ensures
        match r {
            Ok(v) => spec_json_text(text@) == Some(v),
            Err(_) => spec_json_text(text@) is None,
        },
{
    serde_json::from_str::<serde_json::Value>(text).map(json_of).map_err(|e| e.to_string())
}

/// The value that `serde_json::from_slice` reads from the bytes `bytes` as a
/// `serde_json::Value`, in this library's model; `None` when they are not
/// JSON.
pub uninterp spec fn spec_json_bytes(bytes: Seq<u8>) -> Option<JsonValue>;

/// Calls `serde_json::from_slice::<serde_json::Value>` on `bytes`: `Ok` with
/// the value read, exactly when the bytes are JSON; otherwise serde_json's
/// error message, of which nothing is stated.
#[verifier::external_body]
pub(crate) fn parse_json_bytes(bytes: &[u8]) -> (r: Result<JsonValue, String>)
    ensures
        match r {
            Ok(v) => spec_json_bytes(bytes@) == Some(v),
            Err(_) => spec_json_bytes(bytes@) is None,
        },
{
    serde_json::from_slice::<serde_json::Value>(bytes).map(json_of).map_err(|e| e.to_string())
}

} // verus!
