//! A JSON document as the search code reads it.

use vstd::prelude::*;

verus! {

/// A JSON value. Numbers are kept as their text; object members keep their
/// order (a document's member names are distinct).
#[derive(Debug)]
pub enum JsonValue {
    Null,
    Bool(bool),
    Number(String),
    String(String),
    Array(Vec<JsonValue>),
    Object(Vec<(String, JsonValue)>),
}

/// The value of the first member of `members` named `key`.
pub open spec fn member(members: Seq<(String, JsonValue)>, key: Seq<char>) -> Option<JsonValue>
    decreases members.len(),
{
    if members.len() == 0 {
        None
    } else if members[0].0@ == key {
        Some(members[0].1)
    } else {
        member(members.drop_first(), key)
    }
}

/// The value a borrowed optional value refers to.
pub open spec fn deref_opt(o: Option<&JsonValue>) -> Option<JsonValue> {
    match o {
        Some(x) => Some(*x),
        None => None,
    }
}

/// The value of the member named `key` of the object `members`.
pub fn get<'a>(members: &'a Vec<(String, JsonValue)>, key: &str) -> (r: Option<&'a JsonValue>)
    ensures
        deref_opt(r) == member(members@, key@),
{
    let key_string = String::from_str(key);
    let mut i: usize = 0;
    assert(members@.subrange(0, members@.len() as int) =~= members@);
    while i < members.len()
        invariant
            i <= members.len(),
            key_string@ == key@,
            member(members@, key@) == member(members@.subrange(i as int, members@.len() as int), key@),
        decreases members.len() - i,
    {
        assert(members@.subrange(i as int, members@.len() as int).drop_first() =~= members@.subrange(
            i + 1,
            members@.len() as int,
        ));
        if members[i].0 == key_string {
            return Some(&members[i].1);
        }
        i = i + 1;
    }
    None
}

/// `serde_json::Value`, the document `serde_json` reads; carried through unread.
#[verifier::external_type_specification]
#[verifier::external_body]
pub struct ExSerdeJsonValue(serde_json::Value);

/// A `serde_json` value in the form the library reads, variant for variant
/// (a number as its text, object members in the order `serde_json` keeps
/// them). Only used to convert what `parse_json` got back.
#[verifier::external_body]
fn from_serde(v: serde_json::Value) -> JsonValue {
    match v {
        serde_json::Value::Null => JsonValue::Null,
        serde_json::Value::Bool(b) => JsonValue::Bool(b),
        serde_json::Value::Number(n) => JsonValue::Number(n.to_string()),
        serde_json::Value::String(s) => JsonValue::String(s),
        serde_json::Value::Array(a) => JsonValue::Array(a.into_iter().map(from_serde).collect()),
        serde_json::Value::Object(m) => JsonValue::Object(
            m.into_iter().map(|(k, x)| (k, from_serde(x))).collect(),
        ),
    }
}

/// The document `serde_json::from_str` reads from `text`, or the text of
/// its error when `text` is not one JSON document.
pub uninterp spec fn parsed_json(text: Seq<char>) -> Result<JsonValue, Seq<char>>;

/// `serde_json::from_str::<serde_json::Value>`: parses `text` as one JSON
/// document. The grammar is serde_json's; the result, or the text of the
/// error, is named `parsed_json(text)`.
#[verifier::external_body]
pub(crate) fn parse_json(text: &str) -> (r: Result<JsonValue, String>)
    ensures
        match r {
            Ok(v) => parsed_json(text@) == Ok::<JsonValue, Seq<char>>(v),
            Err(e) => parsed_json(text@) == Err::<JsonValue, Seq<char>>(e@),
        },
{
    match serde_json::from_str::<serde_json::Value>(text) {
        Ok(v) => Ok(from_serde(v)),
        Err(e) => Err(e.to_string()),
    }
}

/// The text of a JSON string value.
pub open spec fn text_of(v: Option<JsonValue>) -> Option<Seq<char>> {
    match v {
        Some(JsonValue::String(s)) => Some(s@),
        _ => None,
    }
}

/// `Value::as_str`: the text of `v` when it is a string.
pub fn as_str(v: Option<&JsonValue>) -> (r: Option<&str>)
    ensures
        match r {
            Some(s) => text_of(deref_opt(v)) == Some(s@),
            None => text_of(deref_opt(v)) is None,
        },
{
    match v {
        Some(JsonValue::String(s)) => Some(s.as_str()),
        _ => None,
    }
}

} // verus!
