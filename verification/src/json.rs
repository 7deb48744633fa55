//! A plain-data model of a JSON document, as the RPC replies are read.
use vstd::prelude::*;

use crate::text::text_eq;
use serde_json::Value;

verus! {

/// A JSON number, kept the way `serde_json` keeps it: a nonnegative integer,
/// a negative integer, or a floating-point number (held as its JSON text).
#[derive(Debug, PartialEq, Eq)]
pub enum JsonNumber {
    PosInt(u64),
    NegInt(i64),
    Float(String),
}

/// A JSON value. Object members keep the order in which they were read; a key is
/// looked up by its first occurrence.
#[derive(Debug, PartialEq, Eq)]
pub enum JsonValue {
    Null,
    Bool(bool),
    Number(JsonNumber),
    Str(String),
    Array(Vec<JsonValue>),
    Object(Vec<(String, JsonValue)>),
}

/// The value of the first member named `key`, in a list of object members.
pub open spec fn lookup(members: Seq<(String, JsonValue)>, key: Seq<char>) -> Option<JsonValue>
    decreases members.len(),
{
    if members.len() == 0 {
        None
    } else if members[0].0@ == key {
        Some(members[0].1)
    } else {
        lookup(members.drop_first(), key)
    }
}

/// `value.get(key)`: the member named `key` when `value` is an object.
pub open spec fn member(value: JsonValue, key: Seq<char>) -> Option<JsonValue> {
    match value {
        JsonValue::Object(members) => lookup(members@, key),
        _ => None,
    }
}

/// The position of the first member named `key`.
pub open spec fn lookup_index(members: Seq<(String, JsonValue)>, key: Seq<char>) -> Option<int>
    decreases members.len(),
{
    if members.len() == 0 {
        None
    } else if members[0].0@ == key {
        Some(0)
    } else {
        match lookup_index(members.drop_first(), key) {
            Some(i) => Some(i + 1),
            None => None,
        }
    }
}

proof fn lemma_lookup_index(members: Seq<(String, JsonValue)>, key: Seq<char>)
    ensures
        match lookup_index(members, key) {
            Some(i) => 0 <= i < members.len() && lookup(members, key) == Some(members[i].1),
            None => lookup(members, key).is_none(),
        },
    decreases members.len(),
{
    if members.len() > 0 && members[0].0@ != key {
        lemma_lookup_index(members.drop_first(), key);
    }
}

/// The position of the first member named `key`.
fn find_member(members: &Vec<(String, JsonValue)>, key: &str) -> (r: Option<usize>)
    ensures
        r == match lookup_index(members@, key@) {
            Some(i) => Some(i as usize),
            None => None::<usize>,
        },
        match r {
            Some(i) => i < members.len() && lookup(members@, key@) == Some(members@[i as int].1),
            None => lookup(members@, key@).is_none(),
        },
{
    proof {
        lemma_lookup_index(members@, key@);
    }
    let mut i: usize = 0;
    assert(members@.skip(0) =~= members@);
    while i < members.len()
        invariant
            i <= members.len(),
            lookup_index(members@, key@) == match lookup_index(members@.skip(i as int), key@) {
                Some(j) => Some(j + i),
                None => None::<int>,
            },
        decreases members.len() - i,
    {
        assert(members@.skip(i as int)[0] == members@[i as int]);
        if text_eq(members[i].0.as_str(), key) {
            assert(lookup_index(members@.skip(i as int), key@) == Some(0int));
            proof {
                lemma_lookup_index(members@, key@);
            }
            return Some(i);
        }
        assert(members@.skip(i as int).drop_first() =~= members@.skip(i + 1));
        i = i + 1;
    }
    assert(members@.skip(i as int).len() == 0);
    None
}

impl JsonValue {
    /// `value.get(key)`: the member named `key` when the value is an object.
    pub fn get(&self, key: &str) -> (r: Option<&JsonValue>)
        ensures
            match r {
                Some(v) => member(*self, key@) == Some(*v),
                None => member(*self, key@).is_none(),
            },
    {
        match self {
            JsonValue::Object(members) => match find_member(members, key) {
                Some(i) => Some(&members[i].1),
                None => None,
            },
            _ => None,
        }
    }

    /// The member named `key`, taken out of the value.
    pub fn into_member(self, key: &str) -> (r: Option<JsonValue>)
        ensures
            r == member(self, key@),
    {
        match self {
            JsonValue::Object(mut members) => match find_member(&members, key) {
                Some(i) => {
                    let (_, v) = members.remove(i);
                    Some(v)
                },
                None => None,
            },
            _ => None,
        }
    }
}

/// `Value::as_i64`: an integer that fits in an `i64`.
pub open spec fn json_as_i64(v: JsonValue) -> Option<i64> {
    match v {
        JsonValue::Number(JsonNumber::PosInt(n)) => if n <= i64::MAX { Some(n as i64) } else { None },
        JsonValue::Number(JsonNumber::NegInt(n)) => Some(n),
        _ => None,
    }
}

/// `Value::as_u64`: a nonnegative integer.
pub open spec fn json_as_u64(v: JsonValue) -> Option<u64> {
    match v {
        JsonValue::Number(JsonNumber::PosInt(n)) => Some(n),
        _ => None,
    }
}

/// `Value::as_str`: the text of a JSON string.
pub open spec fn json_as_str(v: JsonValue) -> Option<Seq<char>> {
    match v {
        JsonValue::Str(s) => Some(s@),
        _ => None,
    }
}

/// `serde_json::Value`, carried only through the JSON text conversions below.
#[verifier::external_type_specification]
#[verifier::external_body]
pub struct ExSerdeJsonValue(serde_json::Value);

/// What `serde_json::from_str::<serde_json::Value>` reads from a text: the value
/// (objects keep the order of `serde_json`'s map), or none where the text is not JSON.
pub uninterp spec fn json_parse(text: Seq<char>) -> Option<JsonValue>;

/// What `serde_json::Value`'s `Display` writes for a value: its compact JSON text.
pub uninterp spec fn json_render(value: JsonValue) -> Seq<char>;

/// One-for-one conversion of a `serde_json` value into the model.
#[verifier::external_body]
fn from_serde(v: &Value) -> JsonValue {
    match v {
        Value::Null => JsonValue::Null,
        Value::Bool(b) => JsonValue::Bool(*b),
        Value::Number(n) => JsonValue::Number(match (n.as_u64(), n.as_i64()) {
            (Some(u), _) => JsonNumber::PosInt(u),
            (None, Some(i)) => JsonNumber::NegInt(i),
            (None, None) => JsonNumber::Float(n.to_string()),
        }),
        Value::String(s) => JsonValue::Str(s.clone()),
        Value::Array(a) => JsonValue::Array(a.iter().map(from_serde).collect()),
        Value::Object(m) => JsonValue::Object(m.iter().map(|(k, v)| (k.clone(), from_serde(v))).collect()),
    }
}

/// One-for-one conversion of the model into a `serde_json` value.
#[verifier::external_body]
fn to_serde(v: &JsonValue) -> Value {
    match v {
        JsonValue::Null => Value::Null,
        JsonValue::Bool(b) => Value::Bool(*b),
        JsonValue::Number(JsonNumber::PosInt(u)) => Value::from(*u),
        JsonValue::Number(JsonNumber::NegInt(i)) => Value::from(*i),
        JsonValue::Number(JsonNumber::Float(t)) => serde_json::from_str(t).map(Value::Number).unwrap_or(Value::Null),
        JsonValue::Str(s) => Value::String(s.clone()),
        JsonValue::Array(a) => Value::Array(a.iter().map(to_serde).collect()),
        JsonValue::Object(m) => Value::Object(m.iter().map(|(k, v)| (k.clone(), to_serde(v))).collect()),
    }
}

/// `serde_json::from_str::<serde_json::Value>`: reads a text as JSON.
#[verifier::external_body]
pub fn parse_json(text: &str) -> (r: Option<JsonValue>)
    ensures
        r == json_parse(text@),
{
    match serde_json::from_str::<Value>(text) {
        Ok(v) => Some(from_serde(&v)),
        Err(_) => None,
    }
}

/// Text order by code point, the order of `String` (and so of the keys of
/// `serde_json`'s map): `a` sorts strictly before `b`.
pub open spec fn text_before(a: Seq<char>, b: Seq<char>) -> bool
    decreases a.len(),
{
    if a.len() == 0 {
        b.len() > 0
    } else if b.len() == 0 {
        false
    } else if a[0] != b[0] {
        (a[0] as u32) < (b[0] as u32)
    } else {
        text_before(a.drop_first(), b.drop_first())
    }
}

/// A value that JSON text carries exactly: no floating-point numbers, negative
/// integers only as `NegInt`, object keys in strictly increasing order (so none
/// twice), and nesting no deeper than `depth`.
pub open spec fn exact_json(v: JsonValue, depth: nat) -> bool
    decreases depth,
{
    match v {
        JsonValue::Null | JsonValue::Bool(_) | JsonValue::Str(_) => true,
        JsonValue::Number(JsonNumber::PosInt(_)) => true,
        JsonValue::Number(JsonNumber::NegInt(n)) => n < 0,
        JsonValue::Number(JsonNumber::Float(_)) => false,
        JsonValue::Array(items) => depth > 0 && forall|i: int|
            0 <= i < items@.len() ==> exact_json(#[trigger] items@[i], (depth - 1) as nat),
        JsonValue::Object(members) => {
            &&& depth > 0
            &&& forall|i: int, j: int| 0 <= i < j < members@.len()
                ==> text_before(#[trigger] members@[i].0@, #[trigger] members@[j].0@)
            &&& forall|i: int| 0 <= i < members@.len()
                ==> exact_json(#[trigger] members@[i].1, (depth - 1) as nat)
        },
    }
}

/// `serde_json::Value`'s `Display`: writes a value as compact JSON text. Reading
/// that text back with `serde_json::from_str` gives the same value whenever the
/// value is one that JSON text carries exactly and nests at most 100 deep (the
/// reader refuses nesting of 128 and more).
#[verifier::external_body]
pub fn render_json(value: &JsonValue) -> (s: String)
    ensures
        s@ == json_render(*value),
        exact_json(*value, 100) ==> json_parse(s@) == Some(*value),
{
    to_serde(value).to_string()
}

} // verus!
