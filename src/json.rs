//! A JSON document as a tree of plain values, and the reads that the decoder
//! makes on it.

use vstd::prelude::*;

verus! {

/// A JSON value.
///
/// A number keeps only what the decoder reads of it: its value where it is a
/// non-negative integer that fits in `u64`, and `None` where it is negative or
/// has a fractional part. An object keeps its members in order, each key once.
#[derive(Debug, PartialEq)]
pub enum JsonValue {
    Null,
    Bool(bool),
    Number(Option<u64>),
    Str(String),
    Array(Vec<JsonValue>),
    Object(Vec<(String, JsonValue)>),
}

/// The value stored under `key` among `entries`: the first member with that key.
pub open spec fn lookup(entries: Seq<(String, JsonValue)>, key: Seq<char>) -> Option<JsonValue>
    decreases entries.len(),
{
    if entries.len() == 0 {
        None
    } else if entries[0].0@ == key {
        Some(entries[0].1)
    } else {
        lookup(entries.drop_first(), key)
    }
}

/// The member `key` of `v`; `None` where `v` is no object or has no such member.
pub open spec fn field(v: JsonValue, key: Seq<char>) -> Option<JsonValue> {
    match v {
        JsonValue::Object(entries) => lookup(entries@, key),
        _ => None,
    }
}

/// The member `key` of `v` where it is a string.
pub open spec fn str_at(v: JsonValue, key: Seq<char>) -> Option<Seq<char>> {
    match field(v, key) {
        Some(JsonValue::Str(s)) => Some(s@),
        _ => None,
    }
}

/// The member `key` of `v` where it is a non-negative integer that fits in `u64`.
pub open spec fn u64_at(v: JsonValue, key: Seq<char>) -> Option<u64> {
    match field(v, key) {
        Some(JsonValue::Number(Some(n))) => Some(n),
        _ => None,
    }
}

/// The member `key` of `v` where it is an array.
pub open spec fn array_at(v: JsonValue, key: Seq<char>) -> Option<Seq<JsonValue>> {
    match field(v, key) {
        Some(JsonValue::Array(items)) => Some(items@),
        _ => None,
    }
}

/// The string member `key` of `v`, or the empty string.
pub open spec fn str_or_empty(v: JsonValue, key: Seq<char>) -> Seq<char> {
    match str_at(v, key) {
        Some(s) => s,
        None => Seq::empty(),
    }
}

/// The integer member `key` of `v`, or 0.
pub open spec fn u64_or_zero(v: JsonValue, key: Seq<char>) -> u64 {
    match u64_at(v, key) {
        Some(n) => n,
        None => 0,
    }
}

/// The array member `key` of `v`, or the empty sequence.
pub open spec fn array_or_empty(v: JsonValue, key: Seq<char>) -> Seq<JsonValue> {
    match array_at(v, key) {
        Some(items) => items,
        None => Seq::empty(),
    }
}

/// Whether two strings hold the same characters.
pub fn same_text(a: &str, b: &str) -> (r: bool)
    ensures
        r == (a@ == b@),
{
    let n = a.unicode_len();
    if n != b.unicode_len() {
        return false;
    }
    let mut i: usize = 0;
    while i < n
        invariant
            n == a@.len(),
            n == b@.len(),
            i <= n,
            a@.subrange(0, i as int) == b@.subrange(0, i as int),
        decreases n - i,
    {
        if a.get_char(i) != b.get_char(i) {
            assert(a@[i as int] != b@[i as int]);
            return false;
        }
        assert(a@.subrange(0, i + 1) =~= a@.subrange(0, i as int).push(a@[i as int]));
        assert(b@.subrange(0, i + 1) =~= b@.subrange(0, i as int).push(b@[i as int]));
        i = i + 1;
    }
    assert(a@ =~= a@.subrange(0, n as int));
    assert(b@ =~= b@.subrange(0, n as int));
    true
}

impl JsonValue {
    /// The member `key` of this value; `None` where it is no object or has no
    /// such member.
    pub fn get(&self, key: &str) -> (r: Option<&JsonValue>)
        ensures
            r matches Some(v) ==> field(*self, key@) == Some(*v),
            r is None <==> field(*self, key@) is None,
    {
        match self {
            JsonValue::Object(entries) => {
                let mut i: usize = 0;
                assert(entries@.subrange(0, entries@.len() as int) =~= entries@);
                while i < entries.len()
                    invariant
                        i <= entries@.len(),
                        field(*self, key@) == lookup(entries@, key@),
                        lookup(entries@, key@) == lookup(entries@.subrange(i as int, entries@.len() as int), key@),
                    decreases entries@.len() - i,
                {
                    let entry = &entries[i];
                    assert(entries@.subrange(i as int, entries@.len() as int)[0] == entries@[i as int]);
                    if same_text(entry.0.as_str(), key) {
                        return Some(&entry.1);
                    }
                    assert(entries@.subrange(i as int, entries@.len() as int).drop_first()
                        =~= entries@.subrange(i + 1, entries@.len() as int));
                    i = i + 1;
                }
                None
            },
            _ => None,
        }
    }

    /// The member `key` where it is a string.
    pub fn str_at(&self, key: &str) -> (r: Option<&String>)
        ensures
            r matches Some(s) ==> str_at(*self, key@) == Some(s@),
            r is None <==> str_at(*self, key@) is None,
    {
        match self.get(key) {
            Some(JsonValue::Str(s)) => Some(s),
            _ => None,
        }
    }

    /// The member `key` where it is a non-negative integer that fits in `u64`.
    pub fn u64_at(&self, key: &str) -> (r: Option<u64>)
        ensures
            r == u64_at(*self, key@),
    {
        match self.get(key) {
            Some(JsonValue::Number(Some(n))) => Some(*n),
            _ => None,
        }
    }

    /// The member `key` where it is an array.
    pub fn array_at(&self, key: &str) -> (r: Option<&Vec<JsonValue>>)
        ensures
            r matches Some(items) ==> array_at(*self, key@) == Some(items@),
            r is None <==> array_at(*self, key@) is None,
    {
        match self.get(key) {
            Some(JsonValue::Array(items)) => Some(items),
            _ => None,
        }
    }
}

/// The document that serde_json reads from `text`; `None` where `text` is not
/// one well-formed JSON document.
pub uninterp spec fn parsed_json(text: Seq<char>) -> Option<JsonValue>;

/// `serde_json::Value`, the document that `serde_json::from_str` yields; it is
/// only carried from the parse into `from_serde`.
#[verifier::external_type_specification]
#[verifier::external_body]
pub struct ExSerdeValue(serde_json::Value);

/// Relies on `serde_json::from_str::<serde_json::Value>`: it parses JSON text and
/// fails on text that is not one JSON document; the outcome depends on the text
/// alone.
#[verifier::external_body]
pub(crate) fn parse_json(text: &str) -> (r: Option<JsonValue>)
    ensures
        r == parsed_json(text@),
{
    match serde_json::from_str::<serde_json::Value>(text) {
        Ok(v) => Some(from_serde(v)),
        Err(_) => None,
    }
}

/// Relies on the variants of `serde_json::Value` and on `serde_json::Number::as_u64`:
/// moves a parsed document into a `JsonValue`, variant for variant.
#[verifier::external_body]
fn from_serde(v: serde_json::Value) -> JsonValue {
    match v {
        serde_json::Value::Null => JsonValue::Null,
        serde_json::Value::Bool(b) => JsonValue::Bool(b),
        serde_json::Value::Number(n) => JsonValue::Number(n.as_u64()),
        serde_json::Value::String(s) => JsonValue::Str(s),
        serde_json::Value::Array(a) => JsonValue::Array(a.into_iter().map(from_serde).collect()),
        serde_json::Value::Object(m) => JsonValue::Object(
            m.into_iter().map(|(k, e)| (k, from_serde(e))).collect(),
        ),
    }
}

} // verus!
