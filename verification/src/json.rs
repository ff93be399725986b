//! The library's own model of a parsed JSON document.
//!
//! A response body is parsed once, by serde_json, behind a trusted wrapper;
//! everything after that point works on [`JsonValue`], a plain tree the
//! verifier can see into. The model keeps exactly what the normalizer reads:
//! a number is kept only as "fits in `u64`" or "present but not a count",
//! because every extraction path ends in a non-negative 64-bit count.

use vstd::prelude::*;
use crate::text::str_eq;

verus! {

/// A parsed JSON document, as plain values.
///
/// Object fields keep the parser's order and are unique by key (serde_json
/// keeps one entry per key); lookup takes the first match either way.
#[derive(Debug, PartialEq, Eq)]
pub enum JsonValue {
    Null,
    Bool(bool),
    /// A number representable as a non-negative 64-bit integer.
    UInt(u64),
    /// A number present in the document but not representable as `u64`
    /// (negative, fractional, or too large).
    OtherNum,
    Text(String),
    Array(Vec<JsonValue>),
    Object(Vec<(String, JsonValue)>),
}

/// What serde_json parses a given body into, rebuilt as [`JsonValue`];
/// `None` where the body is not one well-formed JSON document.
pub uninterp spec fn spec_parse_json(s: Seq<char>) -> Option<JsonValue>;

#[verifier::external_type_specification]
#[verifier::external_body]
pub struct ExSerdeValue(serde_json::Value);

/// Relies on the variants of `serde_json::Value`: rebuilds the parsed
/// document as the library's own tree, one arm per variant; a number is
/// kept through `Number::as_u64`, which answers only for non-negative
/// integers that fit in `u64`.
#[verifier::external_body]
fn json_tree(v: &serde_json::Value) -> JsonValue {
    match v {
        serde_json::Value::Null => JsonValue::Null,
        serde_json::Value::Bool(b) => JsonValue::Bool(*b),
        serde_json::Value::Number(n) => match n.as_u64() {
            Some(u) => JsonValue::UInt(u),
            None => JsonValue::OtherNum,
        },
        serde_json::Value::String(s) => JsonValue::Text(s.clone()),
        serde_json::Value::Array(a) => JsonValue::Array(a.iter().map(json_tree).collect()),
        serde_json::Value::Object(o) => JsonValue::Object(
            o.iter().map(|(k, x)| (k.clone(), json_tree(x))).collect(),
        ),
    }
}

/// Relies on `serde_json::from_str`: parses the body as one JSON document;
/// the result is a function of the text alone.
#[verifier::external_body]
pub(crate) fn parse_json(s: &str) -> (r: Option<JsonValue>)
    ensures
        r == spec_parse_json(s@),
{
    match serde_json::from_str::<serde_json::Value>(s) {
        Ok(v) => Some(json_tree(&v)),
        Err(_) => None,
    }
}

/// First field of `fields` whose key reads as `key`, if any.
pub open spec fn obj_lookup(fields: Seq<(String, JsonValue)>, key: Seq<char>) -> Option<JsonValue>
    decreases fields.len(),
{
    if fields.len() == 0 {
        None
    } else if fields[0].0@ == key {
        Some(fields[0].1)
    } else {
        obj_lookup(fields.drop_first(), key)
    }
}

/// Field lookup on a document: `None` unless `doc` is an object with the key.
pub open spec fn spec_get(doc: JsonValue, key: Seq<char>) -> Option<JsonValue> {
    match doc {
        JsonValue::Object(fields) => obj_lookup(fields@, key),
        _ => None,
    }
}

/// Lookup along a whole path of keys, from the document's root.
pub open spec fn spec_get_path(doc: JsonValue, path: Seq<Seq<char>>) -> Option<JsonValue>
    decreases path.len(),
{
    if path.len() == 0 {
        Some(doc)
    } else {
        match spec_get(doc, path[0]) {
            Some(v) => spec_get_path(v, path.drop_first()),
            None => None,
        }
    }
}

/// The count a terminal value stands for, if it is one.
pub open spec fn spec_as_u64(v: JsonValue) -> Option<u64> {
    match v {
        JsonValue::UInt(n) => Some(n),
        _ => None,
    }
}

proof fn lemma_obj_lookup_skip(fields: Seq<(String, JsonValue)>, key: Seq<char>, i: int)
    requires
        0 <= i <= fields.len(),
        forall|j: int| 0 <= j < i ==> fields[j].0@ != key,
    ensures
        obj_lookup(fields, key) == obj_lookup(fields.skip(i), key),
    decreases i,
{
    if i > 0 {
        lemma_obj_lookup_skip(fields, key, i - 1);
        assert(fields.skip(i - 1)[0] == fields[i - 1]);
        assert(fields.skip(i - 1).drop_first() =~= fields.skip(i));
    } else {
        assert(fields.skip(0) =~= fields);
    }
}

impl JsonValue {
    /// Field lookup, exactly as `spec_get` says.
    pub fn get<'a>(&'a self, key: &str) -> (r: Option<&'a JsonValue>)
        ensures
            match r {
                Some(v) => spec_get(*self, key@) == Some(*v),
                None => spec_get(*self, key@) is None,
            },
    {
        match self {
            JsonValue::Object(fields) => {
                let n = fields.len();
                let mut i: usize = 0;
                while i < n
                    invariant
                        i <= n,
                        n == fields@.len(),
                        *self == JsonValue::Object(*fields),
                        forall|j: int| 0 <= j < i ==> fields@[j].0@ != key@,
                    decreases n - i,
                {
                    if str_eq(fields[i].0.as_str(), key) {
                        proof {
                            lemma_obj_lookup_skip(fields@, key@, i as int);
                            assert(fields@.skip(i as int).len() > 0);
                            assert(fields@.skip(i as int)[0] == fields@[i as int]);
                            assert(fields@[i as int].0@ == key@);
                            assert(obj_lookup(fields@.skip(i as int), key@)
                                == Some(fields@[i as int].1));
                            assert(spec_get(*self, key@) == Some(fields@[i as int].1));
                        }
                        return Some(&fields[i].1);
                    }
                    i += 1;
                }
                proof {
                    lemma_obj_lookup_skip(fields@, key@, n as int);
                    assert(fields@.skip(n as int).len() == 0);
                }
                None
            },
            _ => None,
        }
    }

    /// Whether the document is an object holding the key.
    pub fn has_key(&self, key: &str) -> (r: bool)
        ensures
            r == (spec_get(*self, key@) is Some),
    {
        self.get(key).is_some()
    }

    /// The count this value stands for, exactly as `spec_as_u64` says.
    pub fn as_count(&self) -> (r: Option<u64>)
        ensures
            r == spec_as_u64(*self),
    {
        match self {
            JsonValue::UInt(n) => Some(*n),
            _ => None,
        }
    }
}

} // verus!
