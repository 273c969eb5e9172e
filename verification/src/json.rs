//! A plain model of JSON values, as carried in command bodies, command
//! results, invoke errors and event payloads.
//!
//! Numbers are kept as their JSON text, so a value survives the trip through
//! the library unchanged without the library ever doing float arithmetic.

use vstd::prelude::*;

verus! {

/// A JSON value. Mirrors the shape of `serde_json::Value`; object entries are
/// kept in the order the parser produced them.
#[derive(Debug, PartialEq)]
pub enum JsonValue {
    Null,
    Bool(bool),
    /// The number exactly as written in JSON text, e.g. `5`, `2.5`, `-1e3`.
    Number(String),
    String(String),
    Array(Vec<JsonValue>),
    Object(Vec<(String, JsonValue)>),
}

/// `a` and `b` hold the same JSON: the same variant, the same flag, number
/// text or string, and, for arrays and objects, the same number of members,
/// pairwise the same (with the same keys, in the same order).
pub open spec fn same_json(a: JsonValue, b: JsonValue) -> bool
    decreases a, 1nat,
{
    match a {
        JsonValue::Null => b is Null,
        JsonValue::Bool(x) => b matches JsonValue::Bool(y) && x == y,
        JsonValue::Number(x) => b matches JsonValue::Number(y) && x@ == y@,
        JsonValue::String(x) => b matches JsonValue::String(y) && x@ == y@,
        JsonValue::Array(xs) => match b {
            JsonValue::Array(ys) => same_items(xs@, ys@),
            _ => false,
        },
        JsonValue::Object(xs) => match b {
            JsonValue::Object(ys) => same_entries(xs@, ys@),
            _ => false,
        },
    }
}

/// Two lists of values of the same length, pairwise the same JSON.
pub open spec fn same_items(s: Seq<JsonValue>, t: Seq<JsonValue>) -> bool
    decreases s, 0nat,
{
    if s.len() == 0 {
        t.len() == 0
    } else {
        &&& t.len() == s.len()
        &&& same_items(s.drop_last(), t.drop_last())
        &&& same_json(s.last(), t.last())
    }
}

/// Two lists of object entries of the same length, pairwise with the same
/// key and the same JSON value.
pub open spec fn same_entries(s: Seq<(String, JsonValue)>, t: Seq<(String, JsonValue)>) -> bool
    decreases s, 0nat,
{
    if s.len() == 0 {
        t.len() == 0
    } else {
        &&& t.len() == s.len()
        &&& same_entries(s.drop_last(), t.drop_last())
        &&& s.last().0@ == t.last().0@
        &&& same_json(s.last().1, t.last().1)
    }
}

impl Clone for JsonValue {
    /// A deep copy, member by member (written out: the derived impl does not
    /// go through for a recursive type). The copy holds the same JSON; `==`
    /// cannot be stated, as Verus knows no extensional equality of `Vec`s.
    fn clone(&self) -> (r: JsonValue)
        ensures
            same_json(*self, r),
        decreases self,
    {
        match self {
            JsonValue::Null => JsonValue::Null,
            JsonValue::Bool(b) => JsonValue::Bool(*b),
            JsonValue::Number(n) => JsonValue::Number(n.clone()),
            JsonValue::String(s) => JsonValue::String(s.clone()),
            JsonValue::Array(items) => {
                let mut out: Vec<JsonValue> = Vec::new();
                let mut i: usize = 0;
                assert(items@.take(0) =~= Seq::<JsonValue>::empty());
                while i < items.len()
                    invariant
                        i <= items.len(),
                        *self == JsonValue::Array(*items),
                        same_items(items@.take(i as int), out@),
                    decreases items.len() - i,
                {
                    proof {
                        assert(decreases_to!(*self => (*self)->Array_0));
                        assert(decreases_to!(*items => items@));
                        assert(decreases_to!(items@ => items@[i as int]));
                    }
                    let c = items[i].clone();
                    let ghost before = out@;
                    out.push(c);
                    proof {
                        let s = items@.take(i + 1);
                        assert(s.drop_last() =~= items@.take(i as int));
                        assert(out@.drop_last() =~= before);
                        assert(s.last() == items@[i as int]);
                    }
                    i = i + 1;
                }
                assert(items@.take(i as int) =~= items@);
                JsonValue::Array(out)
            },
            JsonValue::Object(entries) => {
                let mut out: Vec<(String, JsonValue)> = Vec::new();
                let mut i: usize = 0;
                assert(entries@.take(0) =~= Seq::<(String, JsonValue)>::empty());
                while i < entries.len()
                    invariant
                        i <= entries.len(),
                        *self == JsonValue::Object(*entries),
                        same_entries(entries@.take(i as int), out@),
                    decreases entries.len() - i,
                {
                    proof {
                        assert(decreases_to!(*self => (*self)->Object_0));
                        assert(decreases_to!(*entries => entries@));
                        assert(decreases_to!(entries@ => entries@[i as int]));
                        assert(decreases_to!(entries@[i as int] => entries@[i as int].1));
                    }
                    let k = entries[i].0.clone();
                    let v = entries[i].1.clone();
                    let ghost before = out@;
                    out.push((k, v));
                    proof {
                        let s = entries@.take(i + 1);
                        assert(s.drop_last() =~= entries@.take(i as int));
                        assert(out@.drop_last() =~= before);
                        assert(s.last() == entries@[i as int]);
                    }
                    i = i + 1;
                }
                assert(entries@.take(i as int) =~= entries@);
                JsonValue::Object(out)
            },
        }
    }
}

/// The value stored under `key` in a list of object entries: the first entry
/// with that key, if any.
pub open spec fn entries_get(entries: Seq<(String, JsonValue)>, key: Seq<char>) -> Option<JsonValue>
    decreases entries.len(),
{
    if entries.len() == 0 {
        None
    } else if entries[0].0@ == key {
        Some(entries[0].1)
    } else {
        entries_get(entries.drop_first(), key)
    }
}

/// The member `key` of `v` when `v` is an object holding it; `None` for every
/// other value (null, arrays, strings, ...), as `serde_json::Value::get` does.
pub open spec fn json_get(v: JsonValue, key: Seq<char>) -> Option<JsonValue> {
    match v {
        JsonValue::Object(entries) => entries_get(entries@, key),
        _ => None,
    }
}

/// What parsing `bytes` as one JSON document gives: the value, or the
/// parser's error message.
pub uninterp spec fn json_parse(bytes: Seq<u8>) -> Result<JsonValue, Seq<char>>;

impl JsonValue {
    /// Looks up member `key` of an object; every non-object gives `None`.
    pub fn get(&self, key: &str) -> (r: Option<&JsonValue>)
        ensures
            match r {
                Some(v) => json_get(*self, key@) == Some(*v),
                None => json_get(*self, key@) is None,
            },
    {
        match self {
            JsonValue::Object(entries) => {
                let mut i: usize = 0;
                assert(entries@.skip(0) =~= entries@);
                while i < entries.len()
                    invariant
                        i <= entries.len(),
                        json_get(*self, key@) == entries_get(entries@, key@),
                        entries_get(entries@, key@) == entries_get(entries@.skip(i as int), key@),
                    decreases entries.len() - i,
                {
                    assert(entries@.skip(i as int).drop_first() =~= entries@.skip(i + 1));
                    assert(entries@.skip(i as int)[0] == entries@[i as int]);
                    let k: &str = entries[i].0.as_str();
                    if str_eq(k, key) {
                        assert(entries_get(entries@.skip(i as int), key@) == Some(entries@[i as int].1));
                        return Some(&entries[i].1);
                    }
                    i = i + 1;
                }
                None
            },
            _ => None,
        }
    }
}

/// Equality of two string slices, character by character.
pub fn str_eq(a: &str, b: &str) -> (r: bool)
    ensures
        r == (a@ == b@),
{
    let a = a.to_owned();
    let b = b.to_owned();
    a == b
}

#[verifier::external_type_specification]
#[verifier::external_body]
pub struct ExJsonDocument(serde_json::Value);

/// Converts a parsed `serde_json::Value` into the library's model, variant by
/// variant; a number keeps its JSON text as `serde_json::Number`'s `Display`
/// writes it.
#[verifier::external_body]
fn from_document(v: serde_json::Value) -> JsonValue {
    match v {
        serde_json::Value::Null => JsonValue::Null,
        serde_json::Value::Bool(b) => JsonValue::Bool(b),
        serde_json::Value::Number(n) => JsonValue::Number(n.to_string()),
        serde_json::Value::String(s) => JsonValue::String(s),
        serde_json::Value::Array(a) => JsonValue::Array(a.into_iter().map(from_document).collect()),
        serde_json::Value::Object(m) => JsonValue::Object(
            m.into_iter().map(|(k, v)| (k, from_document(v))).collect(),
        ),
    }
}

/// Calls `serde_json::from_slice` to parse `bytes` as one JSON document.
/// Claims only that the outcome is a function of the bytes (`json_parse`):
/// the value on success, the error's `Display` text on failure.
#[verifier::external_body]
pub(crate) fn parse_json(bytes: &[u8]) -> (r: Result<JsonValue, String>)
    ensures
        json_parse(bytes@) == match r {
            Ok(v) => Ok::<JsonValue, Seq<char>>(v),
            Err(e) => Err::<JsonValue, Seq<char>>(e@),
        },
{
    match serde_json::from_slice::<serde_json::Value>(bytes) {
        Ok(v) => Ok(from_document(v)),
        Err(e) => Err(e.to_string()),
    }
}

} // verus!
