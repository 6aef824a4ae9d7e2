//! The part of a JSON document that this library reads, and the JSON texts it writes.
use vstd::prelude::*;
use crate::text::str_eq;
use serde_json::Value;

verus! {

/// One level of a parsed JSON value: scalars in full, the members of arrays
/// and objects as their compact JSON text.
#[derive(Debug, Clone)]
pub enum JsonValue {
    Null,
    Bool(bool),
    /// A number, in its textual form.
    Number(String),
    Str(String),
    /// The elements, each as JSON text.
    Array(Vec<String>),
    /// The members in key order, each value as JSON text.
    Object(Vec<(String, String)>),
}

/// What `serde_json` makes of a text: `None` when it is not one JSON value.
pub uninterp spec fn parsed_json(text: Seq<char>) -> Option<JsonValue>;

/// Relies on `serde_json::from_str::<Value>`; the members of an array or an
/// object are written back with `Value`'s `Display` (compact JSON).
#[verifier::external_body]
pub(crate) fn parse_json(text: &str) -> (r: Option<JsonValue>)
    ensures
        r == parsed_json(text@),
{
    let v: Value = serde_json::from_str(text).ok()?;
    Some(match v {
        Value::Null => JsonValue::Null,
        Value::Bool(b) => JsonValue::Bool(b),
        Value::Number(n) => JsonValue::Number(n.to_string()),
        Value::String(s) => JsonValue::Str(s),
        Value::Array(a) => JsonValue::Array(a.iter().map(|v| v.to_string()).collect()),
        Value::Object(m) => JsonValue::Object(m.into_iter().map(|(k, v)| (k, v.to_string())).collect()),
    })
}

/// The text of the member named `key` among object members (the first such member).
pub open spec fn lookup_member(members: Seq<(String, String)>, key: Seq<char>) -> Option<Seq<char>>
    decreases members.len(),
{
    if members.len() == 0 {
        None
    } else if members[0].0@ == key {
        Some(members[0].1@)
    } else {
        lookup_member(members.drop_first(), key)
    }
}

/// The text of member `key` of a value: `None` unless it is an object with such a member.
pub open spec fn json_member(v: JsonValue, key: Seq<char>) -> Option<Seq<char>> {
    match v {
        JsonValue::Object(members) => lookup_member(members@, key),
        _ => None,
    }
}

/// The JSON text of member `key` of a value (what `Value::get` finds).
pub fn member_text(v: &JsonValue, key: &str) -> (r: Option<String>)
    ensures
        r matches Some(t) ==> json_member(*v, key@) == Some(t@),
        r is None ==> json_member(*v, key@) is None,
{
    match v {
        JsonValue::Object(members) => {
            let mut i: usize = 0;
            assert(members@.subrange(0, members@.len() as int) =~= members@);
            while i < members.len()
                invariant
                    i <= members@.len(),
                    json_member(*v, key@) == lookup_member(members@, key@),
                    lookup_member(members@, key@) == lookup_member(
                        members@.subrange(i as int, members@.len() as int),
                        key@,
                    ),
                decreases members@.len() - i,
            {
                let ghost rest = members@.subrange(i as int, members@.len() as int);
                assert(rest[0] == members@[i as int]);
                if str_eq(members[i].0.as_str(), key) {
                    let t = members[i].1.clone();
                    assert(t@ == rest[0].1@);
                    return Some(t);
                }
                assert(rest.drop_first() =~= members@.subrange(i + 1, members@.len() as int));
                i = i + 1;
            }
            None
        },
        _ => None,
    }
}

/// Facet counts: for each field, each value with the number of its occurrences.
pub open spec fn facets_view(f: Seq<(String, Vec<(String, usize)>)>) -> Seq<(Seq<char>, Seq<(Seq<char>, usize)>)> {
    f.map_values(|e: (String, Vec<(String, usize)>)| (e.0@, e.1@.map_values(|c: (String, usize)| (c.0@, c.1))))
}

/// What `serde_json::to_string` writes for facet counts, as an object of objects.
pub uninterp spec fn facets_json(f: Seq<(Seq<char>, Seq<(Seq<char>, usize)>)>) -> Seq<char>;

/// Relies on `serde_json::to_string` of a map from field to a map from value
/// to count. It fails only when a `Serialize` impl fails or a map key is not
/// a string; neither can happen with string keys and integer counts.
#[verifier::external_body]
pub(crate) fn facets_to_json(f: &Vec<(String, Vec<(String, usize)>)>) -> (r: Result<String, String>)
    ensures
        r is Ok,
        r matches Ok(t) ==> t@ == facets_json(facets_view(f@)),
{
    let m: std::collections::BTreeMap<&String, std::collections::BTreeMap<&String, usize>> =
        f.iter().map(|(k, c)| (k, c.iter().map(|(v, n)| (v, *n)).collect())).collect();
    serde_json::to_string(&m).map_err(|e| e.to_string())
}

/// Highlights: for each field, its snippets.
pub open spec fn highlights_view(h: Seq<(String, Vec<String>)>) -> Seq<(Seq<char>, Seq<Seq<char>>)> {
    h.map_values(|e: (String, Vec<String>)| (e.0@, e.1@.map_values(|s: String| s@)))
}

/// What `serde_json::to_string` writes for highlights, as an object of arrays.
pub uninterp spec fn highlights_json(h: Seq<(Seq<char>, Seq<Seq<char>>)>) -> Seq<char>;

/// Relies on `serde_json::to_string` of a map from field to a list of
/// snippets. It fails only when a `Serialize` impl fails or a map key is not
/// a string; neither can happen with string keys and string lists.
#[verifier::external_body]
pub(crate) fn highlights_to_json(h: &Vec<(String, Vec<String>)>) -> (r: Result<String, String>)
    ensures
        r is Ok,
        r matches Ok(t) ==> t@ == highlights_json(highlights_view(h@)),
{
    let m: std::collections::BTreeMap<&String, &Vec<String>> = h.iter().map(|(k, s)| (k, s)).collect();
    serde_json::to_string(&m).map_err(|e| e.to_string())
}

} // verus!
