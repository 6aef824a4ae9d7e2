//! Facet counts computed over the hits of a result set.
use vstd::prelude::*;
use crate::json::{JsonValue, json_member, member_text, parse_json, parsed_json};
use crate::text::str_eq;
use crate::types::{HitView, SearchHit, hits_view, strings_view};

verus! {

/// The facet value of one array element, given its JSON text: a string
/// element counts as its contents, any other element as its JSON text.
pub open spec fn item_key(text: Seq<char>) -> Seq<char> {
    match parsed_json(text) {
        Some(JsonValue::Str(s)) => s@,
        _ => text,
    }
}

/// The facet values a field contributes, given the field's JSON text:
/// a string, number or boolean one value; an array one value per element;
/// anything else its JSON text.
pub open spec fn value_keys(text: Seq<char>) -> Seq<Seq<char>> {
    match parsed_json(text) {
        Some(JsonValue::Str(s)) => seq![s@],
        Some(JsonValue::Number(n)) => seq![n@],
        Some(JsonValue::Bool(b)) => seq![if b { "true"@ } else { "false"@ }],
        Some(JsonValue::Array(items)) => items@.map_values(|i: String| item_key(i@)),
        _ => seq![text],
    }
}

/// The facet values of `field` in one hit: none when the hit has no content,
/// the content is not JSON, or it has no such field.
pub open spec fn hit_field_keys(hit: HitView, field: Seq<char>) -> Seq<Seq<char>> {
    match hit.content {
        Some(c) => match parsed_json(c) {
            Some(doc) => match json_member(doc, field) {
                Some(t) => value_keys(t),
                None => seq![],
            },
            None => seq![],
        },
        None => seq![],
    }
}

/// The facet values of `field` over all hits, in hit order.
pub open spec fn field_keys(hits: Seq<HitView>, field: Seq<char>) -> Seq<Seq<char>>
    decreases hits.len(),
{
    if hits.len() == 0 {
        seq![]
    } else {
        field_keys(hits.drop_last(), field) + hit_field_keys(hits.last(), field)
    }
}

/// Position of `k` among the tallied values at or after `i`, or -1.
pub open spec fn key_pos_from(t: Seq<(Seq<char>, usize)>, k: Seq<char>, i: int) -> int
    decreases t.len() - i,
{
    if i < 0 || i >= t.len() {
        -1
    } else if t[i].0 == k {
        i
    } else {
        key_pos_from(t, k, i + 1)
    }
}

/// One more occurrence of `k`: its count goes up, or it is appended with count 1.
pub open spec fn bump(t: Seq<(Seq<char>, usize)>, k: Seq<char>) -> Seq<(Seq<char>, usize)> {
    let p = key_pos_from(t, k, 0);
    if p < 0 {
        t.push((k, 1usize))
    } else {
        t.update(p, (k, (t[p].1 + 1) as usize))
    }
}

/// Each distinct value with its number of occurrences, in order of first occurrence.
pub open spec fn tally(keys: Seq<Seq<char>>) -> Seq<(Seq<char>, usize)>
    decreases keys.len(),
{
    if keys.len() == 0 {
        seq![]
    } else {
        bump(tally(keys.drop_last()), keys.last())
    }
}

/// Number of occurrences of `k` in `keys`.
pub open spec fn occurrences(keys: Seq<Seq<char>>, k: Seq<char>) -> nat
    decreases keys.len(),
{
    if keys.len() == 0 {
        0
    } else {
        occurrences(keys.drop_last(), k) + if keys.last() == k { 1nat } else { 0nat }
    }
}

proof fn lemma_occurrences_bound(keys: Seq<Seq<char>>, k: Seq<char>)
    ensures
        occurrences(keys, k) <= keys.len(),
    decreases keys.len(),
{
    if keys.len() > 0 {
        lemma_occurrences_bound(keys.drop_last(), k);
    }
}

proof fn lemma_key_pos(t: Seq<(Seq<char>, usize)>, k: Seq<char>, i: int)
    requires
        0 <= i,
    ensures
        key_pos_from(t, k, i) == -1 ==> forall|j: int| i <= j < t.len() ==> (#[trigger] t[j]).0 != k,
        key_pos_from(t, k, i) != -1 ==> i <= key_pos_from(t, k, i) < t.len() && t[key_pos_from(t, k, i)].0 == k,
    decreases t.len() - i,
{
    if i < t.len() && t[i].0 != k {
        lemma_key_pos(t, k, i + 1);
    }
}

/// The tally lists each distinct value once, with the number of times it
/// occurs, and every value that occurs is listed.
pub proof fn lemma_tally_counts(keys: Seq<Seq<char>>)
    requires
        keys.len() <= usize::MAX,
    ensures
        ({
            let t = tally(keys);
            &&& forall|i: int, j: int| 0 <= i < j < t.len() ==> (#[trigger] t[i]).0 != (#[trigger] t[j]).0
            &&& forall|i: int| 0 <= i < t.len() ==> (#[trigger] t[i]).1 == occurrences(keys, t[i].0)
            &&& forall|k: Seq<char>|
                occurrences(keys, k) > 0 <==> exists|i: int| 0 <= i < t.len() && (#[trigger] t[i]).0 == k
        }),
    decreases keys.len(),
{
    if keys.len() > 0 {
        let prefix = keys.drop_last();
        let k = keys.last();
        lemma_tally_counts(prefix);
        let t = tally(prefix);
        lemma_key_pos(t, k, 0);
        let p = key_pos_from(t, k, 0);
        let t2 = tally(keys);
        assert(t2 == bump(t, k));
        if p != -1 {
            lemma_occurrences_bound(prefix, k);
        }
        assert forall|i: int, j: int| 0 <= i < j < t2.len() implies (#[trigger] t2[i]).0 != (#[trigger] t2[j]).0 by {
            if p == -1 && j == t.len() {
                assert(t[i].0 != k);
            } else {
                assert(t[i].0 != t[j].0);
            }
        }
        assert forall|i: int| 0 <= i < t2.len() implies (#[trigger] t2[i]).1 == occurrences(keys, t2[i].0) by {
            if p == -1 && i == t.len() {
                if occurrences(prefix, k) > 0 {
                    let m = choose|m: int| 0 <= m < t.len() && (#[trigger] t[m]).0 == k;
                }
            }
        }
        assert forall|c: Seq<char>|
            occurrences(keys, c) > 0 <==> exists|i: int| 0 <= i < t2.len() && (#[trigger] t2[i]).0 == c by {
            if occurrences(keys, c) > 0 {
                if c == k {
                    if p == -1 {
                        assert(t2[t.len() as int].0 == c);
                    } else {
                        assert(t2[p].0 == c);
                    }
                } else {
                    assert(occurrences(prefix, c) > 0);
                    let m = choose|m: int| 0 <= m < t.len() && (#[trigger] t[m]).0 == c;
                    assert(m != p);
                    assert(t2[m].0 == c);
                }
            }
            if exists|i: int| 0 <= i < t2.len() && (#[trigger] t2[i]).0 == c {
                let m = choose|m: int| 0 <= m < t2.len() && (#[trigger] t2[m]).0 == c;
                if c != k {
                    assert(t[m].0 == c);
                }
            }
        }
    }
}

/// Facet counts of the given fields over the hits; a field that no hit has is left out.
pub open spec fn client_facets(hits: Seq<HitView>, fields: Seq<Seq<char>>) -> Seq<(Seq<char>, Seq<(Seq<char>, usize)>)>
    decreases fields.len(),
{
    if fields.len() == 0 {
        seq![]
    } else {
        let before = client_facets(hits, fields.drop_last());
        let counts = tally(field_keys(hits, fields.last()));
        if counts.len() > 0 {
            before.push((fields.last(), counts))
        } else {
            before
        }
    }
}

pub open spec fn counts_view(c: Seq<(String, usize)>) -> Seq<(Seq<char>, usize)> {
    c.map_values(|e: (String, usize)| (e.0@, e.1))
}

fn item_key_exec(item: &String) -> (r: String)
    ensures
        r@ == item_key(item@),
{
    match parse_json(item.as_str()) {
        Some(JsonValue::Str(s)) => s,
        _ => item.clone(),
    }
}

fn push_value_keys(keys: &mut Vec<String>, text: &String)
    ensures
        strings_view(final(keys)@) == strings_view(old(keys)@) + value_keys(text@),
{
    let ghost before = strings_view(old(keys)@);
    match parse_json(text.as_str()) {
        Some(JsonValue::Str(s)) => {
            keys.push(s);
        },
        Some(JsonValue::Number(n)) => {
            keys.push(n);
        },
        Some(JsonValue::Bool(b)) => {
            keys.push(if b { String::from_str("true") } else { String::from_str("false") });
        },
        Some(JsonValue::Array(items)) => {
            let mut i: usize = 0;
            while i < items.len()
                invariant
                    i <= items@.len(),
                    strings_view(keys@) == before + items@.subrange(0, i as int).map_values(|x: String| item_key(x@)),
                decreases items@.len() - i,
            {
                let k = item_key_exec(&items[i]);
                let ghost prev = keys@;
                keys.push(k);
                assert(strings_view(keys@) =~= strings_view(prev).push(k@));
                assert(items@.subrange(0, i + 1).map_values(|x: String| item_key(x@)) =~= items@.subrange(
                    0,
                    i as int,
                ).map_values(|x: String| item_key(x@)).push(item_key(items@[i as int]@)));
                assert(strings_view(keys@) =~= before + items@.subrange(0, i + 1).map_values(|x: String| item_key(x@)));
                i = i + 1;
            }
            assert(items@.subrange(0, items@.len() as int) =~= items@);
        },
        _ => {
            keys.push(text.clone());
        },
    }
    assert(strings_view(keys@) =~= before + value_keys(text@));
}

fn push_hit_keys(keys: &mut Vec<String>, hit: &SearchHit, field: &String)
    ensures
        strings_view(final(keys)@) == strings_view(old(keys)@) + hit_field_keys(hit@, field@),
{
    let ghost before = strings_view(old(keys)@);
    if let Some(content) = &hit.content {
        if let Some(doc) = parse_json(content.as_str()) {
            if let Some(text) = member_text(&doc, field.as_str()) {
                push_value_keys(keys, &text);
                return;
            }
        }
    }
    assert(strings_view(keys@) =~= before + hit_field_keys(hit@, field@));
}

pub(crate) fn collect_field_keys(hits: &Vec<SearchHit>, field: &String) -> (r: Vec<String>)
    ensures
        strings_view(r@) == field_keys(hits_view(hits@), field@),
{
    let mut keys: Vec<String> = Vec::new();
    let mut i: usize = 0;
    while i < hits.len()
        invariant
            i <= hits@.len(),
            strings_view(keys@) == field_keys(hits_view(hits@.subrange(0, i as int)), field@),
        decreases hits@.len() - i,
    {
        proof {
            let hs = hits_view(hits@.subrange(0, i + 1));
            assert(hs.drop_last() =~= hits_view(hits@.subrange(0, i as int)));
            assert(hs.last() == hits@[i as int]@);
        }
        push_hit_keys(&mut keys, &hits[i], field);
        i = i + 1;
    }
    assert(hits@.subrange(0, hits@.len() as int) =~= hits@);
    keys
}

fn bump_exec(counts: &mut Vec<(String, usize)>, key: &String, bound: usize)
    requires
        bound >= 1,
        forall|j: int| 0 <= j < old(counts)@.len() ==> old(counts)@[j].1 < bound,
    ensures
        counts_view(final(counts)@) == bump(counts_view(old(counts)@), key@),
        forall|j: int| 0 <= j < final(counts)@.len() ==> final(counts)@[j].1 <= bound,
{
    let ghost t = counts_view(old(counts)@);
    let mut i: usize = 0;
    while i < counts.len()
        invariant
            i <= counts@.len(),
            counts@ == old(counts)@,
            bound >= 1,
            t == counts_view(old(counts)@),
            forall|j: int| 0 <= j < counts@.len() ==> counts@[j].1 < bound,
            key_pos_from(t, key@, 0) == key_pos_from(t, key@, i as int),
        decreases counts@.len() - i,
    {
        if str_eq(counts[i].0.as_str(), key.as_str()) {
            let n = counts[i].1;
            let name = counts[i].0.clone();
            counts.set(i, (name, n + 1));
            assert(counts_view(counts@) =~= bump(t, key@));
            return;
        }
        i = i + 1;
    }
    counts.push((key.clone(), 1));
    assert(counts_view(counts@) =~= bump(t, key@));
}

pub(crate) fn tally_exec(keys: &Vec<String>) -> (r: Vec<(String, usize)>)
    ensures
        counts_view(r@) == tally(strings_view(keys@)),
{
    let mut counts: Vec<(String, usize)> = Vec::new();
    let mut i: usize = 0;
    while i < keys.len()
        invariant
            i <= keys@.len(),
            counts_view(counts@) == tally(strings_view(keys@.subrange(0, i as int))),
            forall|j: int| 0 <= j < counts@.len() ==> counts@[j].1 <= i,
        decreases keys@.len() - i,
    {
        proof {
            let ks = strings_view(keys@.subrange(0, i + 1));
            assert(ks.drop_last() =~= strings_view(keys@.subrange(0, i as int)));
            assert(ks.last() == keys@[i as int]@);
        }
        bump_exec(&mut counts, &keys[i], i + 1);
        i = i + 1;
    }
    assert(keys@.subrange(0, keys@.len() as int) =~= keys@);
    counts
}

} // verus!
