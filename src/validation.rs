//! Well-formedness checks of the parts of a query.
use vstd::prelude::*;
use crate::text::{chars_of, lower_of, str_eq, to_lowercase};
use crate::types::{HighlightConfig, SearchQuery};

verus! {

/// Positions of `c` in `s`, in order.
pub open spec fn positions_of(s: Seq<char>, c: char) -> Seq<int>
    decreases s.len(),
{
    if s.len() == 0 {
        seq![]
    } else if s.last() == c {
        positions_of(s.drop_last(), c).push(s.len() - 1)
    } else {
        positions_of(s.drop_last(), c)
    }
}

fn colon_positions(s: &Vec<char>) -> (r: Vec<usize>)
    ensures
        r@.map_values(|p: usize| p as int) == positions_of(s@, ':'),
        forall|k: int| 0 <= k < r@.len() ==> r@[k] < s@.len(),
{
    let mut out: Vec<usize> = Vec::new();
    let mut i: usize = 0;
    while i < s.len()
        invariant
            i <= s@.len(),
            out@.map_values(|p: usize| p as int) == positions_of(s@.subrange(0, i as int), ':'),
            forall|k: int| 0 <= k < out@.len() ==> out@[k] < i,
        decreases s@.len() - i,
    {
        proof {
            let t = s@.subrange(0, i + 1);
            assert(t.drop_last() =~= s@.subrange(0, i as int));
            assert(t.last() == s@[i as int]);
        }
        if s[i] == ':' {
            let ghost prev = out@;
            out.push(i);
            assert(out@.map_values(|p: usize| p as int) =~= prev.map_values(|p: usize| p as int).push(i as int));
        }
        i = i + 1;
    }
    assert(s@.subrange(0, s@.len() as int) =~= s@);
    out
}

/// Checks a filter: it must be `field:value` with a non-empty field.
pub fn validate_filter_string(filter: &str) -> (r: Result<(), String>)
    ensures
        filter@.len() == 0 ==> (r matches Err(m) && m@ == "Filter cannot be empty"@),
        filter@.len() > 0 && positions_of(filter@, ':').len() == 0 ==> (r matches Err(m) && m@
            == "Filter must contain field:value format"@),
        filter@.len() > 0 && positions_of(filter@, ':').len() > 0 && positions_of(filter@, ':')[0] == 0
            ==> (r matches Err(m) && m@ == "Filter must have a field name"@),
        r is Ok <==> (positions_of(filter@, ':').len() > 0 && positions_of(filter@, ':')[0] > 0),
{
    let chars = chars_of(filter);
    if chars.len() == 0 {
        return Err(String::from_str("Filter cannot be empty"));
    }
    let colons = colon_positions(&chars);
    if colons.len() == 0 {
        return Err(String::from_str("Filter must contain field:value format"));
    }
    assert(colons@.map_values(|p: usize| p as int)[0] == colons@[0] as int);
    if colons[0] == 0 {
        return Err(String::from_str("Filter must have a field name"));
    }
    Ok(())
}

/// Checks a facet field: it must not be empty.
pub fn validate_facet_field(facet: &str) -> (r: Result<(), String>)
    ensures
        r is Ok <==> facet@.len() > 0,
        r matches Err(m) ==> m@ == "Facet field cannot be empty"@,
{
    if facet.is_empty() {
        return Err(String::from_str("Facet field cannot be empty"));
    }
    Ok(())
}

/// Checks a highlight configuration: it must name at least one field.
pub fn validate_highlight_config(highlight: &HighlightConfig) -> (r: Result<(), String>)
    ensures
        r is Ok <==> highlight.fields@.len() > 0,
        r matches Err(m) ==> m@ == "Highlight fields cannot be empty"@,
{
    if highlight.fields.len() == 0 {
        return Err(String::from_str("Highlight fields cannot be empty"));
    }
    Ok(())
}

/// A sort expression is well formed: non-empty, and when it has a colon,
/// exactly one, after a non-empty field, followed by `asc` or `desc` in any case.
pub open spec fn valid_sort(s: Seq<char>) -> bool {
    let colons = positions_of(s, ':');
    &&& s.len() > 0
    &&& colons.len() > 0 ==> {
        &&& colons.len() == 1
        &&& colons[0] > 0
        &&& (lower_of(s.subrange(colons[0] + 1, s.len() as int)) == "asc"@ || lower_of(
            s.subrange(colons[0] + 1, s.len() as int),
        ) == "desc"@)
    }
}

/// Checks a sort expression: `field` or `field:direction`, the direction
/// `asc` or `desc` in any case.
pub fn validate_sort_string(sort: &str) -> (r: Result<(), String>)
    ensures
        r is Ok <==> valid_sort(sort@),
        sort@.len() == 0 ==> (r matches Err(m) && m@ == "Sort field cannot be empty"@),
{
    let chars = chars_of(sort);
    if chars.len() == 0 {
        return Err(String::from_str("Sort field cannot be empty"));
    }
    let colons = colon_positions(&chars);
    if colons.len() > 0 {
        assert(colons@.map_values(|p: usize| p as int)[0] == colons@[0] as int);
        if colons.len() != 1 || colons[0] == 0 {
            return Err(String::from_str("Sort must be in format 'field:direction'"));
        }
        let direction = to_lowercase(sort.substring_char(colons[0] + 1, chars.len()));
        if !str_eq(direction.as_str(), "asc") && !str_eq(direction.as_str(), "desc") {
            return Err(String::from_str("Sort direction must be 'asc' or 'desc'"));
        }
    }
    Ok(())
}

/// Every filter, facet and sort expression and the highlight configuration
/// are well formed, and a page size, when given, is positive.
pub open spec fn valid_search_query(q: SearchQuery) -> bool {
    &&& q.per_page != Some(0u32)
    &&& forall|i: int|
        0 <= i < q.filters@.len() ==> {
            let p = positions_of(#[trigger] q.filters@[i]@, ':');
            p.len() > 0 && p[0] > 0
        }
    &&& forall|i: int| 0 <= i < q.facets@.len() ==> (#[trigger] q.facets@[i])@.len() > 0
    &&& forall|i: int| 0 <= i < q.sort@.len() ==> valid_sort(#[trigger] q.sort@[i]@)
    &&& q.highlight matches Some(h) ==> h.fields@.len() > 0
}

/// Checks a whole query; the first problem found is reported.
pub fn validate_search_query(query: &SearchQuery) -> (r: Result<(), String>)
    ensures
        r is Ok <==> valid_search_query(*query),
{
    if let Some(per_page) = query.per_page {
        if per_page == 0 {
            return Err(String::from_str("'per_page' parameter must be positive"));
        }
    }
    let mut i: usize = 0;
    while i < query.filters.len()
        invariant
            i <= query.filters@.len(),
            forall|j: int|
                0 <= j < i ==> {
                    let p = positions_of(#[trigger] query.filters@[j]@, ':');
                    p.len() > 0 && p[0] > 0
                },
        decreases query.filters@.len() - i,
    {
        let r = validate_filter_string(query.filters[i].as_str());
        if r.is_err() {
            return r;
        }
        i = i + 1;
    }
    let mut i: usize = 0;
    while i < query.facets.len()
        invariant
            i <= query.facets@.len(),
            forall|j: int| 0 <= j < i ==> (#[trigger] query.facets@[j])@.len() > 0,
        decreases query.facets@.len() - i,
    {
        let r = validate_facet_field(query.facets[i].as_str());
        if r.is_err() {
            return r;
        }
        i = i + 1;
    }
    let mut i: usize = 0;
    while i < query.sort.len()
        invariant
            i <= query.sort@.len(),
            forall|j: int| 0 <= j < i ==> valid_sort(#[trigger] query.sort@[j]@),
        decreases query.sort@.len() - i,
    {
        let r = validate_sort_string(query.sort[i].as_str());
        if r.is_err() {
            return r;
        }
        i = i + 1;
    }
    if let Some(highlight) = &query.highlight {
        let r = validate_highlight_config(highlight);
        if r.is_err() {
            return r;
        }
    }
    Ok(())
}

} // verus!
