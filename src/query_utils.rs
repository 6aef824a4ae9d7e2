//! Helpers for building and checking queries and documents.
use vstd::prelude::*;
use crate::capabilities::utf8_len;
use crate::error::SearchError;
use crate::highlight::{split_state, words};
use crate::json::{json_member, member_text, parse_json, parsed_json};
use crate::text::{chars_of, char_is_whitespace, is_ws, lower_of, str_eq, string_of, to_lowercase};
use crate::types::{Doc, HighlightConfig, SearchQuery, opt_view};

verus! {

/// The parts joined with `sep` between consecutive parts.
pub open spec fn join(parts: Seq<Seq<char>>, sep: Seq<char>) -> Seq<char>
    decreases parts.len(),
{
    if parts.len() == 0 {
        seq![]
    } else if parts.len() == 1 {
        parts[0]
    } else {
        join(parts.drop_last(), sep) + sep + parts.last()
    }
}

/// The `field:value` conditions of a list of pairs.
pub open spec fn conditions(filters: Seq<(&str, &str)>) -> Seq<Seq<char>> {
    filters.map_values(|p: (&str, &str)| p.0@ + ":"@ + p.1@)
}

/// Joins `field:value` conditions with ` OR ` when the operator is `or` in
/// any case, with ` AND ` otherwise.
pub fn create_complex_filter(filters: &[(&str, &str)], operator: &str) -> (r: String)
    ensures
        r@ == join(conditions(filters@), if lower_of(operator@) == "or"@ { " OR "@ } else { " AND "@ }),
{
    let op = to_lowercase(operator);
    let sep = if str_eq(op.as_str(), "or") { " OR " } else { " AND " };
    let ghost parts = conditions(filters@);
    let mut out = String::new();
    let mut i: usize = 0;
    while i < filters.len()
        invariant
            i <= filters@.len(),
            parts == conditions(filters@),
            out@ == join(parts.subrange(0, i as int), sep@),
        decreases filters@.len() - i,
    {
        proof {
            let ps = parts.subrange(0, i + 1);
            assert(ps.drop_last() =~= parts.subrange(0, i as int));
            assert(ps.last() == filters@[i as int].0@ + ":"@ + filters@[i as int].1@);
        }
        if i > 0 {
            out.append(sep);
        }
        let (field, value) = filters[i];
        out.append(field);
        out.append(":");
        out.append(value);
        proof {
            if i == 0 {
                assert(out@ =~= parts.subrange(0, 1)[0]);
            } else {
                assert(out@ =~= join(parts.subrange(0, i as int), sep@) + sep@ + parts[i as int]);
            }
        }
        i = i + 1;
    }
    assert(parts.subrange(0, parts.len() as int) =~= parts);
    out
}

/// The words of a query text joined by single spaces: leading, trailing and
/// repeated whitespace (tabs and line breaks included) removed.
pub fn normalize_query_string(query: &str) -> (r: String)
    ensures
        r@ == join(words(query@), " "@),
{
    let chars = chars_of(query);
    let mut out = String::new();
    let mut cur: Vec<char> = Vec::new();
    let ghost mut done: Seq<Seq<char>> = seq![];
    let mut i: usize = 0;
    while i < chars.len()
        invariant
            i <= chars@.len(),
            chars@ == query@,
            (done, cur@) == split_state(chars@.subrange(0, i as int)),
            out@ == join(done, " "@),
            out@.len() == 0 <==> done.len() == 0,
        decreases chars@.len() - i,
    {
        let c = chars[i];
        proof {
            let s = chars@.subrange(0, i + 1);
            assert(s.drop_last() =~= chars@.subrange(0, i as int));
            assert(s.last() == c);
        }
        if char_is_whitespace(c) {
            if cur.len() > 0 {
                if out.as_str().is_empty() == false {
                    out.append(" ");
                }
                let w = string_of(&cur);
                out.append(w.as_str());
                proof {
                    assert(done.push(cur@).drop_last() =~= done);
                    if done.len() == 0 {
                        assert(out@ =~= cur@);
                    } else {
                        assert(out@ =~= join(done, " "@) + " "@ + cur@);
                    }
                    done = done.push(cur@);
                }
                cur = Vec::new();
            }
        } else {
            cur.push(c);
        }
        i = i + 1;
    }
    assert(chars@.subrange(0, chars@.len() as int) =~= chars@);
    if cur.len() > 0 {
        if out.as_str().is_empty() == false {
            out.append(" ");
        }
        let w = string_of(&cur);
        out.append(w.as_str());
        proof {
            assert(done.push(cur@).drop_last() =~= done);
            if done.len() == 0 {
                assert(out@ =~= cur@);
            } else {
                assert(out@ =~= join(done, " "@) + " "@ + cur@);
            }
        }
    }
    out
}

/// A highlight configuration for the fields with `<mark>` tags and 200-character snippets.
pub fn create_basic_highlight(fields: Vec<String>) -> (r: HighlightConfig)
    ensures
        r.fields@ == fields@,
        r.pre_tag matches Some(t) && t@ == "<mark>"@,
        r.post_tag matches Some(t) && t@ == "</mark>"@,
        r.max_length == Some(200u32),
{
    HighlightConfig {
        fields,
        pre_tag: Some(String::from_str("<mark>")),
        post_tag: Some(String::from_str("</mark>")),
        max_length: Some(200),
    }
}

/// The fields a query asks to highlight (none when it asks for no highlighting).
pub fn extract_highlight_fields(query: &SearchQuery) -> (r: Vec<String>)
    ensures
        query.highlight matches Some(h) ==> r@ == h.fields@,
        query.highlight is None ==> r@.len() == 0,
{
    match &query.highlight {
        Some(h) => {
            let mut out: Vec<String> = Vec::new();
            let mut i: usize = 0;
            while i < h.fields.len()
                invariant
                    i <= h.fields@.len(),
                    out@ == h.fields@.subrange(0, i as int),
                decreases h.fields@.len() - i,
            {
                out.push(h.fields[i].clone());
                assert(out@ =~= h.fields@.subrange(0, i + 1));
                i = i + 1;
            }
            assert(h.fields@.subrange(0, h.fields@.len() as int) =~= h.fields@);
            out
        },
        None => Vec::new(),
    }
}

/// The text is only whitespace (what `str::trim` leaves empty).
pub open spec fn blank(s: Seq<char>) -> bool {
    forall|i: int| 0 <= i < s.len() ==> is_ws(#[trigger] s[i])
}

fn is_blank(s: &str) -> (r: bool)
    ensures
        r == blank(s@),
{
    let chars = chars_of(s);
    let mut i: usize = 0;
    while i < chars.len()
        invariant
            i <= chars@.len(),
            chars@ == s@,
            forall|j: int| 0 <= j < i ==> is_ws(#[trigger] chars@[j]),
        decreases chars@.len() - i,
    {
        if !char_is_whitespace(chars[i]) {
            return false;
        }
        i = i + 1;
    }
    true
}

/// Longest query text, in bytes.
pub const MAX_QUERY_BYTES: usize = 10000;

/// A query is well formed: a text that is not blank and at most 10000
/// bytes; with both page and page size given, a page size of 1 to 1000 and
/// a page of at most 10000; an offset of at most 100000; no blank filter or
/// sort expression.
pub open spec fn well_formed_query(q: SearchQuery) -> bool {
    &&& q.q matches Some(t) ==> !blank(t@) && utf8_len(t@) <= MAX_QUERY_BYTES
    &&& (q.page is Some && q.per_page is Some) ==> 1 <= q.per_page.unwrap() <= 1000 && q.page.unwrap() <= 10000
    &&& q.offset matches Some(o) ==> o <= 100000
    &&& forall|i: int| 0 <= i < q.filters@.len() ==> !blank(#[trigger] q.filters@[i]@)
    &&& forall|i: int| 0 <= i < q.sort@.len() ==> !blank(#[trigger] q.sort@[i]@)
}

/// Checks that a query is well formed; the first problem found is reported
/// as an invalid-query error.
pub fn validate_query(query: &SearchQuery) -> (r: Result<(), SearchError>)
    ensures
        r is Ok <==> well_formed_query(*query),
        r matches Err(e) ==> e is InvalidQuery,
{
    if let Some(q) = &query.q {
        if is_blank(q.as_str()) {
            return Err(SearchError::invalid_query("Query string cannot be empty"));
        }
        if q.as_str().len() > MAX_QUERY_BYTES {
            return Err(SearchError::invalid_query("Query string too long"));
        }
    }
    if let (Some(page), Some(per_page)) = (query.page, query.per_page) {
        if per_page == 0 {
            return Err(SearchError::invalid_query("per_page must be greater than 0"));
        }
        if per_page > 1000 {
            return Err(SearchError::invalid_query("per_page cannot exceed 1000"));
        }
        if page > 10000 {
            return Err(SearchError::invalid_query("page cannot exceed 10000"));
        }
    }
    if let Some(offset) = query.offset {
        if offset > 100000 {
            return Err(SearchError::invalid_query("offset cannot exceed 100000"));
        }
    }
    let mut i: usize = 0;
    while i < query.filters.len()
        invariant
            i <= query.filters@.len(),
            forall|j: int| 0 <= j < i ==> !blank(#[trigger] query.filters@[j]@),
        decreases query.filters@.len() - i,
    {
        if is_blank(query.filters[i].as_str()) {
            return Err(SearchError::invalid_query("Filter cannot be empty"));
        }
        i = i + 1;
    }
    let mut i: usize = 0;
    while i < query.sort.len()
        invariant
            i <= query.sort@.len(),
            forall|j: int| 0 <= j < i ==> !blank(#[trigger] query.sort@[j]@),
        decreases query.sort@.len() - i,
    {
        if is_blank(query.sort[i].as_str()) {
            return Err(SearchError::invalid_query("Sort field cannot be empty"));
        }
        i = i + 1;
    }
    Ok(())
}

/// Size of a document in bytes: its id and its content.
pub open spec fn doc_size(doc: Doc) -> int {
    utf8_len(doc.id@) + utf8_len(doc.content@)
}

/// The size of a document in bytes (id and content).
pub fn document_size(doc: &Doc) -> (r: usize)
    requires
        doc_size(*doc) <= usize::MAX,
    ensures
        r == doc_size(*doc),
{
    doc.id.as_str().len() + doc.content.as_str().len()
}


/// Total size in bytes of the documents.
pub open spec fn total_size(docs: Seq<Doc>) -> int
    decreases docs.len(),
{
    if docs.len() == 0 {
        0
    } else {
        total_size(docs.drop_last()) + doc_size(docs.last())
    }
}

/// Batching documents in order: the batches closed so far, the batch being
/// filled, and its size in bytes. A batch is closed before a document when
/// it holds `max_batch_size` documents, or when it is not empty and the
/// document would take it over `max_bytes`.
pub open spec fn batching(docs: Seq<Doc>, max_batch_size: usize, max_bytes: usize) -> (Seq<Seq<Doc>>, Seq<Doc>, int)
    decreases docs.len(),
{
    if docs.len() == 0 {
        (seq![], seq![], 0)
    } else {
        let (done, cur, size) = batching(docs.drop_last(), max_batch_size, max_bytes);
        let d = docs.last();
        if cur.len() >= max_batch_size || (size + doc_size(d) > max_bytes && cur.len() > 0) {
            (done.push(cur), seq![d], doc_size(d))
        } else {
            (done, cur.push(d), size + doc_size(d))
        }
    }
}

/// The batches of a list of documents; the last one is kept when not empty.
pub open spec fn batches_of(docs: Seq<Doc>, max_batch_size: usize, max_bytes: usize) -> Seq<Seq<Doc>> {
    let (done, cur, _) = batching(docs, max_batch_size, max_bytes);
    if cur.len() > 0 {
        done.push(cur)
    } else {
        done
    }
}

proof fn lemma_batching_size(docs: Seq<Doc>, max_batch_size: usize, max_bytes: usize)
    ensures
        0 <= batching(docs, max_batch_size, max_bytes).2 <= total_size(docs),
    decreases docs.len(),
{
    if docs.len() > 0 {
        lemma_batching_size(docs.drop_last(), max_batch_size, max_bytes);
        lemma_total_size_nonneg(docs.drop_last());
    }
}

proof fn lemma_total_size_nonneg(docs: Seq<Doc>)
    ensures
        total_size(docs) >= 0,
    decreases docs.len(),
{
    if docs.len() > 0 {
        lemma_total_size_nonneg(docs.drop_last());
    }
}

proof fn lemma_total_size_prefix(docs: Seq<Doc>, n: int)
    requires
        0 <= n <= docs.len(),
    ensures
        total_size(docs.subrange(0, n)) <= total_size(docs),
    decreases docs.len(),
{
    if n < docs.len() {
        assert(docs.drop_last().subrange(0, n) =~= docs.subrange(0, n));
        lemma_total_size_prefix(docs.drop_last(), n);
    } else {
        assert(docs.subrange(0, n) =~= docs);
    }
}

fn copy_doc(d: &Doc) -> (r: Doc)
    ensures
        r == *d,
{
    Doc { id: d.id.clone(), content: d.content.clone() }
}

pub open spec fn batches_view(b: Seq<Vec<Doc>>) -> Seq<Seq<Doc>> {
    b.map_values(|v: Vec<Doc>| v@)
}

/// Splits documents into batches of at most `max_batch_size` documents and,
/// where a batch holds more than one document, at most `max_bytes` bytes.
pub fn batch_documents(docs: Vec<Doc>, max_batch_size: usize, max_bytes: usize) -> (r: Vec<Vec<Doc>>)
    requires
        total_size(docs@) <= usize::MAX,
    ensures
        batches_view(r@) == batches_of(docs@, max_batch_size, max_bytes),
{
    let mut batches: Vec<Vec<Doc>> = Vec::new();
    let mut current: Vec<Doc> = Vec::new();
    let mut current_size: usize = 0;
    let mut i: usize = 0;
    while i < docs.len()
        invariant
            i <= docs@.len(),
            total_size(docs@) <= usize::MAX,
            (batches_view(batches@), current@, current_size as int) == batching(
                docs@.subrange(0, i as int),
                max_batch_size,
                max_bytes,
            ),
        decreases docs@.len() - i,
    {
        let ghost prefix = docs@.subrange(0, i + 1);
        proof {
            assert(prefix.drop_last() =~= docs@.subrange(0, i as int));
            assert(prefix.last() == docs@[i as int]);
            lemma_batching_size(docs@.subrange(0, i as int), max_batch_size, max_bytes);
            lemma_total_size_prefix(docs@, i + 1);
            lemma_total_size_nonneg(docs@.subrange(0, i as int));
        }
        let doc = copy_doc(&docs[i]);
        let size = document_size(&doc);
        if current.len() >= max_batch_size || (current_size + size > max_bytes && current.len() > 0) {
            let ghost prev = batches@;
            batches.push(current);
            assert(batches_view(batches@) =~= batches_view(prev).push(current@));
            current = Vec::new();
            current_size = 0;
        }
        current.push(doc);
        current_size = current_size + size;
        i = i + 1;
    }
    assert(docs@.subrange(0, docs@.len() as int) =~= docs@);
    if current.len() > 0 {
        let ghost prev = batches@;
        batches.push(current);
        assert(batches_view(batches@) =~= batches_view(prev).push(current@));
    }
    batches
}


/// A document is well formed: an id that is not blank and content that is JSON.
pub open spec fn well_formed_doc(doc: Doc) -> bool {
    !blank(doc.id@) && parsed_json(doc.content@) is Some
}

/// Checks that a document has an id and JSON content.
pub fn validate_document(doc: &Doc) -> (r: Result<(), SearchError>)
    ensures
        r is Ok <==> well_formed_doc(*doc),
        r matches Err(e) ==> e is InvalidQuery,
{
    if is_blank(doc.id.as_str()) {
        return Err(SearchError::invalid_query("Document ID cannot be empty"));
    }
    if parse_json(doc.content.as_str()).is_none() {
        return Err(SearchError::invalid_query("Invalid JSON content"));
    }
    Ok(())
}

/// The JSON text of a field of a document's content, when the content is a
/// JSON object with that field.
pub fn extract_field(doc: &Doc, field: &str) -> (r: Result<Option<String>, SearchError>)
    ensures
        parsed_json(doc.content@) is None ==> (r matches Err(e) && e is InvalidQuery),
        parsed_json(doc.content@) matches Some(v) ==> (r matches Ok(t) && opt_view(t) == json_member(v, field@)),
{
    match parse_json(doc.content.as_str()) {
        Some(v) => Ok(member_text(&v, field)),
        None => Err(SearchError::invalid_query("Document content is not valid JSON")),
    }
}

} // verus!
