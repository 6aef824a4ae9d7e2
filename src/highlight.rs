//! Search terms of a query and highlighted snippets of document text.
use vstd::prelude::*;
use crate::json::{JsonValue, highlights_json, json_member, parsed_json};
use crate::text::{
    occurs_at,
    chars_eq, chars_of, char_is_alphanumeric, char_is_whitespace, find_chars, first_match, is_alnum, is_ws,
    lex_lt, lex_less, lower_of, string_of, to_lowercase,
};
use crate::types::{HitView, SearchQuery, strings_view};

verus! {

/// Splitting a text on whitespace: the words completed so far and the word in progress.
pub open spec fn split_state(s: Seq<char>) -> (Seq<Seq<char>>, Seq<char>)
    decreases s.len(),
{
    if s.len() == 0 {
        (seq![], seq![])
    } else {
        let (done, cur) = split_state(s.drop_last());
        if is_ws(s.last()) {
            if cur.len() > 0 {
                (done.push(cur), seq![])
            } else {
                (done, seq![])
            }
        } else {
            (done, cur.push(s.last()))
        }
    }
}

/// The maximal runs of non-whitespace characters of a text (what `str::split_whitespace` yields).
pub open spec fn words(s: Seq<char>) -> Seq<Seq<char>> {
    let (done, cur) = split_state(s);
    if cur.len() > 0 {
        done.push(cur)
    } else {
        done
    }
}

/// The alphanumeric characters of a word, in order.
pub open spec fn keep_alnum(w: Seq<char>) -> Seq<char>
    decreases w.len(),
{
    if w.len() == 0 {
        seq![]
    } else if is_alnum(w.last()) {
        keep_alnum(w.drop_last()).push(w.last())
    } else {
        keep_alnum(w.drop_last())
    }
}

/// The search term a word gives: its alphanumeric characters, lower-cased,
/// kept only when longer than two bytes.
pub open spec fn word_terms(w: Seq<char>) -> Seq<Seq<char>> {
    let t = lower_of(keep_alnum(w));
    if crate::capabilities::utf8_len(t) > 2 {
        seq![t]
    } else {
        seq![]
    }
}

pub open spec fn terms_of_words(ws: Seq<Seq<char>>) -> Seq<Seq<char>>
    decreases ws.len(),
{
    if ws.len() == 0 {
        seq![]
    } else {
        terms_of_words(ws.drop_last()) + word_terms(ws.last())
    }
}

/// The terms of a query's free text, in order.
pub open spec fn query_terms(q: Option<String>) -> Seq<Seq<char>> {
    match q {
        Some(t) => terms_of_words(words(t@)),
        None => seq![],
    }
}

fn push_word_term(terms: &mut Vec<String>, word: &Vec<char>)
    ensures
        strings_view(final(terms)@) == strings_view(old(terms)@) + word_terms(word@),
{
    let ghost before = strings_view(old(terms)@);
    let mut kept: Vec<char> = Vec::new();
    let mut i: usize = 0;
    while i < word.len()
        invariant
            i <= word@.len(),
            kept@ == keep_alnum(word@.subrange(0, i as int)),
        decreases word@.len() - i,
    {
        proof {
            let w = word@.subrange(0, i + 1);
            assert(w.drop_last() =~= word@.subrange(0, i as int));
            assert(w.last() == word@[i as int]);
        }
        if char_is_alphanumeric(word[i]) {
            kept.push(word[i]);
        }
        i = i + 1;
    }
    assert(word@.subrange(0, word@.len() as int) =~= word@);
    let clean = to_lowercase(string_of(&kept).as_str());
    if clean.as_str().len() > 2 {
        terms.push(clean);
    }
    assert(strings_view(terms@) =~= before + word_terms(word@));
}

/// The search terms of a query's free text: words split on whitespace,
/// stripped of non-alphanumeric characters, lower-cased, longer than two bytes.
pub(crate) fn extract_search_terms(query: &SearchQuery) -> (r: Vec<String>)
    ensures
        strings_view(r@) == query_terms(query.q),
{
    let mut terms: Vec<String> = Vec::new();
    if let Some(q) = &query.q {
        let chars = chars_of(q.as_str());
        let mut cur: Vec<char> = Vec::new();
        let ghost mut done: Seq<Seq<char>> = seq![];
        let mut i: usize = 0;
        while i < chars.len()
            invariant
                i <= chars@.len(),
                (done, cur@) == split_state(chars@.subrange(0, i as int)),
                strings_view(terms@) == terms_of_words(done),
            decreases chars@.len() - i,
        {
            let c = chars[i];
            proof {
                let s = chars@.subrange(0, i + 1);
                assert(s.drop_last() =~= chars@.subrange(0, i as int));
                assert(s.last() == c);
            }
            if char_is_whitespace(c) {
                if cur.len() > 0 {
                    push_word_term(&mut terms, &cur);
                    proof {
                        assert(done.push(cur@).drop_last() =~= done);
                        done = done.push(cur@);
                    }
                    cur = Vec::new();
                }
            } else {
                cur.push(c);
            }
            i = i + 1;
        }
        assert(chars@.subrange(0, chars@.len() as int) =~= chars@);
        if cur.len() > 0 {
            push_word_term(&mut terms, &cur);
            assert(done.push(cur@).drop_last() =~= done);
        }
    }
    terms
}


/// How the `regex` crate cuts a snippet around the case-insensitive,
/// whole-word matches of `term`: the texts between matches, and the matches,
/// in order. `None` when the pattern is refused.
pub uninterp spec fn term_pieces(snippet: Seq<char>, term: Seq<char>) -> Option<(Seq<Seq<char>>, Seq<Seq<char>>)>;

/// Relies on `regex::Regex::new` with `(?i)\b<term>\b` (the term escaped by
/// `regex::escape`), `Regex::split` for the texts between the matches and
/// `Regex::find_iter` for the matches; `None` when the pattern is refused
/// (over the crate's size limit).
#[verifier::external_body]
fn find_term(snippet: &str, term: &str) -> (r: Option<(Vec<String>, Vec<String>)>)
    ensures
        r matches Some(p) ==> term_pieces(snippet@, term@) == Some((strings_view(p.0@), strings_view(p.1@))),
        r is None ==> term_pieces(snippet@, term@) is None,
{
    let re = regex::Regex::new(&format!(r"(?i)\b{}\b", regex::escape(term))).ok()?;
    let gaps = re.split(snippet).map(|g| g.to_string()).collect();
    let found = re.find_iter(snippet).map(|m| m.as_str().to_string()).collect();
    Some((gaps, found))
}

/// The pieces from the `i`-th on, joined back in order, each match wrapped
/// in `pre` and `post`.
pub open spec fn wrap_pieces(
    gaps: Seq<Seq<char>>,
    found: Seq<Seq<char>>,
    pre: Seq<char>,
    post: Seq<char>,
    i: int,
) -> Seq<char>
    decreases gaps.len() - i,
{
    if i < 0 || i >= gaps.len() {
        seq![]
    } else {
        gaps[i] + (if i < found.len() { pre + found[i] + post } else { seq![] }) + wrap_pieces(
            gaps,
            found,
            pre,
            post,
            i + 1,
        )
    }
}

/// A snippet with every case-insensitive, whole-word match of `term`
/// wrapped in `pre` and `post`; the snippet as it is when the pattern is refused.
pub open spec fn marked(snippet: Seq<char>, term: Seq<char>, pre: Seq<char>, post: Seq<char>) -> Seq<char> {
    match term_pieces(snippet, term) {
        Some(p) => wrap_pieces(p.0, p.1, pre, post, 0),
        None => snippet,
    }
}

proof fn lemma_wrap_pieces_contains(
    g: Seq<Seq<char>>,
    f: Seq<Seq<char>>,
    pre: Seq<char>,
    post: Seq<char>,
    i: int,
    k: int,
)
    requires
        0 <= i <= k,
        k < g.len(),
        k < f.len(),
    ensures
        exists|j: int| occurs_at(wrap_pieces(g, f, pre, post, i), pre + f[k] + post, j),
    decreases g.len() - i,
{
    let w = pre + f[k] + post;
    let mid = if i < f.len() { pre + f[i] + post } else { seq![] };
    let rest = wrap_pieces(g, f, pre, post, i + 1);
    let whole = wrap_pieces(g, f, pre, post, i);
    assert(whole == g[i] + mid + rest);
    if k == i {
        let j = g[i].len() as int;
        assert(whole.subrange(j, j + w.len()) =~= w);
        assert(occurs_at(whole, w, j));
    } else {
        lemma_wrap_pieces_contains(g, f, pre, post, i + 1, k);
        let j0 = choose|j: int| occurs_at(rest, w, j);
        let j = g[i].len() + mid.len() + j0;
        assert(whole.subrange(j, j + w.len()) =~= rest.subrange(j0, j0 + w.len()));
        assert(occurs_at(whole, w, j));
    }
}

/// Every match that the pattern finds comes back in the marked snippet
/// between `pre` and `post`.
pub proof fn lemma_marked_wraps_matches(snippet: Seq<char>, term: Seq<char>, pre: Seq<char>, post: Seq<char>, k: int)
    requires
        term_pieces(snippet, term) matches Some(p) && 0 <= k < p.1.len() && k < p.0.len(),
    ensures
        exists|j: int| occurs_at(marked(snippet, term, pre, post), pre + term_pieces(snippet, term).unwrap().1[k] + post, j),
{
    let p = term_pieces(snippet, term).unwrap();
    lemma_wrap_pieces_contains(p.0, p.1, pre, post, 0, k);
    let w = pre + p.1[k] + post;
    let j = choose|j: int| occurs_at(wrap_pieces(p.0, p.1, pre, post, 0), w, j);
    assert(marked(snippet, term, pre, post) == wrap_pieces(p.0, p.1, pre, post, 0));
    assert(occurs_at(marked(snippet, term, pre, post), w, j));
}

/// A matched text between its tags.
pub fn wrap_match(pre: &str, m: &str, post: &str) -> (r: String)
    ensures
        r@ == pre@ + m@ + post@,
{
    let mut out = String::from_str(pre);
    out.append(m);
    out.append(post);
    out
}

fn mark_term(snippet: &str, term: &str, pre: &str, post: &str) -> (r: String)
    ensures
        r@ == marked(snippet@, term@, pre@, post@),
{
    match find_term(snippet, term) {
        Some(pieces) => {
            let gaps = &pieces.0;
            let found = &pieces.1;
            let ghost g = strings_view(gaps@);
            let ghost f = strings_view(found@);
            let mut out = String::new();
            let mut i: usize = 0;
            assert(out@ + wrap_pieces(g, f, pre@, post@, 0) =~= wrap_pieces(g, f, pre@, post@, 0));
            while i < gaps.len()
                invariant
                    i <= gaps@.len(),
                    g == strings_view(gaps@),
                    f == strings_view(found@),
                    wrap_pieces(g, f, pre@, post@, 0) == out@ + wrap_pieces(g, f, pre@, post@, i as int),
                decreases gaps@.len() - i,
            {
                let ghost before = out@;
                out.append(gaps[i].as_str());
                if i < found.len() {
                    let w = wrap_match(pre, found[i].as_str(), post);
                    out.append(w.as_str());
                    assert(out@ =~= before + g[i as int] + (pre@ + f[i as int] + post@));
                } else {
                    assert(out@ =~= before + g[i as int] + seq![]);
                }
                assert(before + wrap_pieces(g, f, pre@, post@, i as int) =~= out@ + wrap_pieces(
                    g,
                    f,
                    pre@,
                    post@,
                    i + 1,
                ));
                i = i + 1;
            }
            assert(out@ + wrap_pieces(g, f, pre@, post@, i as int) =~= out@);
            out
        },
        None => String::from_str(snippet),
    }
}

/// Characters kept on each side of a match.
pub const CONTEXT_CHARS: usize = 50;

/// Most snippets kept per field.
pub const MAX_SNIPPETS: usize = 3;

pub open spec fn min_int(a: int, b: int) -> int {
    if a <= b {
        a
    } else {
        b
    }
}

/// The snippet for one term: the first match of the term in the lower-cased
/// text, with up to 50 characters on each side (at most `max_length` in all),
/// clipped to the text, the term marked in it.
pub open spec fn term_snippet(
    text: Seq<char>,
    term: Seq<char>,
    pre: Seq<char>,
    post: Seq<char>,
    max_length: Option<u32>,
) -> Seq<Seq<char>> {
    match first_match(lower_of(text), term) {
        Some(pos) => {
            let start = if pos >= CONTEXT_CHARS { pos - CONTEXT_CHARS } else { 0 };
            let after = pos + term.len() + CONTEXT_CHARS;
            let capped = match max_length {
                Some(m) => min_int(after, start + m),
                None => after,
            };
            let end = min_int(capped, text.len() as int);
            if start < text.len() {
                seq![marked(text.subrange(start, end), term, pre, post)]
            } else {
                seq![]
            }
        },
        None => seq![],
    }
}

/// The snippets of all terms, in term order.
pub open spec fn raw_snippets(
    text: Seq<char>,
    terms: Seq<Seq<char>>,
    pre: Seq<char>,
    post: Seq<char>,
    max_length: Option<u32>,
) -> Seq<Seq<char>>
    decreases terms.len(),
{
    if terms.len() == 0 {
        seq![]
    } else {
        raw_snippets(text, terms.drop_last(), pre, post, max_length) + term_snippet(
            text,
            terms.last(),
            pre,
            post,
            max_length,
        )
    }
}

/// `x` put into a sorted sequence of distinct texts, unless already there.
pub open spec fn insert_sorted(s: Seq<Seq<char>>, x: Seq<char>) -> Seq<Seq<char>>
    decreases s.len(),
{
    if s.len() == 0 {
        seq![x]
    } else if s[0] == x {
        s
    } else if lex_lt(x, s[0]) {
        seq![x] + s
    } else {
        seq![s[0]] + insert_sorted(s.drop_first(), x)
    }
}

/// The distinct texts of `s`, sorted.
pub open spec fn sort_dedup(s: Seq<Seq<char>>) -> Seq<Seq<char>>
    decreases s.len(),
{
    if s.len() == 0 {
        seq![]
    } else {
        insert_sorted(sort_dedup(s.drop_last()), s.last())
    }
}

/// The first `n` elements, or all when there are fewer.
pub open spec fn take_at_most<A>(s: Seq<A>, n: int) -> Seq<A> {
    if s.len() > n {
        s.take(n)
    } else {
        s
    }
}

/// The highlighted snippets of a text: sorted, without duplicates, at most three.
pub open spec fn text_highlights(
    text: Seq<char>,
    terms: Seq<Seq<char>>,
    pre: Seq<char>,
    post: Seq<char>,
    max_length: Option<u32>,
) -> Seq<Seq<char>> {
    take_at_most(sort_dedup(raw_snippets(text, terms, pre, post, max_length)), MAX_SNIPPETS as int)
}

/// Each text comes before the next in lexicographic order (so none repeats).
pub open spec fn strictly_sorted(s: Seq<Seq<char>>) -> bool {
    forall|i: int, j: int| 0 <= i < j < s.len() ==> lex_lt(#[trigger] s[i], #[trigger] s[j])
}

proof fn lemma_insert_sorted(s: Seq<Seq<char>>, x: Seq<char>)
    requires
        strictly_sorted(s),
    ensures
        strictly_sorted(insert_sorted(s, x)),
        forall|y: Seq<char>| #[trigger] insert_sorted(s, x).contains(y) <==> (s.contains(y) || y == x),
    decreases s.len(),
{
    if s.len() == 0 {
        assert forall|y: Seq<char>| #[trigger] insert_sorted(s, x).contains(y) <==> (s.contains(y) || y == x) by {
            if y == x {
                assert(seq![x][0] == y);
            }
        }
    } else if s[0] == x {
        assert forall|y: Seq<char>| #[trigger] insert_sorted(s, x).contains(y) <==> (s.contains(y) || y == x) by {
            if y == x {
                assert(s[0] == y);
            }
        }
    } else if lex_lt(x, s[0]) {
        let r = seq![x] + s;
        assert forall|i: int, j: int| 0 <= i < j < r.len() implies lex_lt(#[trigger] r[i], #[trigger] r[j]) by {
            if i == 0 {
                if j > 1 {
                    crate::text::lemma_lex_transitive(x, s[0], s[j - 1]);
                }
            }
        }
        assert forall|y: Seq<char>| #[trigger] r.contains(y) <==> (s.contains(y) || y == x) by {
            if s.contains(y) {
                let k = choose|k: int| 0 <= k < s.len() && s[k] == y;
                assert(r[k + 1] == y);
            }
            if y == x {
                assert(r[0] == x);
            }
        }
    } else {
        let rest = s.drop_first();
        assert(strictly_sorted(rest)) by {
            assert forall|i: int, j: int| 0 <= i < j < rest.len() implies lex_lt(#[trigger] rest[i], #[trigger] rest[j]) by {
                assert(lex_lt(s[i + 1], s[j + 1]));
            }
        }
        lemma_insert_sorted(rest, x);
        let tail = insert_sorted(rest, x);
        let r = seq![s[0]] + tail;
        crate::text::lemma_lex_total(x, s[0]);
        assert(lex_lt(s[0], x));
        assert forall|i: int, j: int| 0 <= i < j < r.len() implies lex_lt(#[trigger] r[i], #[trigger] r[j]) by {
            if i == 0 {
                assert(tail.contains(r[j]));
                if rest.contains(r[j]) {
                    let k = choose|k: int| 0 <= k < rest.len() && rest[k] == r[j];
                    assert(lex_lt(s[0], s[k + 1]));
                }
            } else {
                assert(r[i] == tail[i - 1] && r[j] == tail[j - 1]);
            }
        }
        assert forall|y: Seq<char>| #[trigger] r.contains(y) <==> (s.contains(y) || y == x) by {
            if r.contains(y) {
                let k = choose|k: int| 0 <= k < r.len() && r[k] == y;
                if k > 0 {
                    assert(tail.contains(y));
                    if rest.contains(y) {
                        let m = choose|m: int| 0 <= m < rest.len() && rest[m] == y;
                        assert(s[m + 1] == y);
                    }
                } else {
                    assert(s[0] == y);
                }
            }
            if s.contains(y) {
                let k = choose|k: int| 0 <= k < s.len() && s[k] == y;
                if k > 0 {
                    assert(rest[k - 1] == y);
                    assert(tail.contains(y));
                    let m = choose|m: int| 0 <= m < tail.len() && tail[m] == y;
                    assert(r[m + 1] == y);
                } else {
                    assert(r[0] == y);
                }
            }
            if y == x {
                assert(tail.contains(y));
                let m = choose|m: int| 0 <= m < tail.len() && tail[m] == y;
                assert(r[m + 1] == y);
            }
        }
    }
}

proof fn lemma_sort_dedup(s: Seq<Seq<char>>)
    ensures
        strictly_sorted(sort_dedup(s)),
        forall|y: Seq<char>| #[trigger] sort_dedup(s).contains(y) <==> s.contains(y),
    decreases s.len(),
{
    if s.len() > 0 {
        lemma_sort_dedup(s.drop_last());
        lemma_insert_sorted(sort_dedup(s.drop_last()), s.last());
        assert forall|y: Seq<char>| #[trigger] sort_dedup(s).contains(y) <==> s.contains(y) by {
            if s.contains(y) {
                let k = choose|k: int| 0 <= k < s.len() && s[k] == y;
                if k < s.len() - 1 {
                    assert(s.drop_last()[k] == y);
                }
            }
            if s.drop_last().contains(y) {
                let k = choose|k: int| 0 <= k < s.drop_last().len() && s.drop_last()[k] == y;
                assert(s[k] == y);
            }
        }
    }
}

/// The highlights of a text are at most three snippets, in strictly
/// increasing order, each one of the snippets of the terms, and any snippet
/// left out comes after all three kept.
pub proof fn lemma_text_highlights_shape(
    text: Seq<char>,
    terms: Seq<Seq<char>>,
    pre: Seq<char>,
    post: Seq<char>,
    max_length: Option<u32>,
)
    ensures
        ({
            let raw = raw_snippets(text, terms, pre, post, max_length);
            let h = text_highlights(text, terms, pre, post, max_length);
            &&& h.len() <= MAX_SNIPPETS
            &&& strictly_sorted(h)
            &&& forall|i: int| 0 <= i < h.len() ==> raw.contains(#[trigger] h[i])
            &&& forall|y: Seq<char>|
                #[trigger] raw.contains(y) ==> h.contains(y) || (h.len() == MAX_SNIPPETS && lex_lt(
                    h[MAX_SNIPPETS - 1],
                    y,
                ))
        }),
{
    let raw = raw_snippets(text, terms, pre, post, max_length);
    let d = sort_dedup(raw);
    lemma_sort_dedup(raw);
    let h = text_highlights(text, terms, pre, post, max_length);
    assert forall|i: int| 0 <= i < h.len() implies raw.contains(#[trigger] h[i]) by {
        assert(d[i] == h[i]);
        assert(d.contains(h[i]));
    }
    assert forall|y: Seq<char>| #[trigger] raw.contains(y) implies h.contains(y) || (h.len() == MAX_SNIPPETS
        && lex_lt(h[MAX_SNIPPETS - 1], y)) by {
        assert(d.contains(y));
        let k = choose|k: int| 0 <= k < d.len() && d[k] == y;
        if k < MAX_SNIPPETS {
            assert(h[k] == y);
        } else {
            assert(lex_lt(d[MAX_SNIPPETS - 1], d[k]));
        }
    }
}

pub open spec fn chars_view(v: Seq<Vec<char>>) -> Seq<Seq<char>> {
    v.map_values(|c: Vec<char>| c@)
}

fn insert_sorted_exec(v: &mut Vec<Vec<char>>, x: Vec<char>)
    ensures
        chars_view(final(v)@) == insert_sorted(chars_view(old(v)@), x@),
{
    let ghost whole = chars_view(old(v)@);
    let mut i: usize = 0;
    assert(whole.subrange(0, whole.len() as int) =~= whole);
    assert(whole.subrange(0, 0) + whole.subrange(0, whole.len() as int) =~= whole);
    while i < v.len()
        invariant
            i <= v@.len(),
            v@ == old(v)@,
            whole == chars_view(old(v)@),
            insert_sorted(whole, x@) == whole.subrange(0, i as int) + insert_sorted(
                whole.subrange(i as int, whole.len() as int),
                x@,
            ),
        decreases v@.len() - i,
    {
        let ghost rest = whole.subrange(i as int, whole.len() as int);
        assert(rest[0] == v@[i as int]@);
        if chars_eq(&v[i], &x) {
            assert(whole.subrange(0, i as int) + rest =~= whole);
            return;
        }
        if lex_less(&x, &v[i]) {
            v.insert(i, x);
            assert(chars_view(v@) =~= whole.subrange(0, i as int) + (seq![x@] + rest));
            return;
        }
        assert(rest.drop_first() =~= whole.subrange(i + 1, whole.len() as int));
        assert(whole.subrange(0, i as int) + (seq![rest[0]] + insert_sorted(rest.drop_first(), x@))
            =~= whole.subrange(0, i + 1) + insert_sorted(rest.drop_first(), x@));
        i = i + 1;
    }
    let ghost before = v@;
    v.push(x);
    assert(chars_view(v@) =~= whole.subrange(0, i as int) + seq![x@]);
}

fn window_end(pos: usize, term_len: usize, start: usize, max_length: Option<u32>, text_len: usize) -> (r: usize)
    ensures
        r == min_int(
            match max_length {
                Some(m) => min_int(pos + term_len + CONTEXT_CHARS, start + m),
                None => pos + term_len + CONTEXT_CHARS,
            },
            text_len as int,
        ),
{
    let after = pos.saturating_add(term_len).saturating_add(CONTEXT_CHARS);
    let capped = match max_length {
        Some(m) => {
            let limit = start.saturating_add(m as usize);
            if after <= limit {
                after
            } else {
                limit
            }
        },
        None => after,
    };
    if capped <= text_len {
        capped
    } else {
        text_len
    }
}

/// Highlights the search terms in a text: for each term found, a snippet
/// around its first occurrence with the term marked; the snippets sorted,
/// without duplicates, at most three.
pub(crate) fn highlight_text(
    text: &str,
    search_terms: &Vec<String>,
    pre_tag: &str,
    post_tag: &str,
    max_length: Option<u32>,
) -> (r: Vec<String>)
    ensures
        strings_view(r@) == text_highlights(text@, strings_view(search_terms@), pre_tag@, post_tag@, max_length),
{
    let text_chars = chars_of(text);
    let lowered = to_lowercase(text);
    let lower_chars = chars_of(lowered.as_str());
    let ghost terms = strings_view(search_terms@);
    let mut sorted: Vec<Vec<char>> = Vec::new();
    let mut t: usize = 0;
    while t < search_terms.len()
        invariant
            t <= search_terms@.len(),
            terms == strings_view(search_terms@),
            text_chars@ == text@,
            lower_chars@ == lower_of(text@),
            chars_view(sorted@) == sort_dedup(raw_snippets(text@, terms.subrange(0, t as int), pre_tag@, post_tag@, max_length)),
        decreases search_terms@.len() - t,
    {
        let ghost prefix = terms.subrange(0, t + 1);
        let ghost prev = raw_snippets(text@, terms.subrange(0, t as int), pre_tag@, post_tag@, max_length);
        let ghost here = term_snippet(text@, terms[t as int], pre_tag@, post_tag@, max_length);
        proof {
            assert(prefix.drop_last() =~= terms.subrange(0, t as int));
            assert(prefix.last() == terms[t as int]);
        }
        let term = &search_terms[t];
        let term_chars = chars_of(term.as_str());
        if let Some(pos) = find_chars(&lower_chars, &term_chars) {
            let start = if pos >= CONTEXT_CHARS { pos - CONTEXT_CHARS } else { 0 };
            let end = window_end(pos, term_chars.len(), start, max_length, text_chars.len());
            if start < text_chars.len() {
                let window = text.substring_char(start, end);
                let snippet = mark_term(window, term.as_str(), pre_tag, post_tag);
                let snippet_chars = chars_of(snippet.as_str());
                insert_sorted_exec(&mut sorted, snippet_chars);
                proof {
                    assert(here =~= seq![snippet@]);
                    assert((prev + here).drop_last() =~= prev);
                }
            } else {
                assert(prev + here =~= prev);
            }
        } else {
            assert(prev + here =~= prev);
        }
        t = t + 1;
    }
    assert(terms.subrange(0, terms.len() as int) =~= terms);
    let mut out: Vec<String> = Vec::new();
    let keep = if sorted.len() > MAX_SNIPPETS { MAX_SNIPPETS } else { sorted.len() };
    let mut k: usize = 0;
    while k < keep
        invariant
            keep <= sorted@.len(),
            k <= keep,
            strings_view(out@) == chars_view(sorted@).take(k as int),
        decreases keep - k,
    {
        out.push(string_of(&sorted[k]));
        assert(chars_view(sorted@).take(k + 1) =~= chars_view(sorted@).take(k as int).push(sorted@[k as int]@));
        assert(strings_view(out@) =~= chars_view(sorted@).take(k + 1));
        k = k + 1;
    }
    assert(chars_view(sorted@).take(keep as int) =~= take_at_most(chars_view(sorted@), MAX_SNIPPETS as int));
    out
}


/// The highlights of a document: for each requested field whose value is a
/// string, its snippets, when there are any.
pub open spec fn doc_highlights(
    doc: JsonValue,
    fields: Seq<Seq<char>>,
    terms: Seq<Seq<char>>,
    pre: Seq<char>,
    post: Seq<char>,
    max_length: Option<u32>,
) -> Seq<(Seq<char>, Seq<Seq<char>>)>
    decreases fields.len(),
{
    if fields.len() == 0 {
        seq![]
    } else {
        let before = doc_highlights(doc, fields.drop_last(), terms, pre, post, max_length);
        let field = fields.last();
        match json_member(doc, field) {
            Some(t) => match parsed_json(t) {
                Some(JsonValue::Str(text)) => {
                    let snippets = text_highlights(text@, terms, pre, post, max_length);
                    if snippets.len() > 0 {
                        before.push((field, snippets))
                    } else {
                        before
                    }
                },
                _ => before,
            },
            None => before,
        }
    }
}

/// A tag, or its default when absent.
pub open spec fn tag_or(tag: Option<String>, default: Seq<char>) -> Seq<char> {
    match tag {
        Some(t) => t@,
        None => default,
    }
}

/// A hit after client-side highlighting: its highlights are replaced only
/// when its content is JSON and some field yields snippets.
pub open spec fn highlighted_hit(
    h: HitView,
    fields: Seq<Seq<char>>,
    terms: Seq<Seq<char>>,
    pre: Seq<char>,
    post: Seq<char>,
    max_length: Option<u32>,
) -> HitView {
    match h.content {
        Some(c) => match parsed_json(c) {
            Some(doc) => {
                let hl = doc_highlights(doc, fields, terms, pre, post, max_length);
                if hl.len() > 0 {
                    HitView { highlights: Some(highlights_json(hl)), ..h }
                } else {
                    h
                }
            },
            None => h,
        },
        None => h,
    }
}

} // verus!
