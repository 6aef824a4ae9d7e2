//! Streaming emulated by a sequence of page queries.
use vstd::prelude::*;
use crate::error::SearchError;
use crate::types::{
    HighlightConfig, HitView, ResultsView, SearchConfig, SearchHit, SearchQuery, SearchResults, copy_opt_string,
    hits_view, opt_view,
};

verus! {

/// Two highlight configurations hold the same values.
pub open spec fn same_highlight(a: Option<HighlightConfig>, b: Option<HighlightConfig>) -> bool {
    match (a, b) {
        (Some(x), Some(y)) => x.fields@ == y.fields@ && x.pre_tag == y.pre_tag && x.post_tag == y.post_tag
            && x.max_length == y.max_length,
        (None, None) => true,
        _ => false,
    }
}

/// Two search configurations hold the same values.
pub open spec fn same_config(a: Option<SearchConfig>, b: Option<SearchConfig>) -> bool {
    match (a, b) {
        (Some(x), Some(y)) => x.timeout_ms == y.timeout_ms && x.boost_fields@ == y.boost_fields@
            && x.attributes_to_retrieve@ == y.attributes_to_retrieve@ && x.language == y.language
            && x.typo_tolerance == y.typo_tolerance && x.exact_match_boost == y.exact_match_boost
            && x.provider_params == y.provider_params,
        (None, None) => true,
        _ => false,
    }
}

/// Two queries agree on everything but the page and the page size.
pub open spec fn same_but_paging(a: SearchQuery, b: SearchQuery) -> bool {
    &&& a.q == b.q
    &&& a.filters@ == b.filters@
    &&& a.sort@ == b.sort@
    &&& a.facets@ == b.facets@
    &&& a.offset == b.offset
    &&& same_highlight(a.highlight, b.highlight)
    &&& same_config(a.config, b.config)
}

fn copy_strings(v: &Vec<String>) -> (r: Vec<String>)
    ensures
        r@ == v@,
{
    let mut out: Vec<String> = Vec::new();
    let mut i: usize = 0;
    while i < v.len()
        invariant
            i <= v@.len(),
            out@ == v@.subrange(0, i as int),
        decreases v@.len() - i,
    {
        out.push(v[i].clone());
        assert(out@ =~= v@.subrange(0, i + 1));
        i = i + 1;
    }
    assert(v@.subrange(0, v@.len() as int) =~= v@);
    out
}

fn copy_boosts(v: &Vec<(String, u32)>) -> (r: Vec<(String, u32)>)
    ensures
        r@ == v@,
{
    let mut out: Vec<(String, u32)> = Vec::new();
    let mut i: usize = 0;
    while i < v.len()
        invariant
            i <= v@.len(),
            out@ == v@.subrange(0, i as int),
        decreases v@.len() - i,
    {
        out.push((v[i].0.clone(), v[i].1));
        assert(out@ =~= v@.subrange(0, i + 1));
        i = i + 1;
    }
    assert(v@.subrange(0, v@.len() as int) =~= v@);
    out
}

fn copy_query(q: &SearchQuery) -> (r: SearchQuery)
    ensures
        same_but_paging(r, *q),
        r.page == q.page,
        r.per_page == q.per_page,
{
    let highlight = match &q.highlight {
        Some(h) => Some(HighlightConfig {
            fields: copy_strings(&h.fields),
            pre_tag: copy_opt_string(&h.pre_tag),
            post_tag: copy_opt_string(&h.post_tag),
            max_length: h.max_length,
        }),
        None => None,
    };
    let config = match &q.config {
        Some(c) => Some(SearchConfig {
            timeout_ms: c.timeout_ms,
            boost_fields: copy_boosts(&c.boost_fields),
            attributes_to_retrieve: copy_strings(&c.attributes_to_retrieve),
            language: copy_opt_string(&c.language),
            typo_tolerance: c.typo_tolerance,
            exact_match_boost: c.exact_match_boost,
            provider_params: copy_opt_string(&c.provider_params),
        }),
        None => None,
    };
    SearchQuery {
        q: copy_opt_string(&q.q),
        filters: copy_strings(&q.filters),
        sort: copy_strings(&q.sort),
        facets: copy_strings(&q.facets),
        page: q.page,
        per_page: q.per_page,
        offset: q.offset,
        highlight,
        config,
    }
}

fn copy_hit(h: &SearchHit) -> (r: SearchHit)
    ensures
        r@ == h@,
{
    SearchHit {
        id: h.id.clone(),
        score: h.score,
        content: copy_opt_string(&h.content),
        highlights: copy_opt_string(&h.highlights),
    }
}

/// Pages queried when no maximum is given.
pub const DEFAULT_MAX_PAGES: u32 = 10;

/// The hits of all pages, in page order.
pub open spec fn all_hits(pages: Seq<SearchResults>) -> Seq<HitView>
    decreases pages.len(),
{
    if pages.len() == 0 {
        seq![]
    } else {
        all_hits(pages.drop_last()) + hits_view(pages.last().hits@)
    }
}

/// The time taken by all pages; a page without a time counts 0.
pub open spec fn total_took(pages: Seq<SearchResults>) -> nat
    decreases pages.len(),
{
    if pages.len() == 0 {
        0
    } else {
        total_took(pages.drop_last()) + match pages.last().took_ms {
            Some(t) => t as nat,
            None => 0,
        }
    }
}

/// Emulates a stream of results with a sequence of page queries.
pub struct StreamingFallback {
    page_size: u32,
    max_pages: Option<u32>,
}

impl StreamingFallback {
    pub closed spec fn spec_page_size(&self) -> u32 {
        self.page_size
    }

    pub closed spec fn spec_max_pages(&self) -> Option<u32> {
        self.max_pages
    }

    /// A fallback reading pages of `page_size` hits, at most `max_pages` of them (10 when absent).
    pub fn new(page_size: u32, max_pages: Option<u32>) -> (r: Self)
        ensures
            r.spec_page_size() == page_size,
            r.spec_max_pages() == max_pages,
    {
        StreamingFallback { page_size, max_pages }
    }

    /// The page queries for a stream: pages 0, 1, ... up to the maximum, each
    /// of the configured size, the query otherwise unchanged.
    pub fn paginate_query(&self, query: &SearchQuery) -> (r: Vec<SearchQuery>)
        ensures
            r@.len() == match self.spec_max_pages() {
                Some(m) => m,
                None => DEFAULT_MAX_PAGES,
            },
            forall|i: int|
                0 <= i < r@.len() ==> {
                    &&& #[trigger] r@[i].page == Some(i as u32)
                    &&& r@[i].per_page == Some(self.spec_page_size())
                    &&& same_but_paging(r@[i], *query)
                },
    {
        let max_pages = match self.max_pages {
            Some(m) => m,
            None => DEFAULT_MAX_PAGES,
        };
        let mut queries: Vec<SearchQuery> = Vec::new();
        let mut page: u32 = 0;
        while page < max_pages
            invariant
                page <= max_pages,
                queries@.len() == page,
                forall|i: int|
                    0 <= i < queries@.len() ==> {
                        &&& #[trigger] queries@[i].page == Some(i as u32)
                        &&& queries@[i].per_page == Some(self.page_size)
                        &&& same_but_paging(queries@[i], *query)
                    },
            decreases max_pages - page,
        {
            let mut paged = copy_query(query);
            paged.page = Some(page);
            paged.per_page = Some(self.page_size);
            queries.push(paged);
            page = page + 1;
        }
        queries
    }

    /// Joins the pages of a stream into one result set: all hits in order,
    /// the times added up, the total and facets of the first page, page 0,
    /// and the number of hits as page size. No page gives an empty set.
    pub fn combine_results(&self, page_results: Vec<SearchResults>) -> (r: Result<SearchResults, SearchError>)
        requires
            total_took(page_results@) <= u32::MAX,
        ensures
            r is Ok,
            page_results@.len() == 0 ==> (r matches Ok(c) && c@ == (ResultsView {
                total: Some(0u32),
                page: Some(0u32),
                per_page: Some(self.spec_page_size()),
                hits: seq![],
                facets: None,
                took_ms: Some(0u32),
            })),
            page_results@.len() > 0 ==> (r matches Ok(c) && c@ == (ResultsView {
                total: page_results@[0].total,
                page: Some(0u32),
                per_page: Some(#[verifier::truncate] (all_hits(page_results@).len() as u32)),
                hits: all_hits(page_results@),
                facets: opt_view(page_results@[0].facets),
                took_ms: Some(total_took(page_results@) as u32),
            })),
    {
        if page_results.len() == 0 {
            let empty = SearchResults {
                total: Some(0),
                page: Some(0),
                per_page: Some(self.page_size),
                hits: Vec::new(),
                facets: None,
                took_ms: Some(0),
            };
            assert(empty@.hits =~= seq![]);
            return Ok(empty);
        }
        let mut hits: Vec<SearchHit> = Vec::new();
        let mut took: u32 = 0;
        let mut i: usize = 0;
        while i < page_results.len()
            invariant
                i <= page_results@.len(),
                total_took(page_results@) <= u32::MAX,
                hits_view(hits@) == all_hits(page_results@.subrange(0, i as int)),
                took == total_took(page_results@.subrange(0, i as int)),
            decreases page_results@.len() - i,
        {
            let ghost pre = page_results@.subrange(0, i as int);
            let ghost next = page_results@.subrange(0, i + 1);
            proof {
                assert(next.drop_last() =~= pre);
                lemma_total_took_prefix(page_results@, i + 1);
            }
            let page_hits = &page_results[i].hits;
            let mut j: usize = 0;
            let ghost start = hits_view(hits@);
            while j < page_hits.len()
                invariant
                    j <= page_hits@.len(),
                    hits_view(hits@) == start + hits_view(page_hits@.subrange(0, j as int)),
                decreases page_hits@.len() - j,
            {
                let ghost prev = hits@;
                hits.push(copy_hit(&page_hits[j]));
                assert(hits_view(hits@) =~= hits_view(prev).push(page_hits@[j as int]@));
                assert(hits_view(page_hits@.subrange(0, j + 1)) =~= hits_view(page_hits@.subrange(0, j as int)).push(
                    page_hits@[j as int]@,
                ));
                j = j + 1;
            }
            assert(page_hits@.subrange(0, page_hits@.len() as int) =~= page_hits@);
            if let Some(t) = page_results[i].took_ms {
                took = took + t;
            }
            i = i + 1;
        }
        assert(page_results@.subrange(0, page_results@.len() as int) =~= page_results@);
        #[verifier::truncate]
        let count = hits.len() as u32;
        let first = &page_results[0];
        Ok(SearchResults {
            total: first.total,
            page: Some(0),
            per_page: Some(count),
            hits,
            facets: copy_opt_string(&first.facets),
            took_ms: Some(took),
        })
    }
}

proof fn lemma_total_took_prefix(pages: Seq<SearchResults>, n: int)
    requires
        0 <= n <= pages.len(),
    ensures
        total_took(pages.subrange(0, n)) <= total_took(pages),
    decreases pages.len(),
{
    if n < pages.len() {
        assert(pages.drop_last().subrange(0, n) =~= pages.subrange(0, n));
        lemma_total_took_prefix(pages.drop_last(), n);
    } else {
        assert(pages.subrange(0, n) =~= pages);
    }
}

} // verus!
