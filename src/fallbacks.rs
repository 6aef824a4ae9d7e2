//! The fallback pass: client-side facets and highlights for features a
//! provider lacks, by a degradation strategy.
use vstd::prelude::*;
use crate::capabilities::{DegradationStrategy, FacetFallback, FeatureSupport, HighlightFallback, find_support, lookup_support};
use crate::error::SearchError;
use crate::facets::{client_facets, collect_field_keys, counts_view, tally_exec};
use crate::highlight::{doc_highlights, highlighted_hit, query_terms, tag_or};
use crate::highlight::{extract_search_terms, highlight_text, text_highlights};
use crate::json::{JsonValue, facets_json, facets_to_json, facets_view, highlights_to_json, highlights_view, member_text, parse_json};
use crate::types::{HitView, ResultsView, SearchHit, SearchQuery, SearchResults, copy_opt_string, hits_view, strings_view};
pub use crate::detection::{FeatureDetector, PerformanceImpact};
pub use crate::streaming::StreamingFallback;

verus! {

/// The support of a feature in a snapshot, `Unsupported` when absent.
pub open spec fn support_in(supported: Seq<(String, FeatureSupport)>, feature: Seq<char>) -> FeatureSupport {
    match lookup_support(supported, feature) {
        Some(f) => f,
        None => FeatureSupport::Unsupported,
    }
}

/// Facets were requested and the provider lacks them or emulates them.
pub open spec fn facets_degraded(q: SearchQuery, supported: Seq<(String, FeatureSupport)>) -> bool {
    q.facets@.len() > 0 && crate::capabilities::degrades(support_in(supported, "faceted_search"@))
}

/// Highlighting was requested and the provider lacks it or emulates it.
pub open spec fn highlights_degraded(q: SearchQuery, supported: Seq<(String, FeatureSupport)>) -> bool {
    q.highlight is Some && crate::capabilities::degrades(support_in(supported, "highlighting"@))
}

/// The result set after the facet fallback.
pub open spec fn with_facet_fallback(r: ResultsView, q: SearchQuery, policy: FacetFallback) -> ResultsView {
    match policy {
        FacetFallback::ClientSide => ResultsView {
            facets: Some(facets_json(client_facets(r.hits, strings_view(q.facets@)))),
            ..r
        },
        FacetFallback::Error => r,
        _ => ResultsView { facets: Some("{}"@), ..r },
    }
}

/// The result set after the highlight fallback.
pub open spec fn with_highlight_fallback(r: ResultsView, q: SearchQuery, policy: HighlightFallback) -> ResultsView {
    match policy {
        HighlightFallback::RemoveHighlights => ResultsView {
            hits: r.hits.map_values(|h: HitView| HitView { highlights: None, ..h }),
            ..r
        },
        HighlightFallback::ClientSide => match q.highlight {
            Some(cfg) => ResultsView {
                hits: r.hits.map_values(
                    |h: HitView|
                        highlighted_hit(
                            h,
                            strings_view(cfg.fields@),
                            query_terms(q.q),
                            tag_or(cfg.pre_tag, "<mark>"@),
                            tag_or(cfg.post_tag, "</mark>"@),
                            cfg.max_length,
                        ),
                ),
                ..r
            },
            None => r,
        },
        HighlightFallback::Error => r,
    }
}

/// Defaults for what the provider left out: the total becomes the number of
/// hits (as `u32`, truncated) and the time taken becomes 0.
pub open spec fn post_processed(r: ResultsView) -> ResultsView {
    ResultsView {
        total: if r.total is None { Some(#[verifier::truncate] (r.hits.len() as u32)) } else { r.total },
        took_ms: if r.took_ms is None { Some(0u32) } else { r.took_ms },
        ..r
    }
}

/// The result set after the whole fallback pass, when it succeeds.
pub open spec fn processed(
    r: ResultsView,
    q: SearchQuery,
    supported: Seq<(String, FeatureSupport)>,
    strategy: DegradationStrategy,
) -> ResultsView {
    let faceted = if facets_degraded(q, supported) {
        with_facet_fallback(r, q, strategy.facet_fallback)
    } else {
        r
    };
    let highlighted = if highlights_degraded(q, supported) {
        with_highlight_fallback(faceted, q, strategy.highlight_fallback)
    } else {
        faceted
    };
    post_processed(highlighted)
}

/// The result set after the facet stage of the pass: the facet fallback
/// applied when facets are degraded, the result set unchanged otherwise.
pub open spec fn faceted_stage(
    r: ResultsView,
    q: SearchQuery,
    supported: Seq<(String, FeatureSupport)>,
    strategy: DegradationStrategy,
) -> ResultsView {
    if facets_degraded(q, supported) {
        with_facet_fallback(r, q, strategy.facet_fallback)
    } else {
        r
    }
}

/// The result set a refused pass leaves: unchanged when the facets are
/// refused; with the facet fallback already written when the highlighting is
/// refused after it (nothing is rolled back, and no defaults are filled in).
pub open spec fn refused_state(
    r: ResultsView,
    q: SearchQuery,
    supported: Seq<(String, FeatureSupport)>,
    strategy: DegradationStrategy,
) -> ResultsView {
    if facets_degraded(q, supported) && strategy.facet_fallback is Error {
        r
    } else {
        faceted_stage(r, q, supported, strategy)
    }
}

/// The pass refuses to degrade: a degraded feature whose policy is `Error`.
pub open spec fn refused(
    q: SearchQuery,
    supported: Seq<(String, FeatureSupport)>,
    strategy: DegradationStrategy,
) -> bool {
    (facets_degraded(q, supported) && strategy.facet_fallback is Error) || (highlights_degraded(q, supported)
        && strategy.highlight_fallback is Error)
}

/// Applies client-side fallbacks to a result set, by a degradation strategy.
pub struct FallbackProcessor {
    strategy: DegradationStrategy,
}

impl FallbackProcessor {
    pub closed spec fn spec_strategy(&self) -> DegradationStrategy {
        self.strategy
    }

    /// A processor following `strategy`.
    pub fn new(strategy: DegradationStrategy) -> (r: Self)
        ensures
            r.spec_strategy() == strategy,
    {
        FallbackProcessor { strategy }
    }

    /// The search terms of a query's free text: words split on whitespace,
    /// stripped of non-alphanumeric characters, lower-cased, longer than two bytes.
    pub fn extract_search_terms(&self, query: &SearchQuery) -> (r: Result<Vec<String>, SearchError>)
        ensures
            r matches Ok(t) && strings_view(t@) == query_terms(query.q),
    {
        Ok(extract_search_terms(query))
    }

    /// Highlights the search terms in a text: for each term found, a snippet
    /// around its first occurrence with the term marked; the snippets sorted,
    /// without duplicates, at most three.
    pub fn highlight_text(
        &self,
        text: &str,
        search_terms: &Vec<String>,
        pre_tag: &str,
        post_tag: &str,
        max_length: Option<u32>,
    ) -> (r: Vec<String>)
        ensures
            strings_view(r@) == text_highlights(text@, strings_view(search_terms@), pre_tag@, post_tag@, max_length),
    {
        highlight_text(text, search_terms, pre_tag, post_tag, max_length)
    }

    /// Counts, for each facet field, the values it takes over the hits'
    /// documents; array values count once per element.
    pub fn compute_client_side_facets(
        &self,
        hits: &Vec<SearchHit>,
        facet_fields: &Vec<String>,
    ) -> (r: Result<Vec<(String, Vec<(String, usize)>)>, SearchError>)
        ensures
            r matches Ok(f) && facets_view(f@) == client_facets(hits_view(hits@), strings_view(facet_fields@)),
    {
        let mut facets: Vec<(String, Vec<(String, usize)>)> = Vec::new();
        let ghost fields = strings_view(facet_fields@);
        let mut i: usize = 0;
        while i < facet_fields.len()
            invariant
                i <= facet_fields@.len(),
                fields == strings_view(facet_fields@),
                facets_view(facets@) == client_facets(hits_view(hits@), fields.subrange(0, i as int)),
            decreases facet_fields@.len() - i,
        {
            proof {
                let fs = fields.subrange(0, i + 1);
                assert(fs.drop_last() =~= fields.subrange(0, i as int));
                assert(fs.last() == facet_fields@[i as int]@);
            }
            let keys = collect_field_keys(hits, &facet_fields[i]);
            let counts = tally_exec(&keys);
            if counts.len() > 0 {
                let ghost prev = facets@;
                facets.push((facet_fields[i].clone(), counts));
                assert(facets_view(facets@) =~= facets_view(prev).push((facet_fields@[i as int]@, counts_view(counts@))));
                assert(counts_view(counts@) =~= counts@.map_values(|c: (String, usize)| (c.0@, c.1)));
            }
            i = i + 1;
        }
        assert(fields.subrange(0, fields.len() as int) =~= fields);
        Ok(facets)
    }

    /// The highlights of a document for the requested fields.
    pub fn generate_highlights(
        &self,
        doc: &JsonValue,
        highlight_fields: &Vec<String>,
        search_terms: &Vec<String>,
        pre_tag: &str,
        post_tag: &str,
        max_length: Option<u32>,
    ) -> (r: Vec<(String, Vec<String>)>)
        ensures
            highlights_view(r@) == doc_highlights(
                *doc,
                strings_view(highlight_fields@),
                strings_view(search_terms@),
                pre_tag@,
                post_tag@,
                max_length,
            ),
    {
        let mut out: Vec<(String, Vec<String>)> = Vec::new();
        let ghost fields = strings_view(highlight_fields@);
        let ghost terms = strings_view(search_terms@);
        let mut i: usize = 0;
        while i < highlight_fields.len()
            invariant
                i <= highlight_fields@.len(),
                fields == strings_view(highlight_fields@),
                terms == strings_view(search_terms@),
                highlights_view(out@) == doc_highlights(*doc, fields.subrange(0, i as int), terms, pre_tag@, post_tag@, max_length),
            decreases highlight_fields@.len() - i,
        {
            proof {
                let fs = fields.subrange(0, i + 1);
                assert(fs.drop_last() =~= fields.subrange(0, i as int));
                assert(fs.last() == highlight_fields@[i as int]@);
            }
            let field = &highlight_fields[i];
            if let Some(t) = member_text(doc, field.as_str()) {
                if let Some(JsonValue::Str(text)) = parse_json(t.as_str()) {
                    let snippets = highlight_text(text.as_str(), search_terms, pre_tag, post_tag, max_length);
                    if snippets.len() > 0 {
                        let ghost prev = out@;
                        out.push((field.clone(), snippets));
                        assert(highlights_view(out@) =~= highlights_view(prev).push((field@, strings_view(snippets@))));
                    }
                }
            }
            i = i + 1;
        }
        assert(fields.subrange(0, fields.len() as int) =~= fields);
        out
    }

    /// Marks the query's terms in each hit's requested fields; a hit whose
    /// content yields no snippet keeps its highlights.
    pub fn apply_client_side_highlighting(
        &self,
        hits: &mut Vec<SearchHit>,
        query: &SearchQuery,
        fields: &Vec<String>,
        pre_tag: &str,
        post_tag: &str,
        max_length: Option<u32>,
    ) -> (r: Result<(), SearchError>)
        ensures
            r is Ok,
            hits_view(final(hits)@) == hits_view(old(hits)@).map_values(
                |h: HitView|
                    highlighted_hit(
                        h,
                        strings_view(fields@),
                        query_terms(query.q),
                        pre_tag@,
                        post_tag@,
                        max_length,
                    ),
            ),
    {
        let search_terms = extract_search_terms(query);
        let ghost f = |h: HitView|
            highlighted_hit(h, strings_view(fields@), query_terms(query.q), pre_tag@, post_tag@, max_length);
        let ghost initial = hits_view(hits@);
        let mut i: usize = 0;
        while i < hits.len()
            invariant
                i <= hits@.len(),
                hits@.len() == initial.len(),
                strings_view(search_terms@) == query_terms(query.q),
                f == (|h: HitView|
                    highlighted_hit(h, strings_view(fields@), query_terms(query.q), pre_tag@, post_tag@, max_length)),
                forall|j: int| 0 <= j < i ==> hits@[j]@ == f(initial[j]),
                forall|j: int| i <= j < hits@.len() ==> hits@[j]@ == initial[j],
            decreases hits@.len() - i,
        {
            let ghost h = initial[i as int];
            if let Some(content) = &hits[i].content {
                if let Some(doc) = parse_json(content.as_str()) {
                    let highlights = self.generate_highlights(&doc, fields, &search_terms, pre_tag, post_tag, max_length);
                    if highlights.len() > 0 {
                        match highlights_to_json(&highlights) {
                            Ok(json) => {
                                let hit = SearchHit {
                                    id: hits[i].id.clone(),
                                    score: hits[i].score,
                                    content: copy_opt_string(&hits[i].content),
                                    highlights: Some(json),
                                };
                                hits.set(i, hit);
                            },
                            Err(msg) => {
                                return Err(SearchError::Internal(msg));
                            },
                        }
                    }
                }
            }
            assert(hits@[i as int]@ == f(h));
            i = i + 1;
        }
        assert(hits_view(hits@) =~= initial.map_values(f));
        Ok(())
    }

    fn apply_facet_fallback(&self, results: &mut SearchResults, query: &SearchQuery) -> (r: Result<(), SearchError>)
        ensures
            r is Err <==> self.strategy.facet_fallback is Error,
            r matches Err(e) ==> e is Unsupported,
            r is Ok ==> final(results)@ == with_facet_fallback(old(results)@, *query, self.strategy.facet_fallback),
            r is Err ==> final(results)@ == old(results)@,
    {
        match self.strategy.facet_fallback {
            FacetFallback::Empty => {
                results.facets = Some(String::from_str("{}"));
            },
            FacetFallback::ClientSide => {
                let facets = match self.compute_client_side_facets(&results.hits, &query.facets) {
                    Ok(f) => f,
                    Err(e) => {
                        return Err(e);
                    },
                };
                match facets_to_json(&facets) {
                    Ok(json) => {
                        results.facets = Some(json);
                    },
                    Err(msg) => {
                        return Err(SearchError::Internal(msg));
                    },
                }
            },
            FacetFallback::SeparateQueries => {
                results.facets = Some(String::from_str("{}"));
            },
            FacetFallback::Error => {
                return Err(SearchError::Unsupported);
            },
        }
        Ok(())
    }

    fn apply_highlight_fallback(&self, results: &mut SearchResults, query: &SearchQuery) -> (r: Result<(), SearchError>)
        ensures
            r is Err <==> self.strategy.highlight_fallback is Error,
            r matches Err(e) ==> e is Unsupported,
            r is Ok ==> final(results)@ == with_highlight_fallback(old(results)@, *query, self.strategy.highlight_fallback),
            r is Err ==> final(results)@ == old(results)@,
    {
        match self.strategy.highlight_fallback {
            HighlightFallback::RemoveHighlights => {
                let ghost initial = hits_view(results.hits@);
                let mut i: usize = 0;
                while i < results.hits.len()
                    invariant
                        i <= results.hits@.len(),
                        results.hits@.len() == initial.len(),
                        results@.total == old(results)@.total,
                        results@.page == old(results)@.page,
                        results@.per_page == old(results)@.per_page,
                        results@.facets == old(results)@.facets,
                        results@.took_ms == old(results)@.took_ms,
                        forall|j: int| 0 <= j < i ==> results.hits@[j]@ == (HitView { highlights: None, ..initial[j] }),
                        forall|j: int| i <= j < results.hits@.len() ==> results.hits@[j]@ == initial[j],
                    decreases results.hits@.len() - i,
                {
                    let hit = SearchHit {
                        id: results.hits[i].id.clone(),
                        score: results.hits[i].score,
                        content: copy_opt_string(&results.hits[i].content),
                        highlights: None,
                    };
                    results.hits.set(i, hit);
                    i = i + 1;
                }
                assert(hits_view(results.hits@) =~= initial.map_values(|h: HitView| HitView { highlights: None, ..h }));
                assert(results@ == with_highlight_fallback(old(results)@, *query, self.strategy.highlight_fallback));
            },
            HighlightFallback::ClientSide => {
                if let Some(config) = &query.highlight {
                    let pre_tag = match &config.pre_tag {
                        Some(t) => t.as_str(),
                        None => "<mark>",
                    };
                    let post_tag = match &config.post_tag {
                        Some(t) => t.as_str(),
                        None => "</mark>",
                    };
                    let ghost before = results@;
                    assert(pre_tag@ == tag_or(config.pre_tag, "<mark>"@));
                    assert(post_tag@ == tag_or(config.post_tag, "</mark>"@));
                    let r = self.apply_client_side_highlighting(
                        &mut results.hits,
                        query,
                        &config.fields,
                        pre_tag,
                        post_tag,
                        config.max_length,
                    );
                    if r.is_err() {
                        return r;
                    }
                    assert(results@.hits =~= with_highlight_fallback(before, *query, self.strategy.highlight_fallback).hits);
                    assert(results@ == with_highlight_fallback(before, *query, self.strategy.highlight_fallback));
                }
            },
            HighlightFallback::Error => {
                return Err(SearchError::Unsupported);
            },
        }
        Ok(())
    }

    fn apply_post_processing(&self, results: &mut SearchResults)
        ensures
            final(results)@ == post_processed(old(results)@),
    {
        if results.total.is_none() {
            #[verifier::truncate]
            let total = results.hits.len() as u32;
            results.total = Some(total);
        }
        if results.took_ms.is_none() {
            results.took_ms = Some(0);
        }
    }

    /// Applies the fallbacks a result set needs: facets when they were
    /// requested and the provider lacks or emulates them, highlighting
    /// likewise, then defaults for the total and the time taken.
    /// A feature whose policy is `Error` fails the pass with `Unsupported`;
    /// nothing else fails it. A refusal leaves what was already written in
    /// place. `supported_features` maps feature names to their support (a
    /// repeated name counts by its first entry; an absent one is `Unsupported`).
    pub fn process_search_results(
        &self,
        results: &mut SearchResults,
        original_query: &SearchQuery,
        supported_features: &Vec<(String, FeatureSupport)>,
    ) -> (r: Result<(), SearchError>)
        ensures
            r is Err <==> refused(*original_query, supported_features@, self.spec_strategy()),
            r matches Err(e) ==> e is Unsupported,
            r is Ok ==> final(results)@ == processed(old(results)@, *original_query, supported_features@, self.spec_strategy()),
            r is Err ==> final(results)@ == refused_state(
                old(results)@,
                *original_query,
                supported_features@,
                self.spec_strategy(),
            ),
    {
        if original_query.facets.len() > 0 {
            let support = match find_support(supported_features, "faceted_search") {
                Some(f) => f,
                None => FeatureSupport::Unsupported,
            };
            if matches!(support, FeatureSupport::Unsupported | FeatureSupport::Emulated) {
                let r = self.apply_facet_fallback(results, original_query);
                if r.is_err() {
                    return r;
                }
            }
        }
        if original_query.highlight.is_some() {
            let support = match find_support(supported_features, "highlighting") {
                Some(f) => f,
                None => FeatureSupport::Unsupported,
            };
            if matches!(support, FeatureSupport::Unsupported | FeatureSupport::Emulated) {
                let r = self.apply_highlight_fallback(results, original_query);
                if r.is_err() {
                    return r;
                }
            }
        }
        self.apply_post_processing(results);
        Ok(())
    }
}


/// When neither facets nor highlighting are degraded, the pass cannot be
/// refused and only fills in the defaults, so running it on its own output
/// changes nothing.
pub proof fn lemma_process_idempotent(
    r: ResultsView,
    q: SearchQuery,
    supported: Seq<(String, FeatureSupport)>,
    strategy: DegradationStrategy,
)
    requires
        !facets_degraded(q, supported),
        !highlights_degraded(q, supported),
    ensures
        !refused(q, supported, strategy),
        processed(r, q, supported, strategy) == post_processed(r),
        processed(processed(r, q, supported, strategy), q, supported, strategy) == processed(r, q, supported, strategy),
{
}

} // verus!
