//! Capability checking and fallbacks for the ElasticSearch provider.
use vstd::prelude::*;
use crate::capabilities::{
    CapabilityChecker, CapabilityMatrix, DegradationStrategy, FacetFallback, FeatureSupport, GeoSearchFallback,
    HighlightFallback, IssueView, ProviderCapabilities, QuerySupportResult, StreamingFallback,
    VectorSearchFallback, CompatibilityIssue, copy_matrix, declared_support, elasticsearch_capability_matrix,
    issues_view, query_issues, query_requires_fallback, specific_view,
};
use crate::error::SearchError;
use crate::fallbacks::{FallbackProcessor, post_processed, support_in};
use crate::text::str_eq;
use crate::types::{SearchQuery, SearchResults};

verus! {

/// The ElasticSearch provider's declarations, with client-side fallbacks.
pub struct ElasticSearchProviderWithDegradation {
    capability_matrix: CapabilityMatrix,
    degradation_strategy: DegradationStrategy,
    fallback_processor: FallbackProcessor,
}

/// The strategy used with ElasticSearch: client-side facets and highlights,
/// pagination, text search for vectors, bounding boxes, warnings, not strict.
pub open spec fn elastic_strategy() -> DegradationStrategy {
    DegradationStrategy {
        facet_fallback: FacetFallback::ClientSide,
        highlight_fallback: HighlightFallback::ClientSide,
        streaming_fallback: StreamingFallback::Pagination,
        vector_search_fallback: VectorSearchFallback::TextSearch,
        geo_search_fallback: GeoSearchFallback::BoundingBox,
        log_unsupported_warnings: true,
        strict_mode: false,
    }
}

/// The feature snapshot handed to the fallback pass: the five degradable
/// features with the support the matrix declares.
pub open spec fn elastic_snapshot(m: CapabilityMatrix) -> Seq<(Seq<char>, FeatureSupport)> {
    seq![
        ("faceted_search"@, m.advanced_features.faceted_search),
        ("highlighting"@, m.advanced_features.highlighting),
        ("vector_search"@, m.advanced_features.vector_search),
        ("geo_search"@, m.advanced_features.geo_search),
        ("streaming_search"@, m.advanced_features.streaming_search),
    ]
}

/// The advice for one issue, if any.
pub open spec fn issue_advice(i: IssueView) -> Seq<Seq<char>> {
    match i {
        IssueView::UnsupportedFeature { feature, .. } => if feature == "vector_search"@ {
            seq!["Consider installing Elasticsearch vector search plugin for native vector support"@]
        } else {
            seq![]
        },
        IssueView::LimitedSupport { feature, limitation } => seq![
            "Feature '"@ + feature + "' has limitations: "@ + limitation,
        ],
        IssueView::PerformanceLimit { parameter, requested, limit } => seq![
            "Parameter '"@ + parameter + "' requested value '"@ + requested + "' exceeds limit '"@ + limit
                + "'. Consider reducing the value."@,
        ],
        _ => seq![],
    }
}

/// The advice for a list of issues, in order.
pub open spec fn issues_advice(issues: Seq<IssueView>) -> Seq<Seq<char>>
    decreases issues.len(),
{
    if issues.len() == 0 {
        seq![]
    } else {
        issues_advice(issues.drop_last()) + issue_advice(issues.last())
    }
}

fn push_advice(out: &mut Vec<String>, issue: &CompatibilityIssue)
    ensures
        final(out)@.map_values(|s: String| s@) == old(out)@.map_values(|s: String| s@) + issue_advice(issue@),
{
    let ghost before = old(out)@.map_values(|s: String| s@);
    match issue {
        CompatibilityIssue::UnsupportedFeature { feature, .. } => {
            if str_eq(feature.as_str(), "vector_search") {
                out.push(String::from_str("Consider installing Elasticsearch vector search plugin for native vector support"));
            }
        },
        CompatibilityIssue::LimitedSupport { feature, limitation } => {
            let mut s = String::from_str("Feature '");
            s.append(feature.as_str());
            s.append("' has limitations: ");
            s.append(limitation.as_str());
            out.push(s);
        },
        CompatibilityIssue::PerformanceLimit { parameter, requested, limit } => {
            let mut s = String::from_str("Parameter '");
            s.append(parameter.as_str());
            s.append("' requested value '");
            s.append(requested.as_str());
            s.append("' exceeds limit '");
            s.append(limit.as_str());
            s.append("'. Consider reducing the value.");
            out.push(s);
        },
        _ => {},
    }
    assert(out@.map_values(|s: String| s@) =~= before + issue_advice(issue@));
}

impl ElasticSearchProviderWithDegradation {
    pub closed spec fn spec_matrix(&self) -> CapabilityMatrix {
        self.capability_matrix
    }

    pub closed spec fn spec_strategy(&self) -> DegradationStrategy {
        self.degradation_strategy
    }

    /// The fallback processor follows the provider's strategy.
    #[verifier::type_invariant]
    closed spec fn inv(&self) -> bool {
        &&& self.fallback_processor.spec_strategy() == self.degradation_strategy
        &&& self.capability_matrix.advanced_features == crate::capabilities::elasticsearch_advanced()
    }

    /// The ElasticSearch matrix with its strategy.
    pub fn new() -> (r: Self)
        ensures
            crate::capabilities::elasticsearch_matrix(r.spec_matrix()),
            r.spec_strategy() == elastic_strategy(),
    {
        let capability_matrix = elasticsearch_capability_matrix();
        let degradation_strategy = DegradationStrategy {
            facet_fallback: FacetFallback::ClientSide,
            highlight_fallback: HighlightFallback::ClientSide,
            streaming_fallback: StreamingFallback::Pagination,
            vector_search_fallback: VectorSearchFallback::TextSearch,
            geo_search_fallback: GeoSearchFallback::BoundingBox,
            log_unsupported_warnings: true,
            strict_mode: false,
        };
        let fallback_processor = FallbackProcessor::new(degradation_strategy);
        ElasticSearchProviderWithDegradation { capability_matrix, degradation_strategy, fallback_processor }
    }

    /// Checks a query against ElasticSearch's capabilities.
    pub fn validate_query(&self, query: &SearchQuery) -> (r: QuerySupportResult)
        ensures
            issues_view(r.issues@) == query_issues(self.spec_matrix(), self.spec_strategy(), *query),
            r.is_fully_supported == (r.issues@.len() == 0),
            r.requires_fallback == query_requires_fallback(self.spec_matrix(), *query),
    {
        let checker = CapabilityChecker::new(copy_matrix(&self.capability_matrix), self.degradation_strategy);
        checker.check_query_support(query)
    }

    /// Runs the fallback pass with the support the matrix declares for the
    /// five degradable features. ElasticSearch facets and highlights
    /// natively, so the pass never refuses and only fills in the defaults
    /// for the total and the time taken.
    pub fn process_search_results(&self, results: &mut SearchResults, original_query: &SearchQuery) -> (r: Result<
        (),
        SearchError,
    >)
        ensures
            r is Ok,
            final(results)@ == post_processed(old(results)@),
    {
        proof {
            use_type_invariant(self);
        }
        let features = self.capability_matrix.advanced_features;
        let mut supported: Vec<(String, FeatureSupport)> = Vec::new();
        supported.push((String::from_str("faceted_search"), features.faceted_search));
        supported.push((String::from_str("highlighting"), features.highlighting));
        supported.push((String::from_str("vector_search"), features.vector_search));
        supported.push((String::from_str("geo_search"), features.geo_search));
        supported.push((String::from_str("streaming_search"), features.streaming_search));
        assert(specific_view(supported@) =~= elastic_snapshot(self.capability_matrix));
        proof {
            reveal_strlit("faceted_search");
            reveal_strlit("highlighting");
            assert(supported@[0].0@ == "faceted_search"@);
            assert(supported@[1].0@ == "highlighting"@);
            assert(supported@[0].0@ != "highlighting"@);
            assert(supported@.drop_first()[0] == supported@[1]);
            assert(crate::capabilities::lookup_support(supported@.drop_first(), "highlighting"@) == Some(
                FeatureSupport::Native,
            ));
            assert(support_in(supported@, "faceted_search"@) == FeatureSupport::Native);
            assert(support_in(supported@, "highlighting"@) == FeatureSupport::Native);
        }
        self.fallback_processor.process_search_results(results, original_query, &supported)
    }

    /// Whether vector search plugins are installed; none are assumed.
    pub fn check_vector_search_availability(&self) -> (r: bool)
        ensures
            !r,
    {
        false
    }

    /// Advice for the issues of a query that is not fully supported.
    pub fn get_feature_recommendations(&self, query: &SearchQuery) -> (r: Vec<String>)
        ensures
            r@.map_values(|s: String| s@) == issues_advice(
                query_issues(self.spec_matrix(), self.spec_strategy(), *query),
            ),
    {
        let mut out: Vec<String> = Vec::new();
        let result = self.validate_query(query);
        let ghost issues = issues_view(result.issues@);
        if !result.is_fully_supported {
            let mut i: usize = 0;
            while i < result.issues.len()
                invariant
                    i <= result.issues@.len(),
                    issues == issues_view(result.issues@),
                    out@.map_values(|s: String| s@) == issues_advice(issues.subrange(0, i as int)),
                decreases result.issues@.len() - i,
            {
                proof {
                    let is = issues.subrange(0, i + 1);
                    assert(is.drop_last() =~= issues.subrange(0, i as int));
                    assert(is.last() == result.issues@[i as int]@);
                }
                push_advice(&mut out, &result.issues[i]);
                i = i + 1;
            }
            assert(issues.subrange(0, issues.len() as int) =~= issues);
        } else {
            assert(out@.map_values(|s: String| s@) =~= seq![]);
        }
        out
    }
}

impl ProviderCapabilities for ElasticSearchProviderWithDegradation {
    open spec fn declared_matrix(&self) -> CapabilityMatrix {
        self.spec_matrix()
    }

    open spec fn declared_strategy(&self) -> DegradationStrategy {
        self.spec_strategy()
    }

    fn get_capability_matrix(&self) -> (r: CapabilityMatrix) {
        copy_matrix(&self.capability_matrix)
    }

    /// The declared support; vector search is `Conditional` unless plugins are found.
    fn supports_feature(&self, feature: &str) -> (r: FeatureSupport)
        ensures
            feature@ == "vector_search"@ ==> r == FeatureSupport::Conditional,
            feature@ != "vector_search"@ ==> r == declared_support(self.spec_matrix(), feature@),
    {
        if str_eq(feature, "vector_search") {
            if self.check_vector_search_availability() {
                FeatureSupport::Native
            } else {
                FeatureSupport::Conditional
            }
        } else {
            self.capability_matrix.feature_support(feature)
        }
    }

    fn get_degradation_strategy(&self) -> (r: DegradationStrategy) {
        self.degradation_strategy
    }
}

/// Whether a page size asks for more than 100 results (10 when absent).
pub open spec fn large_page(q: SearchQuery) -> bool {
    match q.per_page {
        Some(n) => n > 100,
        None => false,
    }
}

/// Configuration advice for a set of typical queries: caching when some
/// use facets, highlight limits when some highlight, the scroll API when
/// some ask for more than 100 results per page.
pub fn suggest_configuration_improvements(query_patterns: &[SearchQuery]) -> (r: Vec<String>)
    ensures
        r@.map_values(|s: String| s@) == (if exists|i: int|
            0 <= i < query_patterns@.len() && (#[trigger] query_patterns@[i]).facets@.len() > 0 {
            seq!["Consider enabling aggressive caching for faceted queries"@]
        } else {
            seq![]
        }) + (if exists|i: int| 0 <= i < query_patterns@.len() && (#[trigger] query_patterns@[i]).highlight is Some {
            seq!["Configure highlight field limits to improve performance"@]
        } else {
            seq![]
        }) + (if exists|i: int| 0 <= i < query_patterns@.len() && large_page(#[trigger] query_patterns@[i]) {
            seq!["Consider using scroll API for large result sets"@]
        } else {
            seq![]
        }),
{
    let mut has_facets = false;
    let mut has_highlighting = false;
    let mut large_results = false;
    let mut i: usize = 0;
    while i < query_patterns.len()
        invariant
            i <= query_patterns@.len(),
            has_facets == exists|j: int| 0 <= j < i && (#[trigger] query_patterns@[j]).facets@.len() > 0,
            has_highlighting == exists|j: int| 0 <= j < i && (#[trigger] query_patterns@[j]).highlight is Some,
            large_results == exists|j: int| 0 <= j < i && large_page(#[trigger] query_patterns@[j]),
        decreases query_patterns@.len() - i,
    {
        let q = &query_patterns[i];
        if q.facets.len() > 0 {
            has_facets = true;
        }
        if q.highlight.is_some() {
            has_highlighting = true;
        }
        let per_page = match q.per_page {
            Some(n) => n,
            None => 10,
        };
        if per_page > 100 {
            large_results = true;
        }
        i = i + 1;
    }
    let mut out: Vec<String> = Vec::new();
    if has_facets {
        out.push(String::from_str("Consider enabling aggressive caching for faceted queries"));
    }
    let ghost a = out@.map_values(|s: String| s@);
    if has_highlighting {
        out.push(String::from_str("Configure highlight field limits to improve performance"));
    }
    let ghost b = out@.map_values(|s: String| s@);
    if large_results {
        out.push(String::from_str("Consider using scroll API for large result sets"));
    }
    proof {
        let fa = if has_facets { seq!["Consider enabling aggressive caching for faceted queries"@] } else { seq![] };
        let hb = if has_highlighting { seq!["Configure highlight field limits to improve performance"@] } else { seq![] };
        let lc = if large_results { seq!["Consider using scroll API for large result sets"@] } else { seq![] };
        assert(a =~= fa);
        assert(b =~= fa + hb);
        assert(out@.map_values(|s: String| s@) =~= fa + hb + lc);
    }
    out
}

} // verus!
