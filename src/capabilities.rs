//! Capability matrices of the search providers, degradation strategies,
//! and the check of a query against what a provider supports.
use vstd::prelude::*;
use crate::text::{decimal, decimal_string, str_eq};
use crate::types::SearchQuery;

verus! {

/// Support level of one feature on one provider.
#[derive(Debug, Clone, Copy, PartialEq, Eq, Structural)]
pub enum FeatureSupport {
    /// Fully supported by a native implementation.
    Native,
    /// Supported, with workarounds or limitations.
    Limited,
    /// Not supported by the provider.
    Unsupported,
    /// Depends on configuration or on plugins of the backend.
    Conditional,
    /// Can be emulated by other means (client-side fallback).
    Emulated,
}

impl FeatureSupport {
    /// Whether the feature is available in any form.
    pub fn is_available(&self) -> (r: bool)
        ensures
            r == !(*self is Unsupported),
    {
        !matches!(self, FeatureSupport::Unsupported)
    }

    /// Whether the feature has native support.
    pub fn is_native(&self) -> (r: bool)
        ensures
            r == (*self is Native),
    {
        matches!(self, FeatureSupport::Native)
    }

    /// Whether the feature needs a fallback mechanism.
    pub fn needs_fallback(&self) -> (r: bool)
        ensures
            r == (*self is Limited || *self is Emulated),
    {
        matches!(self, FeatureSupport::Limited | FeatureSupport::Emulated)
    }

    pub open spec fn spec_name(self) -> Seq<char> {
        match self {
            FeatureSupport::Native => "Native"@,
            FeatureSupport::Limited => "Limited"@,
            FeatureSupport::Unsupported => "Unsupported"@,
            FeatureSupport::Conditional => "Conditional"@,
            FeatureSupport::Emulated => "Emulated"@,
        }
    }

    /// The variant's name, its textual form.
    pub fn name(&self) -> (r: String)
        ensures
            r@ == self.spec_name(),
    {
        match self {
            FeatureSupport::Native => String::from_str("Native"),
            FeatureSupport::Limited => String::from_str("Limited"),
            FeatureSupport::Unsupported => String::from_str("Unsupported"),
            FeatureSupport::Conditional => String::from_str("Conditional"),
            FeatureSupport::Emulated => String::from_str("Emulated"),
        }
    }

    /// The variant whose name is `s`, if any.
    pub fn from_name(s: &str) -> (r: Option<FeatureSupport>)
        ensures
            r == support_named(s@),
    {
        if str_eq(s, "Native") {
            Some(FeatureSupport::Native)
        } else if str_eq(s, "Limited") {
            Some(FeatureSupport::Limited)
        } else if str_eq(s, "Unsupported") {
            Some(FeatureSupport::Unsupported)
        } else if str_eq(s, "Conditional") {
            Some(FeatureSupport::Conditional)
        } else if str_eq(s, "Emulated") {
            Some(FeatureSupport::Emulated)
        } else {
            None
        }
    }
}

/// The support level whose name is `s`, if any.
pub open spec fn support_named(s: Seq<char>) -> Option<FeatureSupport> {
    if s == "Native"@ {
        Some(FeatureSupport::Native)
    } else if s == "Limited"@ {
        Some(FeatureSupport::Limited)
    } else if s == "Unsupported"@ {
        Some(FeatureSupport::Unsupported)
    } else if s == "Conditional"@ {
        Some(FeatureSupport::Conditional)
    } else if s == "Emulated"@ {
        Some(FeatureSupport::Emulated)
    } else {
        None
    }
}

/// Writing a support level as its name and reading the name back gives
/// the same level, for each of the five levels.
pub proof fn lemma_feature_support_name_round_trip(f: FeatureSupport)
    ensures
        support_named(f.spec_name()) == Some(f),
{
    reveal_strlit("Native");
    reveal_strlit("Limited");
    reveal_strlit("Unsupported");
    reveal_strlit("Conditional");
    reveal_strlit("Emulated");
    match f {
        FeatureSupport::Native => {},
        FeatureSupport::Limited => {
            assert("Limited"@[0] != "Native"@[0]);
        },
        FeatureSupport::Unsupported => {
            assert("Unsupported"@[0] != "Native"@[0]);
            assert("Unsupported"@[0] != "Limited"@[0]);
        },
        FeatureSupport::Conditional => {
            assert("Conditional"@[0] != "Native"@[0]);
            assert("Conditional"@[0] != "Limited"@[0]);
            assert("Conditional"@[0] != "Unsupported"@[0]);
        },
        FeatureSupport::Emulated => {
            assert("Emulated"@[0] != "Native"@[0]);
            assert("Emulated"@[0] != "Limited"@[0]);
            assert("Emulated"@[0] != "Unsupported"@[0]);
            assert("Emulated"@[0] != "Conditional"@[0]);
        },
    }
}

/// Core capabilities that most providers support.
#[derive(Debug, Clone, Copy)]
pub struct CoreCapabilities {
    pub full_text_search: FeatureSupport,
    pub keyword_search: FeatureSupport,
    pub index_management: FeatureSupport,
    pub document_operations: FeatureSupport,
    pub schema_management: FeatureSupport,
    pub filtering: FeatureSupport,
    pub pagination: FeatureSupport,
}

/// Advanced features that not every provider supports.
#[derive(Debug, Clone, Copy)]
pub struct AdvancedFeatures {
    pub faceted_search: FeatureSupport,
    pub highlighting: FeatureSupport,
    pub vector_search: FeatureSupport,
    pub geo_search: FeatureSupport,
    pub streaming_search: FeatureSupport,
    pub autocomplete: FeatureSupport,
    pub typo_tolerance: FeatureSupport,
    pub custom_ranking: FeatureSupport,
    pub multilingual: FeatureSupport,
    pub batch_operations: FeatureSupport,
}

/// Numeric limits of a provider.
#[derive(Debug, Clone, Copy)]
pub struct PerformanceLimits {
    pub max_batch_size: Option<u32>,
    /// Longest query text, in bytes.
    pub max_query_length: Option<u32>,
    pub max_facets: Option<u32>,
    pub max_filters: Option<u32>,
    pub max_results_per_page: Option<u32>,
    pub default_timeout_seconds: Option<u32>,
    pub rate_limit_rps: Option<u32>,
}

/// What a provider supports.
///
/// `provider_specific` maps extra feature names to their support; its keys
/// are unique.
#[derive(Debug, Clone)]
pub struct CapabilityMatrix {
    pub provider_name: String,
    pub provider_version: Option<String>,
    pub core_capabilities: CoreCapabilities,
    pub advanced_features: AdvancedFeatures,
    pub performance_limits: PerformanceLimits,
    pub provider_specific: Vec<(String, FeatureSupport)>,
}

/// The support recorded under `key`. The entries stand for a map with
/// unique keys; should a key repeat, its first entry counts.
pub open spec fn lookup_support(entries: Seq<(String, FeatureSupport)>, key: Seq<char>) -> Option<FeatureSupport>
    decreases entries.len(),
{
    if entries.len() == 0 {
        None
    } else if entries[0].0@ == key {
        Some(entries[0].1)
    } else {
        lookup_support(entries.drop_first(), key)
    }
}

/// The support recorded under `key` in a list of (feature, support) entries.
pub fn find_support(entries: &Vec<(String, FeatureSupport)>, key: &str) -> (r: Option<FeatureSupport>)
    ensures
        r == lookup_support(entries@, key@),
{
    let mut i: usize = 0;
    assert(entries@.subrange(0, entries@.len() as int) =~= entries@);
    while i < entries.len()
        invariant
            i <= entries@.len(),
            lookup_support(entries@, key@) == lookup_support(entries@.subrange(i as int, entries@.len() as int), key@),
        decreases entries@.len() - i,
    {
        let ghost rest = entries@.subrange(i as int, entries@.len() as int);
        if str_eq(entries[i].0.as_str(), key) {
            return Some(entries[i].1);
        }
        assert(rest.drop_first() =~= entries@.subrange(i + 1, entries@.len() as int));
        i = i + 1;
    }
    None
}

/// How unsupported faceting is handled.
#[derive(Debug, Clone, Copy, PartialEq, Eq, Structural)]
pub enum FacetFallback {
    /// Return an empty facet object.
    Empty,
    /// Count facet values over the returned hits.
    ClientSide,
    /// Separate aggregation queries; not performed by the fallback pass,
    /// which returns an empty facet object as `Empty` does.
    SeparateQueries,
    /// Fail with `Unsupported`.
    Error,
}

/// How unsupported highlighting is handled.
#[derive(Debug, Clone, Copy, PartialEq, Eq, Structural)]
pub enum HighlightFallback {
    /// Remove highlights.
    RemoveHighlights,
    /// Mark query terms in the hits' text.
    ClientSide,
    /// Fail with `Unsupported`.
    Error,
}

/// How unsupported streaming is handled.
#[derive(Debug, Clone, Copy, PartialEq, Eq, Structural)]
pub enum StreamingFallback {
    Pagination,
    Error,
}

/// How unsupported vector search is handled.
#[derive(Debug, Clone, Copy, PartialEq, Eq, Structural)]
pub enum VectorSearchFallback {
    TextSearch,
    Error,
}

/// How unsupported geo search is handled.
#[derive(Debug, Clone, Copy, PartialEq, Eq, Structural)]
pub enum GeoSearchFallback {
    BoundingBox,
    Error,
}

impl FacetFallback {
    pub open spec fn spec_name(self) -> Seq<char> {
        match self {
            FacetFallback::Empty => "Empty"@,
            FacetFallback::ClientSide => "ClientSide"@,
            FacetFallback::SeparateQueries => "SeparateQueries"@,
            FacetFallback::Error => "Error"@,
        }
    }

    /// The policy's name.
    pub fn name(&self) -> (r: String)
        ensures
            r@ == self.spec_name(),
    {
        match self {
            FacetFallback::Empty => String::from_str("Empty"),
            FacetFallback::ClientSide => String::from_str("ClientSide"),
            FacetFallback::SeparateQueries => String::from_str("SeparateQueries"),
            FacetFallback::Error => String::from_str("Error"),
        }
    }
}

impl HighlightFallback {
    pub open spec fn spec_name(self) -> Seq<char> {
        match self {
            HighlightFallback::RemoveHighlights => "None"@,
            HighlightFallback::ClientSide => "ClientSide"@,
            HighlightFallback::Error => "Error"@,
        }
    }

    /// The policy's name.
    pub fn name(&self) -> (r: String)
        ensures
            r@ == self.spec_name(),
    {
        match self {
            HighlightFallback::RemoveHighlights => String::from_str("None"),
            HighlightFallback::ClientSide => String::from_str("ClientSide"),
            HighlightFallback::Error => String::from_str("Error"),
        }
    }
}

/// Per-deployment policy for degrading unsupported features.
#[derive(Debug, Clone, Copy)]
pub struct DegradationStrategy {
    pub facet_fallback: FacetFallback,
    pub highlight_fallback: HighlightFallback,
    pub streaming_fallback: StreamingFallback,
    pub vector_search_fallback: VectorSearchFallback,
    pub geo_search_fallback: GeoSearchFallback,
    /// Log a warning for each degradation.
    pub log_unsupported_warnings: bool,
    /// Refuse to degrade.
    pub strict_mode: bool,
}

impl Default for DegradationStrategy {
    /// Client-side facets and highlighting, pagination for streaming, text
    /// search for vectors, bounding boxes for geo, warnings on, strict mode off.
    fn default() -> (r: Self)
        ensures
            r.facet_fallback == FacetFallback::ClientSide,
            r.highlight_fallback == HighlightFallback::ClientSide,
            r.streaming_fallback == StreamingFallback::Pagination,
            r.vector_search_fallback == VectorSearchFallback::TextSearch,
            r.geo_search_fallback == GeoSearchFallback::BoundingBox,
            r.log_unsupported_warnings,
            !r.strict_mode,
    {
        DegradationStrategy {
            facet_fallback: FacetFallback::ClientSide,
            highlight_fallback: HighlightFallback::ClientSide,
            streaming_fallback: StreamingFallback::Pagination,
            vector_search_fallback: VectorSearchFallback::TextSearch,
            geo_search_fallback: GeoSearchFallback::BoundingBox,
            log_unsupported_warnings: true,
            strict_mode: false,
        }
    }
}

/// One reason why a query is not fully supported.
#[derive(Debug, Clone)]
pub enum CompatibilityIssue {
    UnsupportedFeature { feature: String, fallback: String },
    LimitedSupport { feature: String, limitation: String },
    RequiresFallback { feature: String, method: String },
    ConditionalSupport { feature: String, condition: String },
    PerformanceLimit { parameter: String, requested: String, limit: String },
}

/// Abstract view of a compatibility issue.
pub enum IssueView {
    UnsupportedFeature { feature: Seq<char>, fallback: Seq<char> },
    LimitedSupport { feature: Seq<char>, limitation: Seq<char> },
    RequiresFallback { feature: Seq<char>, method: Seq<char> },
    ConditionalSupport { feature: Seq<char>, condition: Seq<char> },
    PerformanceLimit { parameter: Seq<char>, requested: Seq<char>, limit: Seq<char> },
}

impl View for CompatibilityIssue {
    type V = IssueView;

    open spec fn view(&self) -> IssueView {
        match self {
            CompatibilityIssue::UnsupportedFeature { feature, fallback } => IssueView::UnsupportedFeature {
                feature: feature@,
                fallback: fallback@,
            },
            CompatibilityIssue::LimitedSupport { feature, limitation } => IssueView::LimitedSupport {
                feature: feature@,
                limitation: limitation@,
            },
            CompatibilityIssue::RequiresFallback { feature, method } => IssueView::RequiresFallback {
                feature: feature@,
                method: method@,
            },
            CompatibilityIssue::ConditionalSupport { feature, condition } => IssueView::ConditionalSupport {
                feature: feature@,
                condition: condition@,
            },
            CompatibilityIssue::PerformanceLimit { parameter, requested, limit } => IssueView::PerformanceLimit {
                parameter: parameter@,
                requested: requested@,
                limit: limit@,
            },
        }
    }
}

pub open spec fn issues_view(issues: Seq<CompatibilityIssue>) -> Seq<IssueView> {
    issues.map_values(|i: CompatibilityIssue| i@)
}

/// Outcome of checking a query against a provider.
#[derive(Debug, Clone)]
pub struct QuerySupportResult {
    /// No issue was found.
    pub is_fully_supported: bool,
    /// A requested feature will be served by a fallback.
    pub requires_fallback: bool,
    pub issues: Vec<CompatibilityIssue>,
}

/// The issue, if any, that a requested feature with the given support raises.
pub open spec fn feature_issue(
    feature: Seq<char>,
    support: FeatureSupport,
    fallback: Seq<char>,
    limitation: Seq<char>,
    method: Seq<char>,
    condition: Seq<char>,
) -> Seq<IssueView> {
    match support {
        FeatureSupport::Native => seq![],
        FeatureSupport::Limited => seq![IssueView::LimitedSupport { feature, limitation }],
        FeatureSupport::Unsupported => seq![IssueView::UnsupportedFeature { feature, fallback }],
        FeatureSupport::Emulated => seq![IssueView::RequiresFallback { feature, method }],
        FeatureSupport::Conditional => seq![IssueView::ConditionalSupport { feature, condition }],
    }
}

/// A support level that makes the query depend on a fallback.
pub open spec fn degrades(support: FeatureSupport) -> bool {
    support is Unsupported || support is Emulated
}

pub open spec fn facet_issues(m: CapabilityMatrix, s: DegradationStrategy, q: SearchQuery) -> Seq<IssueView> {
    if q.facets@.len() > 0 {
        feature_issue(
            "faceted_search"@,
            m.advanced_features.faceted_search,
            s.facet_fallback.spec_name(),
            "May have performance or accuracy limitations"@,
            "Client-side post-processing"@,
            "Depends on index configuration"@,
        )
    } else {
        seq![]
    }
}

pub open spec fn highlight_issues(m: CapabilityMatrix, s: DegradationStrategy, q: SearchQuery) -> Seq<IssueView> {
    if q.highlight is Some {
        feature_issue(
            "highlighting"@,
            m.advanced_features.highlighting,
            s.highlight_fallback.spec_name(),
            "May not support all highlight options"@,
            "Client-side text processing"@,
            "Depends on field configuration"@,
        )
    } else {
        seq![]
    }
}

/// Byte length of a text in UTF-8, as `str::len` reports it.
pub open spec fn utf8_len(s: Seq<char>) -> usize {
    vstd::utf8::encode_utf8(s).len() as usize
}

pub open spec fn limit_issue(parameter: Seq<char>, requested: nat, limit: Option<u32>) -> Seq<IssueView> {
    match limit {
        Some(l) => if requested > l {
            seq![IssueView::PerformanceLimit { parameter, requested: decimal(requested), limit: decimal(l as nat) }]
        } else {
            seq![]
        },
        None => seq![],
    }
}

pub open spec fn limit_issues(m: CapabilityMatrix, q: SearchQuery) -> Seq<IssueView> {
    let per_page = match q.per_page {
        Some(p) => limit_issue("per_page"@, p as nat, m.performance_limits.max_results_per_page),
        None => seq![],
    };
    let query_length = match q.q {
        Some(t) => limit_issue("query_length"@, utf8_len(t@) as nat, m.performance_limits.max_query_length),
        None => seq![],
    };
    let filter_count = if q.filters@.len() > 0 {
        limit_issue("filter_count"@, q.filters@.len(), m.performance_limits.max_filters)
    } else {
        seq![]
    };
    per_page + query_length + filter_count
}

/// The issues of a query, in order: faceting, highlighting, page size, query length, filter count.
pub open spec fn query_issues(m: CapabilityMatrix, s: DegradationStrategy, q: SearchQuery) -> Seq<IssueView> {
    facet_issues(m, s, q) + highlight_issues(m, s, q) + limit_issues(m, q)
}

/// Whether a query depends on a fallback: only faceting or highlighting on a
/// provider that lacks it or emulates it; limits never do.
pub open spec fn query_requires_fallback(m: CapabilityMatrix, q: SearchQuery) -> bool {
    (q.facets@.len() > 0 && degrades(m.advanced_features.faceted_search))
    || (q.highlight is Some && degrades(m.advanced_features.highlighting))
}

/// Checks queries against one provider's capabilities.
pub struct CapabilityChecker {
    matrix: CapabilityMatrix,
    strategy: DegradationStrategy,
}

fn feature_issue_exec(
    issues: &mut Vec<CompatibilityIssue>,
    feature: &str,
    support: FeatureSupport,
    fallback: String,
    limitation: &str,
    method: &str,
    condition: &str,
)
    ensures
        issues_view(final(issues)@) == issues_view(old(issues)@) + feature_issue(
            feature@,
            support,
            fallback@,
            limitation@,
            method@,
            condition@,
        ),
{
    let ghost before = old(issues)@;
    match support {
        FeatureSupport::Native => {},
        FeatureSupport::Limited => {
            issues.push(CompatibilityIssue::LimitedSupport {
                feature: String::from_str(feature),
                limitation: String::from_str(limitation),
            });
        },
        FeatureSupport::Unsupported => {
            issues.push(CompatibilityIssue::UnsupportedFeature { feature: String::from_str(feature), fallback });
        },
        FeatureSupport::Emulated => {
            issues.push(CompatibilityIssue::RequiresFallback {
                feature: String::from_str(feature),
                method: String::from_str(method),
            });
        },
        FeatureSupport::Conditional => {
            issues.push(CompatibilityIssue::ConditionalSupport {
                feature: String::from_str(feature),
                condition: String::from_str(condition),
            });
        },
    }
    assert(issues_view(issues@) =~= issues_view(before) + feature_issue(
        feature@,
        support,
        fallback@,
        limitation@,
        method@,
        condition@,
    ));
}

fn limit_issue_exec(issues: &mut Vec<CompatibilityIssue>, parameter: &str, requested: u64, limit: Option<u32>)
    ensures
        issues_view(final(issues)@) == issues_view(old(issues)@) + limit_issue(parameter@, requested as nat, limit),
{
    let ghost before = old(issues)@;
    if let Some(l) = limit {
        if requested > l as u64 {
            issues.push(CompatibilityIssue::PerformanceLimit {
                parameter: String::from_str(parameter),
                requested: decimal_string(requested),
                limit: decimal_string(l as u64),
            });
        }
    }
    assert(issues_view(issues@) =~= issues_view(before) + limit_issue(parameter@, requested as nat, limit));
}

fn push_limit_issues(issues: &mut Vec<CompatibilityIssue>, m: &CapabilityMatrix, query: &SearchQuery)
    ensures
        issues_view(final(issues)@) == issues_view(old(issues)@) + limit_issues(*m, *query),
{
    let ghost before = issues_view(old(issues)@);
    let limits = m.performance_limits;
    if let Some(per_page) = query.per_page {
        limit_issue_exec(issues, "per_page", per_page as u64, limits.max_results_per_page);
    }
    let ghost after_page = issues_view(issues@);
    if let Some(text) = &query.q {
        let len = text.as_str().len();
        limit_issue_exec(issues, "query_length", len as u64, limits.max_query_length);
    }
    let ghost after_length = issues_view(issues@);
    if query.filters.len() > 0 {
        limit_issue_exec(issues, "filter_count", query.filters.len() as u64, limits.max_filters);
    }
    proof {
        let q = *query;
        let per_page = match q.per_page {
            Some(p) => limit_issue("per_page"@, p as nat, limits.max_results_per_page),
            None => seq![],
        };
        let query_length = match q.q {
            Some(t) => limit_issue("query_length"@, utf8_len(t@) as nat, limits.max_query_length),
            None => seq![],
        };
        let filter_count = if q.filters@.len() > 0 {
            limit_issue("filter_count"@, q.filters@.len(), limits.max_filters)
        } else {
            seq![]
        };
        assert(after_page =~= before + per_page);
        assert(after_length =~= before + per_page + query_length);
        assert(issues_view(issues@) =~= before + (per_page + query_length + filter_count));
    }
}

impl CapabilityChecker {
    pub closed spec fn spec_matrix(&self) -> CapabilityMatrix {
        self.matrix
    }

    pub closed spec fn spec_strategy(&self) -> DegradationStrategy {
        self.strategy
    }

    /// A checker for a provider's matrix under a strategy.
    pub fn new(matrix: CapabilityMatrix, strategy: DegradationStrategy) -> (r: Self)
        ensures
            r.spec_matrix() == matrix,
            r.spec_strategy() == strategy,
    {
        CapabilityChecker { matrix, strategy }
    }

    /// The capability matrix.
    pub fn get_matrix(&self) -> (r: &CapabilityMatrix)
        ensures
            *r == self.spec_matrix(),
    {
        &self.matrix
    }

    /// The degradation strategy.
    pub fn get_strategy(&self) -> (r: &DegradationStrategy)
        ensures
            *r == self.spec_strategy(),
    {
        &self.strategy
    }

    /// Checks a query against the provider: never fails, reports each issue found.
    pub fn check_query_support(&self, query: &SearchQuery) -> (r: QuerySupportResult)
        ensures
            issues_view(r.issues@) == query_issues(self.spec_matrix(), self.spec_strategy(), *query),
            r.is_fully_supported == (r.issues@.len() == 0),
            r.requires_fallback == query_requires_fallback(self.spec_matrix(), *query),
    {
        let mut issues: Vec<CompatibilityIssue> = Vec::new();
        let mut requires_fallback = false;
        let features = self.matrix.advanced_features;
        assert(issues_view(issues@) =~= seq![]);

        if query.facets.len() > 0 {
            let support = features.faceted_search;
            if matches!(support, FeatureSupport::Unsupported | FeatureSupport::Emulated) {
                requires_fallback = true;
            }
            feature_issue_exec(
                &mut issues,
                "faceted_search",
                support,
                self.strategy.facet_fallback.name(),
                "May have performance or accuracy limitations",
                "Client-side post-processing",
                "Depends on index configuration",
            );
        }
        assert(issues_view(issues@) =~= facet_issues(self.matrix, self.strategy, *query));

        if query.highlight.is_some() {
            let support = features.highlighting;
            if matches!(support, FeatureSupport::Unsupported | FeatureSupport::Emulated) {
                requires_fallback = true;
            }
            feature_issue_exec(
                &mut issues,
                "highlighting",
                support,
                self.strategy.highlight_fallback.name(),
                "May not support all highlight options",
                "Client-side text processing",
                "Depends on field configuration",
            );
        }
        let ghost features_part = issues_view(issues@);
        assert(features_part =~= facet_issues(self.matrix, self.strategy, *query) + highlight_issues(
            self.matrix,
            self.strategy,
            *query,
        ));

        push_limit_issues(&mut issues, &self.matrix, query);
        assert(issues_view(issues@) =~= query_issues(self.matrix, self.strategy, *query));
        let is_fully_supported = issues.len() == 0;
        QuerySupportResult { is_fully_supported, requires_fallback, issues }
    }
}


pub open spec fn specific_view(entries: Seq<(String, FeatureSupport)>) -> Seq<(Seq<char>, FeatureSupport)> {
    entries.map_values(|e: (String, FeatureSupport)| (e.0@, e.1))
}

/// Every core capability is native.
pub open spec fn all_core_native(c: CoreCapabilities) -> bool {
    c == (CoreCapabilities {
        full_text_search: FeatureSupport::Native,
        keyword_search: FeatureSupport::Native,
        index_management: FeatureSupport::Native,
        document_operations: FeatureSupport::Native,
        schema_management: FeatureSupport::Native,
        filtering: FeatureSupport::Native,
        pagination: FeatureSupport::Native,
    })
}

fn all_native_core() -> (r: CoreCapabilities)
    ensures
        all_core_native(r),
{
    CoreCapabilities {
        full_text_search: FeatureSupport::Native,
        keyword_search: FeatureSupport::Native,
        index_management: FeatureSupport::Native,
        document_operations: FeatureSupport::Native,
        schema_management: FeatureSupport::Native,
        filtering: FeatureSupport::Native,
        pagination: FeatureSupport::Native,
    }
}

/// No feature name appears twice.
pub open spec fn distinct_keys(entries: Seq<(Seq<char>, FeatureSupport)>) -> bool {
    forall|i: int, j: int| 0 <= i < j < entries.len() ==> (#[trigger] entries[i]).0 != (#[trigger] entries[j]).0
}

fn push_specific(entries: &mut Vec<(String, FeatureSupport)>, name: &str, support: FeatureSupport)
    ensures
        specific_view(final(entries)@) == specific_view(old(entries)@).push((name@, support)),
{
    entries.push((String::from_str(name), support));
    assert(specific_view(entries@) =~= specific_view(old(entries)@).push((name@, support)));
}

/// The elasticsearch matrix: vector search needs a plugin; streaming goes through the scroll API; typo tolerance through fuzzy queries.
pub fn elasticsearch_capability_matrix() -> (r: CapabilityMatrix)
    ensures
        elasticsearch_matrix(r),
{
    let mut specific: Vec<(String, FeatureSupport)> = Vec::new();
    assert(specific_view(specific@) =~= seq![]);
    push_specific(&mut specific, "scroll_api", FeatureSupport::Native);
    push_specific(&mut specific, "percolator", FeatureSupport::Native);
    push_specific(&mut specific, "machine_learning", FeatureSupport::Conditional);
    push_specific(&mut specific, "security", FeatureSupport::Conditional);
    proof {
        reveal_strlit("scroll_api");
        reveal_strlit("percolator");
        reveal_strlit("machine_learning");
        reveal_strlit("security");
        let v = specific_view(specific@);
        assert(v[0].0 == "scroll_api"@);
        assert(v[1].0 == "percolator"@);
        assert(v[2].0 == "machine_learning"@);
        assert(v[3].0 == "security"@);
        assert(v[0].0[0] != v[1].0[0]);
        assert(v[0].0.len() != v[2].0.len());
        assert(v[0].0.len() != v[3].0.len());
        assert(v[1].0.len() != v[2].0.len());
        assert(v[1].0.len() != v[3].0.len());
        assert(v[2].0.len() != v[3].0.len());
        assert forall|i: int, j: int| 0 <= i < j < v.len() implies (#[trigger] v[i]).0 != (#[trigger] v[j]).0 by {
            if i == 0 && j == 1 {
            } else if i == 0 && j == 2 {
            } else if i == 0 && j == 3 {
            } else if i == 1 && j == 2 {
            } else if i == 1 && j == 3 {
            } else if i == 2 && j == 3 {
            }
        }
    }
    CapabilityMatrix {
        provider_name: String::from_str("elasticsearch"),
        provider_version: None,
        core_capabilities: all_native_core(),
        advanced_features: AdvancedFeatures {
            faceted_search: FeatureSupport::Native,
            highlighting: FeatureSupport::Native,
            vector_search: FeatureSupport::Conditional,
            geo_search: FeatureSupport::Native,
            streaming_search: FeatureSupport::Native,
            autocomplete: FeatureSupport::Native,
            typo_tolerance: FeatureSupport::Limited,
            custom_ranking: FeatureSupport::Native,
            multilingual: FeatureSupport::Native,
            batch_operations: FeatureSupport::Native,
        },
        performance_limits: PerformanceLimits {
            max_batch_size: Some(1000),
            max_query_length: Some(32768),
            max_facets: Some(100),
            max_filters: Some(256),
            max_results_per_page: Some(10000),
            default_timeout_seconds: Some(30),
            rate_limit_rps: None,
        },
        provider_specific: specific,
    }
}

/// The typesense matrix: no scroll API, so no streaming; typo tolerance is built in; batches are sequential.
pub fn typesense_capability_matrix() -> (r: CapabilityMatrix)
    ensures
        typesense_matrix(r),
{
    let mut specific: Vec<(String, FeatureSupport)> = Vec::new();
    assert(specific_view(specific@) =~= seq![]);
    push_specific(&mut specific, "instant_search", FeatureSupport::Native);
    push_specific(&mut specific, "collection_aliases", FeatureSupport::Native);
    push_specific(&mut specific, "curation", FeatureSupport::Native);
    proof {
        reveal_strlit("instant_search");
        reveal_strlit("collection_aliases");
        reveal_strlit("curation");
        let v = specific_view(specific@);
        assert(v[0].0 == "instant_search"@);
        assert(v[1].0 == "collection_aliases"@);
        assert(v[2].0 == "curation"@);
        assert(v[0].0.len() != v[1].0.len());
        assert(v[0].0.len() != v[2].0.len());
        assert(v[1].0.len() != v[2].0.len());
        assert forall|i: int, j: int| 0 <= i < j < v.len() implies (#[trigger] v[i]).0 != (#[trigger] v[j]).0 by {
            if i == 0 && j == 1 {
            } else if i == 0 && j == 2 {
            } else if i == 1 && j == 2 {
            }
        }
    }
    CapabilityMatrix {
        provider_name: String::from_str("typesense"),
        provider_version: None,
        core_capabilities: all_native_core(),
        advanced_features: AdvancedFeatures {
            faceted_search: FeatureSupport::Native,
            highlighting: FeatureSupport::Native,
            vector_search: FeatureSupport::Native,
            geo_search: FeatureSupport::Native,
            streaming_search: FeatureSupport::Unsupported,
            autocomplete: FeatureSupport::Native,
            typo_tolerance: FeatureSupport::Native,
            custom_ranking: FeatureSupport::Native,
            multilingual: FeatureSupport::Limited,
            batch_operations: FeatureSupport::Limited,
        },
        performance_limits: PerformanceLimits {
            max_batch_size: Some(100),
            max_query_length: Some(2048),
            max_facets: Some(50),
            max_filters: Some(100),
            max_results_per_page: Some(250),
            default_timeout_seconds: Some(30),
            rate_limit_rps: None,
        },
        provider_specific: specific,
    }
}

/// The meilisearch matrix: vector search is experimental; no streaming; typo tolerance is built in.
pub fn meilisearch_capability_matrix() -> (r: CapabilityMatrix)
    ensures
        meilisearch_matrix(r),
{
    let mut specific: Vec<(String, FeatureSupport)> = Vec::new();
    assert(specific_view(specific@) =~= seq![]);
    push_specific(&mut specific, "stop_words", FeatureSupport::Native);
    push_specific(&mut specific, "synonyms", FeatureSupport::Native);
    push_specific(&mut specific, "ranking_rules", FeatureSupport::Native);
    push_specific(&mut specific, "distinct", FeatureSupport::Native);
    proof {
        reveal_strlit("stop_words");
        reveal_strlit("synonyms");
        reveal_strlit("ranking_rules");
        reveal_strlit("distinct");
        let v = specific_view(specific@);
        assert(v[0].0 == "stop_words"@);
        assert(v[1].0 == "synonyms"@);
        assert(v[2].0 == "ranking_rules"@);
        assert(v[3].0 == "distinct"@);
        assert(v[0].0.len() != v[1].0.len());
        assert(v[0].0.len() != v[2].0.len());
        assert(v[0].0.len() != v[3].0.len());
        assert(v[1].0.len() != v[2].0.len());
        assert(v[1].0[0] != v[3].0[0]);
        assert(v[2].0.len() != v[3].0.len());
        assert forall|i: int, j: int| 0 <= i < j < v.len() implies (#[trigger] v[i]).0 != (#[trigger] v[j]).0 by {
            if i == 0 && j == 1 {
            } else if i == 0 && j == 2 {
            } else if i == 0 && j == 3 {
            } else if i == 1 && j == 2 {
            } else if i == 1 && j == 3 {
            } else if i == 2 && j == 3 {
            }
        }
    }
    CapabilityMatrix {
        provider_name: String::from_str("meilisearch"),
        provider_version: None,
        core_capabilities: all_native_core(),
        advanced_features: AdvancedFeatures {
            faceted_search: FeatureSupport::Native,
            highlighting: FeatureSupport::Native,
            vector_search: FeatureSupport::Limited,
            geo_search: FeatureSupport::Native,
            streaming_search: FeatureSupport::Unsupported,
            autocomplete: FeatureSupport::Native,
            typo_tolerance: FeatureSupport::Native,
            custom_ranking: FeatureSupport::Native,
            multilingual: FeatureSupport::Native,
            batch_operations: FeatureSupport::Native,
        },
        performance_limits: PerformanceLimits {
            max_batch_size: Some(1000),
            max_query_length: Some(4096),
            max_facets: Some(100),
            max_filters: Some(200),
            max_results_per_page: Some(1000),
            default_timeout_seconds: Some(30),
            rate_limit_rps: None,
        },
        provider_specific: specific,
    }
}

/// The algolia matrix: vector search goes through the Recommend API; no streaming; the rate limit depends on the plan.
pub fn algolia_capability_matrix() -> (r: CapabilityMatrix)
    ensures
        algolia_matrix(r),
{
    let mut specific: Vec<(String, FeatureSupport)> = Vec::new();
    assert(specific_view(specific@) =~= seq![]);
    push_specific(&mut specific, "analytics", FeatureSupport::Native);
    push_specific(&mut specific, "ab_testing", FeatureSupport::Native);
    push_specific(&mut specific, "personalization", FeatureSupport::Native);
    push_specific(&mut specific, "recommend", FeatureSupport::Native);
    proof {
        reveal_strlit("analytics");
        reveal_strlit("ab_testing");
        reveal_strlit("personalization");
        reveal_strlit("recommend");
        let v = specific_view(specific@);
        assert(v[0].0 == "analytics"@);
        assert(v[1].0 == "ab_testing"@);
        assert(v[2].0 == "personalization"@);
        assert(v[3].0 == "recommend"@);
        assert(v[0].0.len() != v[1].0.len());
        assert(v[0].0.len() != v[2].0.len());
        assert(v[0].0[0] != v[3].0[0]);
        assert(v[1].0.len() != v[2].0.len());
        assert(v[1].0.len() != v[3].0.len());
        assert(v[2].0.len() != v[3].0.len());
        assert forall|i: int, j: int| 0 <= i < j < v.len() implies (#[trigger] v[i]).0 != (#[trigger] v[j]).0 by {
            if i == 0 && j == 1 {
            } else if i == 0 && j == 2 {
            } else if i == 0 && j == 3 {
            } else if i == 1 && j == 2 {
            } else if i == 1 && j == 3 {
            } else if i == 2 && j == 3 {
            }
        }
    }
    CapabilityMatrix {
        provider_name: String::from_str("algolia"),
        provider_version: None,
        core_capabilities: all_native_core(),
        advanced_features: AdvancedFeatures {
            faceted_search: FeatureSupport::Native,
            highlighting: FeatureSupport::Native,
            vector_search: FeatureSupport::Limited,
            geo_search: FeatureSupport::Native,
            streaming_search: FeatureSupport::Unsupported,
            autocomplete: FeatureSupport::Native,
            typo_tolerance: FeatureSupport::Native,
            custom_ranking: FeatureSupport::Native,
            multilingual: FeatureSupport::Native,
            batch_operations: FeatureSupport::Native,
        },
        performance_limits: PerformanceLimits {
            max_batch_size: Some(1000),
            max_query_length: Some(512),
            max_facets: Some(100),
            max_filters: Some(100),
            max_results_per_page: Some(1000),
            default_timeout_seconds: Some(30),
            rate_limit_rps: Some(1000),
        },
        provider_specific: specific,
    }
}

/// The opensearch matrix: the elasticsearch one, with native vector search
/// and two features of its own.
pub fn opensearch_capability_matrix() -> (r: CapabilityMatrix)
    ensures
        opensearch_matrix(r),
{
    let mut matrix = elasticsearch_capability_matrix();
    matrix.provider_name = String::from_str("opensearch");
    matrix.advanced_features.vector_search = FeatureSupport::Native;
    push_specific(&mut matrix.provider_specific, "neural_search", FeatureSupport::Native);
    push_specific(&mut matrix.provider_specific, "anomaly_detection", FeatureSupport::Native);
    proof {
        reveal_strlit("scroll_api");
        reveal_strlit("percolator");
        reveal_strlit("machine_learning");
        reveal_strlit("security");
        reveal_strlit("neural_search");
        reveal_strlit("anomaly_detection");
        let v = specific_view(matrix.provider_specific@);
        assert(v[0].0 == "scroll_api"@);
        assert(v[1].0 == "percolator"@);
        assert(v[2].0 == "machine_learning"@);
        assert(v[3].0 == "security"@);
        assert(v[4].0 == "neural_search"@);
        assert(v[5].0 == "anomaly_detection"@);
        assert(v[0].0[0] != v[1].0[0]);
        assert(v[0].0.len() != v[2].0.len());
        assert(v[0].0.len() != v[3].0.len());
        assert(v[0].0.len() != v[4].0.len());
        assert(v[0].0.len() != v[5].0.len());
        assert(v[1].0.len() != v[2].0.len());
        assert(v[1].0.len() != v[3].0.len());
        assert(v[1].0.len() != v[4].0.len());
        assert(v[1].0.len() != v[5].0.len());
        assert(v[2].0.len() != v[3].0.len());
        assert(v[2].0.len() != v[4].0.len());
        assert(v[2].0.len() != v[5].0.len());
        assert(v[3].0.len() != v[4].0.len());
        assert(v[3].0.len() != v[5].0.len());
        assert(v[4].0.len() != v[5].0.len());
        assert forall|i: int, j: int| 0 <= i < j < v.len() implies (#[trigger] v[i]).0 != (#[trigger] v[j]).0 by {
            if i == 0 && j == 1 {
            } else if i == 0 && j == 2 {
            } else if i == 0 && j == 3 {
            } else if i == 0 && j == 4 {
            } else if i == 0 && j == 5 {
            } else if i == 1 && j == 2 {
            } else if i == 1 && j == 3 {
            } else if i == 1 && j == 4 {
            } else if i == 1 && j == 5 {
            } else if i == 2 && j == 3 {
            } else if i == 2 && j == 4 {
            } else if i == 2 && j == 5 {
            } else if i == 3 && j == 4 {
            } else if i == 3 && j == 5 {
            } else if i == 4 && j == 5 {
            }
        }
    }
    matrix
}

pub open spec fn elasticsearch_advanced() -> AdvancedFeatures {
    AdvancedFeatures {
        faceted_search: FeatureSupport::Native,
        highlighting: FeatureSupport::Native,
        vector_search: FeatureSupport::Conditional,
        geo_search: FeatureSupport::Native,
        streaming_search: FeatureSupport::Native,
        autocomplete: FeatureSupport::Native,
        typo_tolerance: FeatureSupport::Limited,
        custom_ranking: FeatureSupport::Native,
        multilingual: FeatureSupport::Native,
        batch_operations: FeatureSupport::Native,
    }
}

pub open spec fn elasticsearch_limits() -> PerformanceLimits {
    PerformanceLimits {
        max_batch_size: Some(1000),
        max_query_length: Some(32768),
        max_facets: Some(100),
        max_filters: Some(256),
        max_results_per_page: Some(10000),
        default_timeout_seconds: Some(30),
        rate_limit_rps: None,
    }
}

/// The elasticsearch matrix, field by field.
pub open spec fn elasticsearch_matrix(m: CapabilityMatrix) -> bool {
    &&& m.provider_name@ == "elasticsearch"@
    &&& m.provider_version is None
    &&& all_core_native(m.core_capabilities)
    &&& m.advanced_features == (AdvancedFeatures {
        faceted_search: FeatureSupport::Native,
        highlighting: FeatureSupport::Native,
        vector_search: FeatureSupport::Conditional,
        geo_search: FeatureSupport::Native,
        streaming_search: FeatureSupport::Native,
        autocomplete: FeatureSupport::Native,
        typo_tolerance: FeatureSupport::Limited,
        custom_ranking: FeatureSupport::Native,
        multilingual: FeatureSupport::Native,
        batch_operations: FeatureSupport::Native,
    })
    &&& m.performance_limits == (PerformanceLimits {
        max_batch_size: Some(1000),
        max_query_length: Some(32768),
        max_facets: Some(100),
        max_filters: Some(256),
        max_results_per_page: Some(10000),
        default_timeout_seconds: Some(30),
        rate_limit_rps: None,
    })
    &&& specific_view(m.provider_specific@) =~= seq![("scroll_api"@, FeatureSupport::Native), ("percolator"@, FeatureSupport::Native), ("machine_learning"@, FeatureSupport::Conditional), ("security"@, FeatureSupport::Conditional)]
    &&& distinct_keys(specific_view(m.provider_specific@))
}

/// The typesense matrix, field by field.
pub open spec fn typesense_matrix(m: CapabilityMatrix) -> bool {
    &&& m.provider_name@ == "typesense"@
    &&& m.provider_version is None
    &&& all_core_native(m.core_capabilities)
    &&& m.advanced_features == (AdvancedFeatures {
        faceted_search: FeatureSupport::Native,
        highlighting: FeatureSupport::Native,
        vector_search: FeatureSupport::Native,
        geo_search: FeatureSupport::Native,
        streaming_search: FeatureSupport::Unsupported,
        autocomplete: FeatureSupport::Native,
        typo_tolerance: FeatureSupport::Native,
        custom_ranking: FeatureSupport::Native,
        multilingual: FeatureSupport::Limited,
        batch_operations: FeatureSupport::Limited,
    })
    &&& m.performance_limits == (PerformanceLimits {
        max_batch_size: Some(100),
        max_query_length: Some(2048),
        max_facets: Some(50),
        max_filters: Some(100),
        max_results_per_page: Some(250),
        default_timeout_seconds: Some(30),
        rate_limit_rps: None,
    })
    &&& specific_view(m.provider_specific@) =~= seq![("instant_search"@, FeatureSupport::Native), ("collection_aliases"@, FeatureSupport::Native), ("curation"@, FeatureSupport::Native)]
    &&& distinct_keys(specific_view(m.provider_specific@))
}

/// The meilisearch matrix, field by field.
pub open spec fn meilisearch_matrix(m: CapabilityMatrix) -> bool {
    &&& m.provider_name@ == "meilisearch"@
    &&& m.provider_version is None
    &&& all_core_native(m.core_capabilities)
    &&& m.advanced_features == (AdvancedFeatures {
        faceted_search: FeatureSupport::Native,
        highlighting: FeatureSupport::Native,
        vector_search: FeatureSupport::Limited,
        geo_search: FeatureSupport::Native,
        streaming_search: FeatureSupport::Unsupported,
        autocomplete: FeatureSupport::Native,
        typo_tolerance: FeatureSupport::Native,
        custom_ranking: FeatureSupport::Native,
        multilingual: FeatureSupport::Native,
        batch_operations: FeatureSupport::Native,
    })
    &&& m.performance_limits == (PerformanceLimits {
        max_batch_size: Some(1000),
        max_query_length: Some(4096),
        max_facets: Some(100),
        max_filters: Some(200),
        max_results_per_page: Some(1000),
        default_timeout_seconds: Some(30),
        rate_limit_rps: None,
    })
    &&& specific_view(m.provider_specific@) =~= seq![("stop_words"@, FeatureSupport::Native), ("synonyms"@, FeatureSupport::Native), ("ranking_rules"@, FeatureSupport::Native), ("distinct"@, FeatureSupport::Native)]
    &&& distinct_keys(specific_view(m.provider_specific@))
}

/// The algolia matrix, field by field.
pub open spec fn algolia_matrix(m: CapabilityMatrix) -> bool {
    &&& m.provider_name@ == "algolia"@
    &&& m.provider_version is None
    &&& all_core_native(m.core_capabilities)
    &&& m.advanced_features == (AdvancedFeatures {
        faceted_search: FeatureSupport::Native,
        highlighting: FeatureSupport::Native,
        vector_search: FeatureSupport::Limited,
        geo_search: FeatureSupport::Native,
        streaming_search: FeatureSupport::Unsupported,
        autocomplete: FeatureSupport::Native,
        typo_tolerance: FeatureSupport::Native,
        custom_ranking: FeatureSupport::Native,
        multilingual: FeatureSupport::Native,
        batch_operations: FeatureSupport::Native,
    })
    &&& m.performance_limits == (PerformanceLimits {
        max_batch_size: Some(1000),
        max_query_length: Some(512),
        max_facets: Some(100),
        max_filters: Some(100),
        max_results_per_page: Some(1000),
        default_timeout_seconds: Some(30),
        rate_limit_rps: Some(1000),
    })
    &&& specific_view(m.provider_specific@) =~= seq![("analytics"@, FeatureSupport::Native), ("ab_testing"@, FeatureSupport::Native), ("personalization"@, FeatureSupport::Native), ("recommend"@, FeatureSupport::Native)]
    &&& distinct_keys(specific_view(m.provider_specific@))
}

/// The opensearch matrix, field by field.
pub open spec fn opensearch_matrix(m: CapabilityMatrix) -> bool {
    &&& m.provider_name@ == "opensearch"@
    &&& m.provider_version is None
    &&& all_core_native(m.core_capabilities)
    &&& m.advanced_features == (AdvancedFeatures {
        vector_search: FeatureSupport::Native,
        ..elasticsearch_advanced()
    })
    &&& m.performance_limits == elasticsearch_limits()
    &&& specific_view(m.provider_specific@) =~= seq![
        ("scroll_api"@, FeatureSupport::Native),
        ("percolator"@, FeatureSupport::Native),
        ("machine_learning"@, FeatureSupport::Conditional),
        ("security"@, FeatureSupport::Conditional),
        ("neural_search"@, FeatureSupport::Native),
        ("anomaly_detection"@, FeatureSupport::Native),
    ]
    &&& distinct_keys(specific_view(m.provider_specific@))
}

/// The matrix of a provider named by its identifier (`"algolia"`,
/// `"elasticsearch"`, `"opensearch"`, `"typesense"`, `"meilisearch"`).
pub fn get_capability_matrix(provider: &str) -> (r: Option<CapabilityMatrix>)
    ensures
        r matches Some(m) ==> provider_matrix(provider@, m),
        r is None <==> !known_provider(provider@),
{
    proof {
        reveal_strlit("algolia");
        reveal_strlit("elasticsearch");
        reveal_strlit("opensearch");
        reveal_strlit("typesense");
        reveal_strlit("meilisearch");
        assert("algolia"@.len() == 7);
        assert("elasticsearch"@.len() == 13);
        assert("opensearch"@.len() == 10);
        assert("typesense"@.len() == 9);
        assert("meilisearch"@.len() == 11);
    }
    if str_eq(provider, "algolia") {
        Some(algolia_capability_matrix())
    } else if str_eq(provider, "elasticsearch") {
        Some(elasticsearch_capability_matrix())
    } else if str_eq(provider, "opensearch") {
        Some(opensearch_capability_matrix())
    } else if str_eq(provider, "typesense") {
        Some(typesense_capability_matrix())
    } else if str_eq(provider, "meilisearch") {
        Some(meilisearch_capability_matrix())
    } else {
        None
    }
}

/// `m` is the full matrix of the provider named `name`.
pub open spec fn provider_matrix(name: Seq<char>, m: CapabilityMatrix) -> bool {
    &&& name == "algolia"@ ==> algolia_matrix(m)
    &&& name == "elasticsearch"@ ==> elasticsearch_matrix(m)
    &&& name == "opensearch"@ ==> opensearch_matrix(m)
    &&& name == "typesense"@ ==> typesense_matrix(m)
    &&& name == "meilisearch"@ ==> meilisearch_matrix(m)
    &&& m.provider_name@ == name
}

/// The five providers with a capability matrix.
pub open spec fn known_provider(name: Seq<char>) -> bool {
    name == "algolia"@ || name == "elasticsearch"@ || name == "opensearch"@ || name == "typesense"@
        || name == "meilisearch"@
}


/// Two matrices name the same provider and declare the same support and limits.
pub open spec fn same_support(a: CapabilityMatrix, b: CapabilityMatrix) -> bool {
    &&& a.provider_name@ == b.provider_name@
    &&& a.core_capabilities == b.core_capabilities
    &&& a.advanced_features == b.advanced_features
    &&& a.performance_limits == b.performance_limits
    &&& specific_view(a.provider_specific@) == specific_view(b.provider_specific@)
}

/// A copy of a matrix.
pub fn copy_matrix(m: &CapabilityMatrix) -> (r: CapabilityMatrix)
    ensures
        same_support(r, *m),
        r.provider_version == m.provider_version,
        distinct_keys(specific_view(m.provider_specific@)) ==> distinct_keys(specific_view(r.provider_specific@)),
{
    let mut specific: Vec<(String, FeatureSupport)> = Vec::new();
    let mut i: usize = 0;
    while i < m.provider_specific.len()
        invariant
            i <= m.provider_specific@.len(),
            specific_view(specific@) == specific_view(m.provider_specific@.subrange(0, i as int)),
        decreases m.provider_specific@.len() - i,
    {
        let ghost prev = specific@;
        specific.push((m.provider_specific[i].0.clone(), m.provider_specific[i].1));
        assert(specific_view(specific@) =~= specific_view(prev).push(
            (m.provider_specific@[i as int].0@, m.provider_specific@[i as int].1),
        ));
        assert(specific_view(m.provider_specific@.subrange(0, i + 1)) =~= specific_view(
            m.provider_specific@.subrange(0, i as int),
        ).push((m.provider_specific@[i as int].0@, m.provider_specific@[i as int].1)));
        i = i + 1;
    }
    assert(m.provider_specific@.subrange(0, m.provider_specific@.len() as int) =~= m.provider_specific@);
    let version = match &m.provider_version {
        Some(v) => Some(v.clone()),
        None => None,
    };
    CapabilityMatrix {
        provider_name: m.provider_name.clone(),
        provider_version: version,
        core_capabilities: m.core_capabilities,
        advanced_features: m.advanced_features,
        performance_limits: m.performance_limits,
        provider_specific: specific,
    }
}

/// The support of a core capability, by its field name.
pub open spec fn core_support(c: CoreCapabilities, feature: Seq<char>) -> Option<FeatureSupport> {
    if feature == "full_text_search"@ {
        Some(c.full_text_search)
    } else if feature == "keyword_search"@ {
        Some(c.keyword_search)
    } else if feature == "index_management"@ {
        Some(c.index_management)
    } else if feature == "document_operations"@ {
        Some(c.document_operations)
    } else if feature == "schema_management"@ {
        Some(c.schema_management)
    } else if feature == "filtering"@ {
        Some(c.filtering)
    } else if feature == "pagination"@ {
        Some(c.pagination)
    } else {
        None
    }
}

/// The support of an advanced feature, by its field name.
pub open spec fn advanced_support(a: AdvancedFeatures, feature: Seq<char>) -> Option<FeatureSupport> {
    if feature == "faceted_search"@ {
        Some(a.faceted_search)
    } else if feature == "highlighting"@ {
        Some(a.highlighting)
    } else if feature == "vector_search"@ {
        Some(a.vector_search)
    } else if feature == "geo_search"@ {
        Some(a.geo_search)
    } else if feature == "streaming_search"@ {
        Some(a.streaming_search)
    } else if feature == "autocomplete"@ {
        Some(a.autocomplete)
    } else if feature == "typo_tolerance"@ {
        Some(a.typo_tolerance)
    } else if feature == "custom_ranking"@ {
        Some(a.custom_ranking)
    } else if feature == "multilingual"@ {
        Some(a.multilingual)
    } else if feature == "batch_operations"@ {
        Some(a.batch_operations)
    } else {
        None
    }
}

/// The support a matrix declares for a named feature: a core capability or
/// advanced feature by its field name, else a provider-specific feature,
/// else `Unsupported`.
pub open spec fn declared_support(m: CapabilityMatrix, feature: Seq<char>) -> FeatureSupport {
    match core_support(m.core_capabilities, feature) {
        Some(f) => f,
        None => match advanced_support(m.advanced_features, feature) {
            Some(f) => f,
            None => match lookup_support(m.provider_specific@, feature) {
                Some(f) => f,
                None => FeatureSupport::Unsupported,
            },
        },
    }
}

fn core_support_exec(c: &CoreCapabilities, feature: &str) -> (r: Option<FeatureSupport>)
    ensures
        r == core_support(*c, feature@),
{
    if str_eq(feature, "full_text_search") {
        Some(c.full_text_search)
    } else if str_eq(feature, "keyword_search") {
        Some(c.keyword_search)
    } else if str_eq(feature, "index_management") {
        Some(c.index_management)
    } else if str_eq(feature, "document_operations") {
        Some(c.document_operations)
    } else if str_eq(feature, "schema_management") {
        Some(c.schema_management)
    } else if str_eq(feature, "filtering") {
        Some(c.filtering)
    } else if str_eq(feature, "pagination") {
        Some(c.pagination)
    } else {
        None
    }
}

fn advanced_support_exec(a: &AdvancedFeatures, feature: &str) -> (r: Option<FeatureSupport>)
    ensures
        r == advanced_support(*a, feature@),
{
    if str_eq(feature, "faceted_search") {
        Some(a.faceted_search)
    } else if str_eq(feature, "highlighting") {
        Some(a.highlighting)
    } else if str_eq(feature, "vector_search") {
        Some(a.vector_search)
    } else if str_eq(feature, "geo_search") {
        Some(a.geo_search)
    } else if str_eq(feature, "streaming_search") {
        Some(a.streaming_search)
    } else if str_eq(feature, "autocomplete") {
        Some(a.autocomplete)
    } else if str_eq(feature, "typo_tolerance") {
        Some(a.typo_tolerance)
    } else if str_eq(feature, "custom_ranking") {
        Some(a.custom_ranking)
    } else if str_eq(feature, "multilingual") {
        Some(a.multilingual)
    } else if str_eq(feature, "batch_operations") {
        Some(a.batch_operations)
    } else {
        None
    }
}

impl CapabilityMatrix {
    /// The support declared for a named feature.
    pub fn feature_support(&self, feature: &str) -> (r: FeatureSupport)
        ensures
            r == declared_support(*self, feature@),
    {
        if let Some(f) = core_support_exec(&self.core_capabilities, feature) {
            return f;
        }
        if let Some(f) = advanced_support_exec(&self.advanced_features, feature) {
            return f;
        }
        match find_support(&self.provider_specific, feature) {
            Some(f) => f,
            None => FeatureSupport::Unsupported,
        }
    }
}

/// What a provider wrapper declares about itself.
pub trait ProviderCapabilities {
    /// The capability matrix the provider declares.
    spec fn declared_matrix(&self) -> CapabilityMatrix;

    /// The degradation strategy the provider recommends.
    spec fn declared_strategy(&self) -> DegradationStrategy;

    /// The provider's capability matrix.
    fn get_capability_matrix(&self) -> (r: CapabilityMatrix)
        ensures
            same_support(r, self.declared_matrix()),
    ;

    /// The support of a named feature.
    fn supports_feature(&self, feature: &str) -> (r: FeatureSupport);

    /// The provider's recommended degradation strategy.
    fn get_degradation_strategy(&self) -> (r: DegradationStrategy)
        ensures
            r == self.declared_strategy(),
    ;

    /// Checks a query against the provider's matrix and strategy.
    fn validate_query_compatibility(&self, query: &SearchQuery) -> (r: QuerySupportResult)
        ensures
            issues_view(r.issues@) == query_issues(self.declared_matrix(), self.declared_strategy(), *query),
            r.is_fully_supported == (r.issues@.len() == 0),
            r.requires_fallback == query_requires_fallback(self.declared_matrix(), *query),
    {
        let matrix = self.get_capability_matrix();
        let strategy = self.get_degradation_strategy();
        let checker = CapabilityChecker::new(matrix, strategy);
        checker.check_query_support(query)
    }
}

} // verus!
