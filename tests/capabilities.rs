use golem_search::capabilities::{
    algolia_capability_matrix, elasticsearch_capability_matrix, get_capability_matrix, meilisearch_capability_matrix,
    opensearch_capability_matrix, typesense_capability_matrix, CapabilityChecker, CapabilityMatrix,
    CompatibilityIssue, DegradationStrategy, FacetFallback, FeatureSupport, HighlightFallback,
};
use golem_search::types::{HighlightConfig, SearchQuery};

fn query() -> SearchQuery {
    SearchQuery {
        q: None,
        filters: vec![],
        sort: vec![],
        facets: vec![],
        page: None,
        per_page: None,
        offset: None,
        highlight: None,
        config: None,
    }
}

fn checker(matrix: CapabilityMatrix) -> CapabilityChecker {
    CapabilityChecker::new(matrix, DegradationStrategy::default())
}

#[test]
fn provider_names() {
    assert_eq!(algolia_capability_matrix().provider_name, "algolia");
    assert_eq!(elasticsearch_capability_matrix().provider_name, "elasticsearch");
    assert_eq!(opensearch_capability_matrix().provider_name, "opensearch");
    assert_eq!(typesense_capability_matrix().provider_name, "typesense");
    assert_eq!(meilisearch_capability_matrix().provider_name, "meilisearch");
    for name in ["algolia", "elasticsearch", "opensearch", "typesense", "meilisearch"] {
        assert_eq!(get_capability_matrix(name).unwrap().provider_name, name);
    }
    assert!(get_capability_matrix("solr").is_none());
}

#[test]
fn provider_judgments() {
    assert_eq!(elasticsearch_capability_matrix().advanced_features.vector_search, FeatureSupport::Conditional);
    assert_eq!(opensearch_capability_matrix().advanced_features.vector_search, FeatureSupport::Native);
    assert_eq!(typesense_capability_matrix().advanced_features.streaming_search, FeatureSupport::Unsupported);
    assert_eq!(typesense_capability_matrix().advanced_features.typo_tolerance, FeatureSupport::Native);
    assert_eq!(algolia_capability_matrix().performance_limits.rate_limit_rps, Some(1000));
    assert_eq!(opensearch_capability_matrix().provider_specific.len(), 6);
}

#[test]
fn feature_support_predicates() {
    let all = [
        FeatureSupport::Native,
        FeatureSupport::Limited,
        FeatureSupport::Unsupported,
        FeatureSupport::Conditional,
        FeatureSupport::Emulated,
    ];
    for f in all {
        assert_eq!(f.is_available(), f != FeatureSupport::Unsupported);
        assert_eq!(f.is_native(), f == FeatureSupport::Native);
        assert_eq!(f.needs_fallback(), f == FeatureSupport::Limited || f == FeatureSupport::Emulated);
        assert_eq!(FeatureSupport::from_name(&f.name()), Some(f));
    }
    assert_eq!(FeatureSupport::from_name("Sometimes"), None);
}

#[test]
fn native_facets_are_fully_supported() {
    let mut q = query();
    q.facets = vec!["category".to_string()];
    let r = checker(elasticsearch_capability_matrix()).check_query_support(&q);
    assert!(r.is_fully_supported);
    assert!(r.issues.is_empty());
    assert!(!r.requires_fallback);
}

#[test]
fn unsupported_facets_require_fallback() {
    let mut m = elasticsearch_capability_matrix();
    m.advanced_features.faceted_search = FeatureSupport::Unsupported;
    let mut q = query();
    q.facets = vec!["category".to_string()];
    let r = checker(m).check_query_support(&q);
    assert!(r.requires_fallback);
    assert!(!r.is_fully_supported);
    match &r.issues[0] {
        CompatibilityIssue::UnsupportedFeature { feature, fallback } => {
            assert_eq!(feature, "faceted_search");
            assert_eq!(fallback, "ClientSide");
        }
        other => panic!("unexpected issue {:?}", other),
    }
}

#[test]
fn page_size_over_the_limit() {
    let mut q = query();
    q.per_page = Some(20000);
    let r = checker(elasticsearch_capability_matrix()).check_query_support(&q);
    assert!(!r.is_fully_supported);
    assert!(!r.requires_fallback);
    match &r.issues[0] {
        CompatibilityIssue::PerformanceLimit { parameter, requested, limit } => {
            assert_eq!(parameter, "per_page");
            assert_eq!(requested, "20000");
            assert_eq!(limit, "10000");
        }
        other => panic!("unexpected issue {:?}", other),
    }
}

#[test]
fn every_issue_kind_in_order() {
    let mut m = typesense_capability_matrix();
    m.advanced_features.faceted_search = FeatureSupport::Limited;
    m.advanced_features.highlighting = FeatureSupport::Emulated;
    let mut strategy = DegradationStrategy::default();
    strategy.facet_fallback = FacetFallback::Empty;
    strategy.highlight_fallback = HighlightFallback::RemoveHighlights;
    let mut q = query();
    q.facets = vec!["a".to_string()];
    q.highlight = Some(HighlightConfig { fields: vec!["t".into()], pre_tag: None, post_tag: None, max_length: None });
    q.per_page = Some(251);
    q.q = Some("é".repeat(1025));
    q.filters = (0..101).map(|i| format!("f{}:v", i)).collect();
    let r = CapabilityChecker::new(m, strategy).check_query_support(&q);
    assert!(r.requires_fallback);
    assert_eq!(r.issues.len(), 5);
    assert!(matches!(&r.issues[0], CompatibilityIssue::LimitedSupport { feature, .. } if feature == "faceted_search"));
    assert!(matches!(&r.issues[1], CompatibilityIssue::RequiresFallback { method, .. } if method == "Client-side text processing"));
    assert!(matches!(&r.issues[2], CompatibilityIssue::PerformanceLimit { requested, .. } if requested == "251"));
    // The query length counts bytes: 1025 two-byte characters.
    assert!(matches!(&r.issues[3], CompatibilityIssue::PerformanceLimit { parameter, requested, limit }
        if parameter == "query_length" && requested == "2050" && limit == "2048"));
    assert!(matches!(&r.issues[4], CompatibilityIssue::PerformanceLimit { parameter, requested, .. }
        if parameter == "filter_count" && requested == "101"));
}

#[test]
fn conditional_highlighting() {
    let mut m = meilisearch_capability_matrix();
    m.advanced_features.highlighting = FeatureSupport::Conditional;
    let mut q = query();
    q.highlight = Some(HighlightConfig { fields: vec!["t".into()], pre_tag: None, post_tag: None, max_length: None });
    let r = checker(m).check_query_support(&q);
    assert!(!r.requires_fallback);
    assert!(matches!(&r.issues[0], CompatibilityIssue::ConditionalSupport { condition, .. }
        if condition == "Depends on field configuration"));
}

#[test]
fn default_strategy() {
    let s = DegradationStrategy::default();
    assert_eq!(s.facet_fallback, FacetFallback::ClientSide);
    assert_eq!(s.highlight_fallback, HighlightFallback::ClientSide);
    assert!(s.log_unsupported_warnings);
    assert!(!s.strict_mode);
    let c = CapabilityChecker::new(algolia_capability_matrix(), s);
    assert_eq!(c.get_matrix().provider_name, "algolia");
    assert!(!c.get_strategy().strict_mode);
}

#[test]
fn support_names_round_trip() {
    for f in [
        FeatureSupport::Native,
        FeatureSupport::Limited,
        FeatureSupport::Unsupported,
        FeatureSupport::Conditional,
        FeatureSupport::Emulated,
    ] {
        let name = f.name();
        assert_eq!(FeatureSupport::from_name(&name), Some(f));
    }
    assert_eq!(FeatureSupport::Emulated.name(), "Emulated");
}
