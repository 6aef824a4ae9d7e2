use golem_search::capabilities::{FeatureSupport, ProviderCapabilities};
use golem_search::elastic::{suggest_configuration_improvements, ElasticSearchProviderWithDegradation};
use golem_search::types::{HighlightConfig, SearchHit, SearchQuery, SearchResults};

#[test]
fn test_elasticsearch_capability_matrix() {
    let provider = ElasticSearchProviderWithDegradation::new();
    let matrix = provider.get_capability_matrix();

    assert_eq!(matrix.provider_name, "elasticsearch");
    assert_eq!(matrix.core_capabilities.full_text_search, FeatureSupport::Native);
    assert_eq!(matrix.advanced_features.faceted_search, FeatureSupport::Native);
    assert_eq!(matrix.advanced_features.vector_search, FeatureSupport::Conditional);
}

#[test]
fn test_query_validation() {
    let provider = ElasticSearchProviderWithDegradation::new();

    let query = SearchQuery {
        q: Some("test query".to_string()),
        filters: vec![],
        sort: vec![],
        facets: vec!["category".to_string()],
        page: None,
        per_page: Some(50),
        offset: None,
        highlight: Some(HighlightConfig {
            fields: vec!["title".to_string()],
            pre_tag: Some("<mark>".to_string()),
            post_tag: Some("</mark>".to_string()),
            max_length: Some(200),
        }),
        config: None,
    };

    let result = provider.validate_query(&query);

    // This query should be fully supported by ElasticSearch
    assert!(result.is_fully_supported);
    assert!(!result.requires_fallback);
}

#[test]
fn test_unsupported_feature_query() {
    let provider = ElasticSearchProviderWithDegradation::new();

    let query = SearchQuery {
        q: Some("test query".to_string()),
        filters: vec![],
        sort: vec![],
        facets: vec![],
        page: None,
        per_page: Some(20000), // Exceeds max_results_per_page limit
        offset: None,
        highlight: None,
        config: None,
    };

    let result = provider.validate_query(&query);

    // This query should have performance limit issues
    assert!(!result.is_fully_supported);
    assert!(!result.issues.is_empty());
}

#[test]
fn test_feature_support_check() {
    let provider = ElasticSearchProviderWithDegradation::new();

    assert_eq!(provider.supports_feature("full_text_search"), FeatureSupport::Native);
    assert_eq!(provider.supports_feature("faceted_search"), FeatureSupport::Native);
    assert_eq!(provider.supports_feature("vector_search"), FeatureSupport::Conditional);
    assert_eq!(provider.supports_feature("nonexistent_feature"), FeatureSupport::Unsupported);
}

#[test]
fn provider_specific_features_and_compatibility() {
    let provider = ElasticSearchProviderWithDegradation::new();
    assert_eq!(provider.supports_feature("percolator"), FeatureSupport::Native);
    assert_eq!(provider.supports_feature("security"), FeatureSupport::Conditional);
    assert_eq!(provider.supports_feature("typo_tolerance"), FeatureSupport::Limited);
    let mut query = SearchQuery {
        q: None,
        filters: vec![],
        sort: vec![],
        facets: vec![],
        page: None,
        per_page: Some(20000),
        offset: None,
        highlight: None,
        config: None,
    };
    let r = provider.validate_query_compatibility(&query);
    assert_eq!(r.issues.len(), 1);
    let advice = provider.get_feature_recommendations(&query);
    assert_eq!(
        advice,
        vec!["Parameter 'per_page' requested value '20000' exceeds limit '10000'. Consider reducing the value.".to_string()]
    );
    query.per_page = Some(10);
    assert!(provider.get_feature_recommendations(&query).is_empty());
}

#[test]
fn native_features_leave_results_to_the_provider() {
    let provider = ElasticSearchProviderWithDegradation::new();
    let query = SearchQuery {
        q: Some("rust".to_string()),
        filters: vec![],
        sort: vec![],
        facets: vec!["category".to_string()],
        page: None,
        per_page: None,
        offset: None,
        highlight: None,
        config: None,
    };
    let mut results = SearchResults {
        total: None,
        page: None,
        per_page: None,
        hits: vec![SearchHit { id: "1".into(), score: None, content: Some("{\"category\":\"a\"}".into()), highlights: None }],
        facets: None,
        took_ms: Some(4),
    };
    provider.process_search_results(&mut results, &query).unwrap();
    assert_eq!(results.facets, None);
    assert_eq!(results.total, Some(1));
    assert_eq!(results.took_ms, Some(4));
}

#[test]
fn configuration_suggestions() {
    let mut q = SearchQuery {
        q: None,
        filters: vec![],
        sort: vec![],
        facets: vec!["a".to_string()],
        page: None,
        per_page: Some(500),
        offset: None,
        highlight: None,
        config: None,
    };
    assert_eq!(
        suggest_configuration_improvements(&[q.clone()]),
        vec![
            "Consider enabling aggressive caching for faceted queries".to_string(),
            "Consider using scroll API for large result sets".to_string()
        ]
    );
    q.facets.clear();
    q.per_page = None;
    assert!(suggest_configuration_improvements(&[q]).is_empty());
}
