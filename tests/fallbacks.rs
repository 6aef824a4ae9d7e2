use golem_search::capabilities::{DegradationStrategy, FacetFallback, FeatureSupport, HighlightFallback};
use golem_search::error::SearchError;
use golem_search::fallbacks::{FallbackProcessor, FeatureDetector, PerformanceImpact, StreamingFallback};
use golem_search::types::{HighlightConfig, SearchConfig, SearchHit, SearchQuery, SearchResults};

fn hit(id: &str, score: f64, content: &str) -> SearchHit {
    SearchHit {
        id: id.to_string(),
        score: Some(score.to_bits()),
        content: Some(content.to_string()),
        highlights: None,
    }
}

fn count(facets: &[(String, Vec<(String, usize)>)], field: &str, value: &str) -> usize {
    let (_, counts) = facets.iter().find(|(f, _)| f == field).unwrap();
    counts.iter().find(|(v, _)| v == value).unwrap().1
}

fn empty_query() -> SearchQuery {
    SearchQuery {
        q: None,
        filters: vec![],
        sort: vec![],
        facets: vec![],
        page: None,
        per_page: None,
        offset: None,
        highlight: None,
        config: None,
    }
}

#[test]
fn test_client_side_facets() {
    let processor = FallbackProcessor::new(DegradationStrategy::default());

    let hits = vec![
        hit("1", 1.0, r#"{"category": "books", "price": 10}"#),
        hit("2", 0.8, r#"{"category": "books", "price": 15}"#),
        hit("3", 0.6, r#"{"category": "electronics", "price": 100}"#),
    ];

    let facets = processor.compute_client_side_facets(&hits, &vec!["category".to_string()]).unwrap();

    assert_eq!(facets.len(), 1);
    assert_eq!(count(&facets, "category", "books"), 2);
    assert_eq!(count(&facets, "category", "electronics"), 1);
}

#[test]
fn test_client_side_highlighting() {
    let processor = FallbackProcessor::new(DegradationStrategy::default());

    let terms = vec!["rust".to_string(), "programming".to_string()];
    let highlighted = processor.highlight_text(
        "Rust is a great programming language for systems programming",
        &terms,
        "<mark>",
        "</mark>",
        Some(100),
    );

    assert!(!highlighted.is_empty());

    // Check that we have highlighting for both terms (may be in different snippets)
    let all_highlighted = highlighted.join(" ");
    assert!(all_highlighted.contains("<mark>Rust</mark>"));
    assert!(all_highlighted.contains("<mark>programming</mark>"));
}

#[test]
fn test_feature_detection() {
    let query = SearchQuery {
        q: Some("test query".to_string()),
        filters: vec!["geo_distance(location, 10km)".to_string()],
        sort: vec![],
        facets: vec!["category".to_string()],
        page: None,
        per_page: None,
        offset: None,
        highlight: None,
        config: None,
    };

    assert!(FeatureDetector::uses_geo_search(&query));
    assert!(!FeatureDetector::uses_vector_search(&query));
}

#[test]
fn facets_count_array_elements_numbers_and_booleans() {
    let processor = FallbackProcessor::new(DegradationStrategy::default());
    let hits = vec![
        hit("1", 1.0, r#"{"tags": ["a", "b"], "year": 2020, "new": true}"#),
        hit("2", 1.0, r#"{"tags": ["a", 3], "year": 2020, "new": false}"#),
        hit("3", 1.0, "not json"),
    ];
    let fields = vec!["tags".to_string(), "year".to_string(), "new".to_string(), "missing".to_string()];
    let facets = processor.compute_client_side_facets(&hits, &fields).unwrap();
    assert_eq!(facets.len(), 3);
    assert_eq!(count(&facets, "tags", "a"), 2);
    assert_eq!(count(&facets, "tags", "b"), 1);
    assert_eq!(count(&facets, "tags", "3"), 1);
    assert_eq!(count(&facets, "year", "2020"), 2);
    assert_eq!(count(&facets, "new", "true"), 1);
    assert_eq!(count(&facets, "new", "false"), 1);
}

#[test]
fn search_terms_are_cleaned_and_short_ones_dropped() {
    let mut query = empty_query();
    query.q = Some("  Hello, World!  an  C++ rust-lang ".to_string());
    let processor = FallbackProcessor::new(DegradationStrategy::default());
    let terms = processor.extract_search_terms(&query).unwrap();
    assert_eq!(terms, vec!["hello".to_string(), "world".to_string(), "rustlang".to_string()]);
}

#[test]
fn snippets_are_sorted_deduplicated_and_capped() {
    let terms = vec!["delta".to_string(), "alpha".to_string(), "alpha".to_string(), "gamma".to_string(), "beta".to_string()];
    let processor = FallbackProcessor::new(DegradationStrategy::default());
    let snippets = processor.highlight_text("alpha beta gamma delta", &terms, "[", "]", Some(1000));
    assert_eq!(snippets.len(), 3);
    assert!(snippets[0] < snippets[1] && snippets[1] < snippets[2]);
}

#[test]
fn snippet_window_is_clipped_to_max_length() {
    let text = format!("{} needle {}", "x".repeat(79), "y".repeat(79));
    let terms = vec!["needle".to_string()];
    let processor = FallbackProcessor::new(DegradationStrategy::default());
    let snippets = processor.highlight_text(&text, &terms, "<b>", "</b>", Some(20));
    assert_eq!(snippets, vec![format!("{}", "x".repeat(20))]);
    let snippets = processor.highlight_text(&text, &terms, "<b>", "</b>", None);
    assert_eq!(snippets, vec![format!("{} <b>needle</b> {}", "x".repeat(49), "y".repeat(49))]);
}

#[test]
fn feature_detection_of_vectors_and_aggregations() {
    let mut query = empty_query();
    query.config = Some(SearchConfig {
        timeout_ms: None,
        boost_fields: vec![],
        attributes_to_retrieve: vec![],
        language: None,
        typo_tolerance: None,
        exact_match_boost: None,
        provider_params: Some(r#"{"embedding": [0.1, 0.2]}"#.to_string()),
    });
    assert!(FeatureDetector::uses_vector_search(&query));
    query.facets = vec!["a".into(), "b".into(), "c".into(), "d".into(), "e".into(), "f".into()];
    assert!(FeatureDetector::uses_advanced_aggregations(&query));
    query.facets = vec!["nested.price".into()];
    assert!(FeatureDetector::uses_advanced_aggregations(&query));
    query.facets = vec!["price".into()];
    assert!(!FeatureDetector::uses_advanced_aggregations(&query));
}

#[test]
fn performance_impact_takes_the_maximum() {
    let mut query = empty_query();
    query.facets = (0..5).map(|i| format!("f{}", i)).collect();
    assert_eq!(FeatureDetector::estimate_fallback_performance_impact(&query, &vec![]), PerformanceImpact::Low);
    assert_eq!(
        FeatureDetector::estimate_fallback_performance_impact(&query, &vec!["highlighting".to_string()]),
        PerformanceImpact::Low
    );
    assert_eq!(
        FeatureDetector::estimate_fallback_performance_impact(&query, &vec!["faceted_search".to_string()]),
        PerformanceImpact::Medium
    );
    assert_eq!(
        FeatureDetector::estimate_fallback_performance_impact(
            &query,
            &vec!["vector_search".to_string(), "highlighting".to_string()]
        ),
        PerformanceImpact::High
    );
    assert_eq!(
        FeatureDetector::estimate_fallback_performance_impact(&query, &vec!["something".to_string()]),
        PerformanceImpact::Medium
    );
}

fn results(hits: Vec<SearchHit>) -> SearchResults {
    SearchResults { total: None, page: None, per_page: None, hits, facets: None, took_ms: None }
}

#[test]
fn process_fills_client_side_facets_and_defaults() {
    let processor = FallbackProcessor::new(DegradationStrategy::default());
    let mut r = results(vec![
        hit("1", 1.0, r#"{"category": "books"}"#),
        hit("2", 1.0, r#"{"category": "books"}"#),
        hit("3", 1.0, r#"{"category": "electronics"}"#),
    ]);
    let mut query = empty_query();
    query.facets = vec!["category".to_string()];
    processor.process_search_results(&mut r, &query, &vec![]).unwrap();
    let facets: serde_json::Value = serde_json::from_str(r.facets.as_ref().unwrap()).unwrap();
    assert_eq!(facets["category"]["books"], 2);
    assert_eq!(facets["category"]["electronics"], 1);
    assert_eq!(r.total, Some(3));
    assert_eq!(r.took_ms, Some(0));
}

#[test]
fn process_adds_client_side_highlights() {
    let processor = FallbackProcessor::new(DegradationStrategy::default());
    let mut r = results(vec![
        hit("1", 1.0, r#"{"title": "Learning Rust quickly"}"#),
        hit("2", 1.0, r#"{"title": "Nothing here"}"#),
    ]);
    let mut query = empty_query();
    query.q = Some("rust".to_string());
    query.highlight = Some(HighlightConfig {
        fields: vec!["title".to_string()],
        pre_tag: None,
        post_tag: None,
        max_length: None,
    });
    processor
        .process_search_results(&mut r, &query, &vec![("highlighting".to_string(), FeatureSupport::Emulated)])
        .unwrap();
    let h: serde_json::Value = serde_json::from_str(r.hits[0].highlights.as_ref().unwrap()).unwrap();
    assert_eq!(h["title"][0], "Learning <mark>Rust</mark> quickly");
    assert_eq!(r.hits[1].highlights, None);
}

#[test]
fn process_with_native_support_is_idempotent() {
    let processor = FallbackProcessor::new(DegradationStrategy::default());
    let mut r = results(vec![hit("1", 1.0, r#"{"category": "books"}"#)]);
    let mut query = empty_query();
    query.facets = vec!["category".to_string()];
    let supported = vec![("faceted_search".to_string(), FeatureSupport::Native)];
    processor.process_search_results(&mut r, &query, &supported).unwrap();
    let once = format!("{:?}", r);
    processor.process_search_results(&mut r, &query, &supported).unwrap();
    assert_eq!(format!("{:?}", r), once);
    processor.process_search_results(&mut r, &query, &supported).unwrap();
    assert_eq!(format!("{:?}", r), once);
    assert_eq!(r.facets, None);
    assert_eq!(r.total, Some(1));
}

#[test]
fn error_policies_refuse() {
    let mut strategy = DegradationStrategy::default();
    strategy.facet_fallback = FacetFallback::Error;
    let processor = FallbackProcessor::new(strategy);
    let mut r = results(vec![]);
    let mut query = empty_query();
    query.facets = vec!["category".to_string()];
    assert!(matches!(processor.process_search_results(&mut r, &query, &vec![]), Err(SearchError::Unsupported)));

    let mut strategy = DegradationStrategy::default();
    strategy.highlight_fallback = HighlightFallback::Error;
    let processor = FallbackProcessor::new(strategy);
    let mut query = empty_query();
    query.highlight = Some(HighlightConfig { fields: vec!["t".into()], pre_tag: None, post_tag: None, max_length: None });
    assert!(matches!(processor.process_search_results(&mut r, &query, &vec![]), Err(SearchError::Unsupported)));
}

#[test]
fn empty_and_separate_query_policies_give_empty_facets() {
    for policy in [FacetFallback::Empty, FacetFallback::SeparateQueries] {
        let mut strategy = DegradationStrategy::default();
        strategy.facet_fallback = policy;
        let processor = FallbackProcessor::new(strategy);
        let mut r = results(vec![hit("1", 1.0, r#"{"category": "books"}"#)]);
        let mut query = empty_query();
        query.facets = vec!["category".to_string()];
        processor.process_search_results(&mut r, &query, &vec![]).unwrap();
        assert_eq!(r.facets, Some("{}".to_string()));
    }
}

#[test]
fn removing_highlights_clears_every_hit() {
    let mut strategy = DegradationStrategy::default();
    strategy.highlight_fallback = HighlightFallback::RemoveHighlights;
    let processor = FallbackProcessor::new(strategy);
    let mut h = hit("1", 1.0, "{}");
    h.highlights = Some("{\"t\":[\"x\"]}".to_string());
    let mut r = results(vec![h]);
    let mut query = empty_query();
    query.highlight = Some(HighlightConfig { fields: vec!["t".into()], pre_tag: None, post_tag: None, max_length: None });
    processor.process_search_results(&mut r, &query, &vec![]).unwrap();
    assert_eq!(r.hits[0].highlights, None);
}

#[test]
fn pagination_emulates_streaming() {
    let fallback = StreamingFallback::new(25, None);
    let mut query = empty_query();
    query.q = Some("x".to_string());
    let pages = fallback.paginate_query(&query);
    assert_eq!(pages.len(), 10);
    for (i, p) in pages.iter().enumerate() {
        assert_eq!(p.page, Some(i as u32));
        assert_eq!(p.per_page, Some(25));
        assert_eq!(p.q, Some("x".to_string()));
    }
    assert_eq!(StreamingFallback::new(5, Some(3)).paginate_query(&query).len(), 3);
}

#[test]
fn combining_pages() {
    let fallback = StreamingFallback::new(2, Some(2));
    let empty = fallback.combine_results(vec![]).unwrap();
    assert_eq!(empty.total, Some(0));
    assert_eq!(empty.per_page, Some(2));
    assert_eq!(empty.took_ms, Some(0));
    assert!(empty.hits.is_empty());

    let mut first = results(vec![hit("1", 1.0, "{}"), hit("2", 1.0, "{}")]);
    first.total = Some(3);
    first.took_ms = Some(5);
    first.facets = Some("{}".to_string());
    let mut second = results(vec![hit("3", 1.0, "{}")]);
    second.total = Some(99);
    second.took_ms = Some(7);
    let all = fallback.combine_results(vec![first, second]).unwrap();
    assert_eq!(all.total, Some(3));
    assert_eq!(all.page, Some(0));
    assert_eq!(all.per_page, Some(3));
    assert_eq!(all.took_ms, Some(12));
    assert_eq!(all.facets, Some("{}".to_string()));
    let ids: Vec<&str> = all.hits.iter().map(|h| h.id.as_str()).collect();
    assert_eq!(ids, vec!["1", "2", "3"]);
}

#[test]
fn refused_highlighting_keeps_facets_already_written() {
    let mut strategy = DegradationStrategy::default();
    strategy.highlight_fallback = HighlightFallback::Error;
    let processor = FallbackProcessor::new(strategy);
    let mut r = results(vec![hit("1", 1.0, r#"{"category": "books"}"#)]);
    let mut query = empty_query();
    query.facets = vec!["category".to_string()];
    query.highlight = Some(HighlightConfig { fields: vec!["t".into()], pre_tag: None, post_tag: None, max_length: None });
    assert!(matches!(processor.process_search_results(&mut r, &query, &vec![]), Err(SearchError::Unsupported)));
    let facets: serde_json::Value = serde_json::from_str(r.facets.as_ref().unwrap()).unwrap();
    assert_eq!(facets["category"]["books"], 1);
    assert_eq!(r.total, None);
    assert_eq!(r.took_ms, None);
}

#[test]
fn refused_facets_leave_results_unchanged() {
    let mut strategy = DegradationStrategy::default();
    strategy.facet_fallback = FacetFallback::Error;
    let processor = FallbackProcessor::new(strategy);
    let mut r = results(vec![hit("1", 1.0, r#"{"category": "books"}"#)]);
    let before = format!("{:?}", r);
    let mut query = empty_query();
    query.facets = vec!["category".to_string()];
    assert!(processor.process_search_results(&mut r, &query, &vec![]).is_err());
    assert_eq!(format!("{:?}", r), before);
}

#[test]
fn malformed_content_never_fails_the_pass() {
    let processor = FallbackProcessor::new(DegradationStrategy::default());
    let mut r = results(vec![hit("1", 1.0, "{not json"), SearchHit { id: "2".into(), score: None, content: None, highlights: None }]);
    let mut query = empty_query();
    query.q = Some("rust".to_string());
    query.facets = vec!["category".to_string()];
    query.highlight = Some(HighlightConfig { fields: vec!["title".into()], pre_tag: None, post_tag: None, max_length: None });
    assert!(processor.process_search_results(&mut r, &query, &vec![]).is_ok());
    assert_eq!(r.facets, Some("{}".to_string()));
    assert_eq!(r.hits[0].highlights, None);
    assert_eq!(r.total, Some(2));
}

#[test]
fn every_match_is_wrapped_case_insensitively() {
    let processor = FallbackProcessor::new(DegradationStrategy::default());
    let terms = vec!["rust".to_string()];
    let snippets = processor.highlight_text("Rust and RUST, not rusty", &terms, "<b>", "</b>", None);
    assert_eq!(snippets, vec!["<b>Rust</b> and <b>RUST</b>, not rusty".to_string()]);
}
