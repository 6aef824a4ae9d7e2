use golem_search::config::{ProviderConfig, SearchConfig};
use golem_search::durability::is_retryable_error;
use golem_search::error::{with_context, SearchError};
use golem_search::query_utils::{
    create_basic_highlight, create_complex_filter, document_size, extract_highlight_fields, normalize_query_string,
    validate_query,
};
use golem_search::types::{Doc, SearchQuery};
use std::time::Duration;

fn query() -> SearchQuery {
    SearchQuery {
        q: None,
        filters: vec![],
        sort: vec![],
        facets: vec![],
        page: None,
        per_page: None,
        offset: None,
        highlight: None,
        config: None,
    }
}

#[test]
fn test_complex_filter_creation() {
    let filters = [("category", "electronics"), ("brand", "apple"), ("price", "100")];

    let and_filter = create_complex_filter(&filters, "and");
    assert_eq!(and_filter, "category:electronics AND brand:apple AND price:100");

    let or_filter = create_complex_filter(&filters, "or");
    assert_eq!(or_filter, "category:electronics OR brand:apple OR price:100");
}

#[test]
fn complex_filter_operator_defaults_to_and() {
    let filters = [("a", "1"), ("b", "2")];
    assert_eq!(create_complex_filter(&filters, "OR"), "a:1 OR b:2");
    assert_eq!(create_complex_filter(&filters, "xor"), "a:1 AND b:2");
    assert_eq!(create_complex_filter(&[], "and"), "");
}

#[test]
fn normalizing_collapses_whitespace() {
    assert_eq!(normalize_query_string("  rust \t\n programming\r\nlanguage  "), "rust programming language");
    assert_eq!(normalize_query_string("   "), "");
}

#[test]
fn basic_highlight() {
    let h = create_basic_highlight(vec!["title".to_string()]);
    assert_eq!(h.fields, vec!["title".to_string()]);
    assert_eq!(h.pre_tag, Some("<mark>".to_string()));
    assert_eq!(h.post_tag, Some("</mark>".to_string()));
    assert_eq!(h.max_length, Some(200));
    let mut q = query();
    assert!(extract_highlight_fields(&q).is_empty());
    q.highlight = Some(h);
    assert_eq!(extract_highlight_fields(&q), vec!["title".to_string()]);
}

#[test]
fn query_validation_rules() {
    assert!(validate_query(&query()).is_ok());
    let mut q = query();
    q.q = Some("   ".to_string());
    assert!(matches!(validate_query(&q), Err(SearchError::InvalidQuery(m)) if m == "Query string cannot be empty"));
    let mut q = query();
    q.q = Some("a".repeat(10001));
    assert!(matches!(validate_query(&q), Err(SearchError::InvalidQuery(m)) if m == "Query string too long"));
    let mut q = query();
    q.page = Some(1);
    q.per_page = Some(1001);
    assert!(matches!(validate_query(&q), Err(SearchError::InvalidQuery(m)) if m == "per_page cannot exceed 1000"));
    q.per_page = Some(0);
    assert!(matches!(validate_query(&q), Err(SearchError::InvalidQuery(m)) if m == "per_page must be greater than 0"));
    q.per_page = Some(10);
    q.page = Some(10001);
    assert!(matches!(validate_query(&q), Err(SearchError::InvalidQuery(m)) if m == "page cannot exceed 10000"));
    let mut q = query();
    q.offset = Some(100001);
    assert!(validate_query(&q).is_err());
    let mut q = query();
    q.filters = vec![" ".to_string()];
    assert!(matches!(validate_query(&q), Err(SearchError::InvalidQuery(m)) if m == "Filter cannot be empty"));
    let mut q = query();
    q.sort = vec!["".to_string()];
    assert!(matches!(validate_query(&q), Err(SearchError::InvalidQuery(m)) if m == "Sort field cannot be empty"));
}

#[test]
fn document_size_counts_bytes() {
    let doc = Doc { id: "é1".to_string(), content: "{}".to_string() };
    assert_eq!(document_size(&doc), 5);
}

#[test]
fn test_config_validation() {
    let config = SearchConfig {
        endpoint: None,
        timeout: Duration::from_secs(30),
        max_retries: 3,
        log_level: "info".to_string(),
        provider_config: ProviderConfig::Algolia {
            app_id: "test_app".to_string(),
            api_key: "test_key".to_string(),
        },
    };

    assert!(config.validate().is_ok());
}

#[test]
fn test_invalid_config() {
    let config = SearchConfig {
        endpoint: None,
        timeout: Duration::from_secs(30),
        max_retries: 3,
        log_level: "info".to_string(),
        provider_config: ProviderConfig::Algolia {
            app_id: "".to_string(),
            api_key: "test_key".to_string(),
        },
    };

    assert!(config.validate().is_err());
}

#[test]
fn test_search_config_validation() {
    // Test valid config
    let valid_config = SearchConfig {
        endpoint: Some("http://localhost:9200".to_string()),
        timeout: Duration::from_secs(5),
        max_retries: 3,
        log_level: "info".to_string(),
        provider_config: ProviderConfig::ElasticSearch {
            username: Some("test_user".to_string()),
            password: Some("test_pass".to_string()),
            cloud_id: None,
            ca_cert: None,
        },
    };

    assert!(valid_config.validate().is_ok());

    // Test invalid config with empty API key for Algolia
    let invalid_config = SearchConfig {
        endpoint: Some("https://test.algolia.net".to_string()),
        timeout: Duration::from_secs(5),
        max_retries: 3,
        log_level: "info".to_string(),
        provider_config: ProviderConfig::Algolia {
            app_id: "".to_string(), // Empty app_id
            api_key: "test_key".to_string(),
        },
    };

    assert!(invalid_config.validate().is_err());

    // Test valid Meilisearch config
    let meilisearch_config = SearchConfig {
        endpoint: Some("http://localhost:7700".to_string()),
        timeout: Duration::from_secs(10),
        max_retries: 2,
        log_level: "debug".to_string(),
        provider_config: ProviderConfig::Meilisearch {
            api_key: Some("test_key".to_string()),
            master_key: None,
        },
    };

    assert!(meilisearch_config.validate().is_ok());
}

#[test]
fn config_getters_and_typesense_nodes() {
    let config = SearchConfig {
        endpoint: Some("http://localhost:8108".to_string()),
        timeout: Duration::from_secs(7),
        max_retries: 4,
        log_level: "warn".to_string(),
        provider_config: ProviderConfig::Typesense { api_key: "k".to_string(), nodes: vec![] },
    };
    assert_eq!(config.get_endpoint(), Some("http://localhost:8108"));
    assert_eq!(config.get_timeout(), Duration::from_secs(7));
    assert_eq!(config.get_max_retries(), 4);
    assert_eq!(config.get_log_level(), "warn");
    assert!(config.validate().is_err());
}

#[test]
fn error_constructors_and_messages() {
    assert_eq!(SearchError::internal("boom").message(), "Internal error: boom");
    assert_eq!(SearchError::invalid_query("bad").message(), "Invalid query: bad");
    assert_eq!(SearchError::index_not_found("books").message(), "Index not found: books");
    assert_eq!(SearchError::Unsupported.message(), "Unsupported operation");
    assert!(is_retryable_error(&SearchError::Timeout));
    assert!(is_retryable_error(&SearchError::Internal("x".to_string())));
    assert!(!is_retryable_error(&SearchError::Unsupported));
}

#[test]
fn context_prefixes_internal_errors() {
    let r: Result<u32, SearchError> = Err(SearchError::Internal("disk full".to_string()));
    assert!(matches!(with_context(r, "saving"), Err(SearchError::Internal(m)) if m == "saving: disk full"));
    let r: Result<u32, SearchError> = Err(SearchError::Timeout);
    assert!(matches!(with_context(r, "saving"), Err(SearchError::Timeout)));
    assert!(matches!(with_context(Ok::<u32, SearchError>(3), "saving"), Ok(3)));
}
