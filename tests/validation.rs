use golem_search::types::{HighlightConfig, SearchQuery};
use golem_search::validation::{
    validate_facet_field, validate_filter_string, validate_highlight_config, validate_search_query,
    validate_sort_string,
};

#[test]
fn test_search_query_validation() {
    // Test valid query
    let valid_query = SearchQuery {
        q: Some("test query".to_string()),
        filters: vec![],
        sort: vec![],
        facets: vec![],
        page: Some(1),
        per_page: Some(10),
        offset: Some(0),
        highlight: None,
        config: None,
    };

    assert!(validate_search_query(&valid_query).is_ok());

    // Test query with large page size
    let large_page_query = SearchQuery {
        q: Some("test".to_string()),
        filters: vec![],
        sort: vec![],
        facets: vec![],
        page: Some(1),
        per_page: Some(10000), // Very large page size
        offset: None,
        highlight: None,
        config: None,
    };

    assert!(validate_search_query(&large_page_query).is_ok()); // Should still be valid

    // Test empty query
    let empty_query = SearchQuery {
        q: None,
        filters: vec![],
        sort: vec![],
        facets: vec![],
        page: None,
        per_page: None,
        offset: None,
        highlight: None,
        config: None,
    };

    assert!(validate_search_query(&empty_query).is_ok()); // Empty queries are valid
}

#[test]
fn test_filter_validation() {
    // Test valid filter string
    let valid_filter = "category:programming";
    assert!(validate_filter_string(valid_filter).is_ok());

    // Test valid range filter
    let range_filter = "price:[10 TO 100]";
    assert!(validate_filter_string(range_filter).is_ok());

    // Test empty filter
    let empty_filter = "";
    assert!(validate_filter_string(empty_filter).is_err());

    // Test malformed filter
    let malformed_filter = "category:";
    assert!(validate_filter_string(malformed_filter).is_ok()); // This is actually valid - empty value
}

#[test]
fn test_facet_validation() {
    // Test valid facet field
    let valid_facet = "category";
    assert!(validate_facet_field(valid_facet).is_ok());

    // Test empty facet field
    let empty_facet = "";
    assert!(validate_facet_field(empty_facet).is_err());

    // Test facet field with special characters
    let special_facet = "category.sub_field";
    assert!(validate_facet_field(special_facet).is_ok());
}

#[test]
fn test_highlight_config_validation() {
    // Test valid highlight config
    let valid_highlight = HighlightConfig {
        fields: vec!["title".to_string(), "content".to_string()],
        pre_tag: Some("<mark>".to_string()),
        post_tag: Some("</mark>".to_string()),
        max_length: Some(150),
    };

    assert!(validate_highlight_config(&valid_highlight).is_ok());

    // Test invalid highlight config with empty fields
    let invalid_highlight = HighlightConfig {
        fields: vec![],
        pre_tag: Some("<mark>".to_string()),
        post_tag: Some("</mark>".to_string()),
        max_length: Some(150),
    };

    assert!(validate_highlight_config(&invalid_highlight).is_err());

    // Test highlight config with no tags
    let no_tags = HighlightConfig {
        fields: vec!["title".to_string()],
        pre_tag: None,
        post_tag: None,
        max_length: Some(150),
    };

    assert!(validate_highlight_config(&no_tags).is_ok()); // Should be valid
}

#[test]
fn test_sort_field_validation() {
    // Test valid sort string
    let valid_sort = "created_at:desc";
    assert!(validate_sort_string(valid_sort).is_ok());

    // Test ascending sort
    let asc_sort = "rating:asc";
    assert!(validate_sort_string(asc_sort).is_ok());

    // Test invalid sort with empty field name
    let invalid_sort = ":desc";
    assert!(validate_sort_string(invalid_sort).is_err());

    // Test sort without direction (should default to asc)
    let no_direction_sort = "title";
    assert!(validate_sort_string(no_direction_sort).is_ok());
}

#[test]
fn sort_direction_is_case_insensitive_and_checked() {
    assert!(validate_sort_string("price:DESC").is_ok());
    assert_eq!(
        validate_sort_string("price:up"),
        Err("Sort direction must be 'asc' or 'desc'".to_string())
    );
    assert_eq!(
        validate_sort_string("a:b:asc"),
        Err("Sort must be in format 'field:direction'".to_string())
    );
}

#[test]
fn filter_errors_name_the_problem() {
    assert_eq!(validate_filter_string(""), Err("Filter cannot be empty".to_string()));
    assert_eq!(
        validate_filter_string("category"),
        Err("Filter must contain field:value format".to_string())
    );
    assert_eq!(
        validate_filter_string(":books"),
        Err("Filter must have a field name".to_string())
    );
}

#[test]
fn zero_page_size_is_rejected() {
    let query = SearchQuery {
        q: None,
        filters: vec![],
        sort: vec![],
        facets: vec![],
        page: None,
        per_page: Some(0),
        offset: None,
        highlight: None,
        config: None,
    };
    assert_eq!(
        validate_search_query(&query),
        Err("'per_page' parameter must be positive".to_string())
    );
}
